use bank_saga::codec::{get_check_nr, get_id, invalid_from, new_account, open_account, valid_open_account};

#[test]
fn generated_account_numbers_validate() {
    // Round trip of generation and validation over many random samples.
    for _ in 0..10_000 {
        let n = new_account();
        assert_eq!(n.len(), 18);
        assert_eq!(&n[0..2], "NL");
        assert_eq!(&n[4..8], "OPEN");
        assert_eq!(&n[8..9], "0");
        assert!(valid_open_account(n));
    }
}

#[test]
fn check_nr_exact_values() {
    assert_eq!(get_check_nr("0123456789"), "80");
    assert_eq!(get_check_nr("0000000000"), "66");
    assert_eq!(get_check_nr("0111111111"), "64");
    assert_eq!(get_check_nr("0999999999"), "48");
}

#[test]
fn open_account_exact_values() {
    assert_eq!(open_account("0123456789"), "NL80OPEN0123456789");
    assert_eq!(open_account("0000000000"), "NL66OPEN0000000000");
}

#[test]
fn valid_open_account_accepts_known_good() {
    assert!(valid_open_account(String::from("NL80OPEN0123456789")));
    assert!(valid_open_account(String::from("NL66OPEN0000000000")));
}

#[test]
fn valid_open_account_rejects_malformed() {
    assert!(!valid_open_account(String::from("")));
    assert!(!valid_open_account(String::from("NL80OPEN012345678")));
    assert!(!valid_open_account(String::from("NL80OPEN01234567890")));
    assert!(!valid_open_account(String::from("XX80OPEN0123456789")));
    assert!(!valid_open_account(String::from("NL80SHUT0123456789")));
    assert!(!valid_open_account(String::from("NL80OPEN012345678X")));
    assert!(!valid_open_account(String::from("NLXXOPEN0123456789")));
    // Wrong check number.
    assert!(!valid_open_account(String::from("NL81OPEN0123456789")));
}

#[test]
fn single_digit_mutations_are_detected() {
    // Changing any one trailing digit always breaks the check number.
    let good = "NL80OPEN0123456789";
    for pos in 8..18 {
        for d in b'0'..=b'9' {
            let mut bytes = good.as_bytes().to_vec();
            if bytes[pos] == d {
                continue;
            }
            bytes[pos] = d;
            let mutated = String::from_utf8(bytes).unwrap();
            assert!(!valid_open_account(mutated));
        }
    }
}

#[test]
fn cash_is_accepted_as_from() {
    assert!(!invalid_from(String::from("cash")));
    assert!(!invalid_from(String::from("NL80OPEN0123456789")));
    assert!(invalid_from(String::from("NL81OPEN0123456789")));
    assert!(invalid_from(String::from("somewhere")));
    assert!(invalid_from(String::from("")));
}

#[test]
fn generated_ids_are_uuids() {
    let a = get_id();
    let b = get_id();
    assert_eq!(a.len(), 36);
    assert_eq!(b.len(), 36);
    assert_ne!(a, b);
}
