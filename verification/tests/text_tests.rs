use job_security::text::{decimal_string, join_with_spaces, signed_decimal_string};

#[test]
fn decimal_of_zero() {
    assert_eq!(decimal_string(0), "0");
}

#[test]
fn decimal_of_large_numbers() {
    assert_eq!(decimal_string(1234567890), "1234567890");
    assert_eq!(decimal_string(u64::MAX), u64::MAX.to_string());
    assert_eq!(decimal_string(10), "10");
}

#[test]
fn signed_decimal_renders_sign() {
    assert_eq!(signed_decimal_string(-42), "-42");
    assert_eq!(signed_decimal_string(7), "7");
    assert_eq!(signed_decimal_string(i64::MIN), i64::MIN.to_string());
    assert_eq!(signed_decimal_string(i64::MAX), i64::MAX.to_string());
}

#[test]
fn decimal_agrees_with_to_string_on_many_values() {
    let mut n: u64 = 1;
    while n < u64::MAX / 7 {
        assert_eq!(decimal_string(n), n.to_string());
        assert_eq!(signed_decimal_string(-(n as i64)), (-(n as i64)).to_string());
        n = n * 7 + 3;
    }
}

#[test]
fn join_matches_std_join() {
    let words = vec!["echo".to_string(), "a b".to_string(), "".to_string(), "c".to_string()];
    assert_eq!(join_with_spaces(&words), words.join(" "));
    assert_eq!(join_with_spaces(&Vec::new()), "");
    assert_eq!(join_with_spaces(&vec!["ls".to_string()]), "ls");
}
