use mrs_matrix::framerate_in_range;

#[test]
fn accepts_positive_integers() {
    assert_eq!(framerate_in_range("25"), Ok(25));
    assert_eq!(framerate_in_range("1"), Ok(1));
    assert_eq!(framerate_in_range("144"), Ok(144));
    assert_eq!(framerate_in_range("+7"), Ok(7));
}

#[test]
fn rejects_zero_with_its_own_message() {
    assert_eq!(framerate_in_range("0"), Err("framerate cannot be zero".to_string()));
    assert_eq!(framerate_in_range("000"), Err("framerate cannot be zero".to_string()));
}

#[test]
fn rejects_non_integers() {
    assert_eq!(framerate_in_range("abc"), Err("\"abc\" isn't a valid integer".to_string()));
    assert_eq!(framerate_in_range(""), Err("\"\" isn't a valid integer".to_string()));
    assert_eq!(framerate_in_range("12x"), Err("\"12x\" isn't a valid integer".to_string()));
    assert_eq!(framerate_in_range("-3"), Err("\"-3\" isn't a valid integer".to_string()));
    assert_eq!(framerate_in_range("+"), Err("\"+\" isn't a valid integer".to_string()));
    assert_eq!(framerate_in_range(" 5"), Err("\" 5\" isn't a valid integer".to_string()));
}

#[test]
fn rejects_values_that_do_not_fit() {
    let huge = "99999999999999999999999999999999";
    assert_eq!(
        framerate_in_range(huge),
        Err(format!("\"{}\" isn't a valid integer", huge))
    );
}
