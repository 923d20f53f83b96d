use regex::Regex;
use semantic::models::ErrorKind;
use semantic::utils::email::{has_email_shape, validate_email};

#[test]
fn test_valid_emails() {
    assert!(validate_email("user@example.com").is_ok());
    assert!(validate_email("user.name+tag@example.co.uk").is_ok());
    assert!(validate_email("first.last@example.org").is_ok());
}

#[test]
fn test_invalid_emails() {
    assert!(validate_email("").is_err());
    assert!(validate_email("user@").is_err());
    assert!(validate_email("user@domain").is_err());
    assert!(validate_email("@domain.com").is_err());
    assert!(validate_email("user name@domain.com").is_err());
}

#[test]
fn the_errors_say_what_is_wrong() {
    let error = validate_email("").unwrap_err();
    assert_eq!(error.kind, ErrorKind::Validation);
    assert_eq!(error.message, "Email is required and cannot be empty");
    let error = validate_email("user@domain").unwrap_err();
    assert_eq!(error.kind, ErrorKind::Validation);
    assert_eq!(error.message, "Invalid email format: user@domain");
}

#[test]
fn the_shape_is_that_of_the_pattern() {
    let pattern = Regex::new(r"^[a-zA-Z0-9._%+-]+@[a-zA-Z0-9.-]+\.[a-zA-Z]{2,}$").unwrap();
    let cases = [
        "user@example.com",
        "user.name+tag@example.co.uk",
        "a@b.cd",
        "a@b.c",
        "a@.cd",
        "a@b..cd",
        "a@-.cd",
        "a@b.c1",
        "a@b.cde.",
        "a@b@c.de",
        "@b.cd",
        "a@b",
        "a b@c.de",
        "a@b.cd\n",
        "\na@b.cd",
        "é@b.cd",
        "a@é.cd",
        "a@b.cé",
        "A_%+-.9@B-9.x.YZ",
        "a@b.cd ",
        "a@b_c.de",
        "a!@b.cd",
        ".@..aa",
        "a@b.c.d",
        "",
        "@",
        ".",
        "a@.b",
        "user@example.c-m",
        "user@@example.com",
        "user@example.com.",
        "x@y.zz",
        "x@yzz",
        "x.y.zz",
    ];
    for case in cases {
        assert_eq!(has_email_shape(case), pattern.is_match(case), "on {:?}", case);
        assert_eq!(validate_email(case).is_ok(), pattern.is_match(case), "on {:?}", case);
    }
}
