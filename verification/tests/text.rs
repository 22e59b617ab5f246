use datum::text::{
    chars_of, contains_name, eq_ignore_ascii_case, push_decimal, push_quoted, same_text,
    to_ascii_lower,
};

#[test]
fn ascii_lower_folds_only_ascii_capitals() {
    assert_eq!(to_ascii_lower('A'), 'a');
    assert_eq!(to_ascii_lower('Z'), 'z');
    assert_eq!(to_ascii_lower('m'), 'm');
    assert_eq!(to_ascii_lower('@'), '@');
    assert_eq!(to_ascii_lower('['), '[');
    assert_eq!(to_ascii_lower('Ł'), 'Ł');
    assert_eq!(to_ascii_lower('5'), '5');
}

#[test]
fn chars_of_keeps_order() {
    assert_eq!(chars_of("tytuł"), vec!['t', 'y', 't', 'u', 'ł']);
    assert_eq!(chars_of(""), Vec::<char>::new());
}

#[test]
fn names_match_whatever_the_ascii_case() {
    assert!(eq_ignore_ascii_case("Name", "name"));
    assert!(eq_ignore_ascii_case("USERNAME", "username"));
    assert!(eq_ignore_ascii_case("", ""));
    assert!(!eq_ignore_ascii_case("name", "names"));
    assert!(!eq_ignore_ascii_case("name", "nave"));
    // only ASCII letters are folded
    assert!(!eq_ignore_ascii_case("TYTUŁ", "tytuł"));
    assert!(eq_ignore_ascii_case("tytuŁ", "TYTUŁ"));
}

#[test]
fn names_match_as_std_says() {
    let samples = [
        "name", "NAME", "NaMe", "nam", "", "tytul", "TYTUL", "ty_ul", "login1", "tytuł", "TYTUŁ",
        "tYtUł", "ł", "Ł", "k", "K", "\u{212a}", "@", "`",
    ];
    for a in samples {
        for b in samples {
            assert_eq!(eq_ignore_ascii_case(a, b), a.eq_ignore_ascii_case(b));
            assert_eq!(same_text(a, b), a == b);
        }
    }
}

#[test]
fn decimal_numerals() {
    let cases: [(u64, &str); 7] = [
        (0, "0"),
        (7, "7"),
        (10, "10"),
        (42, "42"),
        (3306, "3306"),
        (65535, "65535"),
        (18446744073709551615, "18446744073709551615"),
    ];
    for (n, text) in cases {
        let mut out = String::from("jt");
        push_decimal(&mut out, n);
        assert_eq!(out, format!("jt{}", text));
    }
}

#[test]
fn quoting_wraps_in_backticks() {
    let mut out = String::from("FROM ");
    push_quoted(&mut out, "users");
    assert_eq!(out, "FROM `users`");
    let mut out = String::new();
    push_quoted(&mut out, "");
    assert_eq!(out, "``");
}

#[test]
fn name_lists_are_searched_exactly() {
    let names = vec!["users".to_string(), "Posts".to_string()];
    assert!(contains_name(&names, "users"));
    assert!(contains_name(&names, "Posts"));
    assert!(!contains_name(&names, "posts"));
    assert!(!contains_name(&names, "user"));
    assert!(!contains_name(&names, "users; DROP TABLE users --"));
    assert!(!contains_name(&Vec::new(), "users"));
}
