use tiberqueries::shape::{pascal_case, resolve_column_name};

#[test]
fn verbatim_when_no_override_and_no_convention() {
    let r = resolve_column_name("super_description", None, false);
    assert_eq!(r, "super_description");
    let r = resolve_column_name("x", None, false);
    assert_eq!(r, "x");
}

#[test]
fn convention_capitalizes_word_boundaries() {
    let r = resolve_column_name("super_description", None, true);
    assert_eq!(r, "SuperDescription");
}

#[test]
fn override_wins_without_convention() {
    let r = resolve_column_name("super_description", Some("LegacyColumn"), false);
    assert_eq!(r, "LegacyColumn");
}

#[test]
fn override_wins_over_convention() {
    let r = resolve_column_name("super_description", Some("LegacyColumn"), true);
    assert_eq!(r, "LegacyColumn");
}

#[test]
fn pascal_case_examples() {
    assert_eq!(pascal_case("super_description"), "SuperDescription");
    assert_eq!(pascal_case("x"), "X");
    assert_eq!(pascal_case("a_b_c"), "ABC");
    assert_eq!(pascal_case(""), "");
    assert_eq!(pascal_case("_leading"), "Leading");
    assert_eq!(pascal_case("trailing_"), "Trailing");
    assert_eq!(pascal_case("two__underscores"), "TwoUnderscores");
    assert_eq!(pascal_case("alreadyPascal"), "AlreadyPascal");
    assert_eq!(pascal_case("name1_part2"), "Name1Part2");
}
