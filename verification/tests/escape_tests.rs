use cv_latex::escape::escape;
use cv_latex::field::render;
use cv_latex::text::join;

#[test]
fn plain_text_is_left_alone() {
    assert_eq!(escape("Ada Lovelace"), "Ada Lovelace");
    assert_eq!(escape("O'Brien, J. (2019-2021); a+b=c!?"), "O'Brien, J. (2019-2021); a+b=c!?");
}

#[test]
fn empty_text_stays_empty() {
    assert_eq!(escape(""), "");
}

#[test]
fn backslash_becomes_a_command() {
    assert_eq!(escape("\\"), "\\textbackslash{}");
    assert_eq!(escape("a\\b"), "a\\textbackslash{}b");
}

#[test]
fn caret_and_tilde_become_commands() {
    assert_eq!(escape("^"), "\\textasciicircum{}");
    assert_eq!(escape("~"), "\\textasciitilde{}");
    assert_eq!(escape("x^2 ~ y"), "x\\textasciicircum{}2 \\textasciitilde{} y");
}

#[test]
fn other_reserved_characters_get_a_backslash() {
    assert_eq!(escape("{"), "\\{");
    assert_eq!(escape("}"), "\\}");
    assert_eq!(escape("%"), "\\%");
    assert_eq!(escape("&"), "\\&");
    assert_eq!(escape("#"), "\\#");
    assert_eq!(escape("_"), "\\_");
    assert_eq!(escape("$"), "\\$");
}

#[test]
fn all_reserved_characters_in_one_text() {
    assert_eq!(
        escape("\\{}%&#_^~$"),
        "\\textbackslash{}\\{\\}\\%\\&\\#\\_\\textasciicircum{}\\textasciitilde{}\\$"
    );
}

#[test]
fn percent_and_ampersand_in_a_name() {
    assert_eq!(escape("50% O'Brien & Co."), "50\\% O'Brien \\& Co.");
}

#[test]
fn escaped_text_is_escaped_again_when_asked() {
    assert_eq!(escape("\\%"), "\\textbackslash{}\\%");
    assert_eq!(escape(&escape("%")), "\\textbackslash{}\\%");
}

#[test]
fn repeated_reserved_characters_are_each_escaped() {
    assert_eq!(escape("%%"), "\\%\\%");
    assert_eq!(escape("__init__"), "\\_\\_init\\_\\_");
}

#[test]
fn text_outside_ascii_passes_through() {
    assert_eq!(escape("Zoë Müller, 東京"), "Zoë Müller, 東京");
    assert_eq!(escape("café & thé"), "café \\& thé");
}

#[test]
fn line_ends_and_spaces_pass_through() {
    assert_eq!(escape("a\nb\tc  d"), "a\nb\tc  d");
}

#[test]
fn escaping_goes_part_by_part() {
    let a = "R&D at 100%";
    let b = " in C#_shop";
    let whole = format!("{}{}", a, b);
    assert_eq!(escape(&whole), format!("{}{}", escape(a), escape(b)));
}

#[test]
fn escaping_depends_on_the_text_alone() {
    assert_eq!(escape("a_b & c"), escape("a_b & c"));
}

#[test]
fn present_value_is_rendered_escaped() {
    let value = Some("R&D".to_string());
    assert_eq!(render(&value, "N/A"), "R\\&D");
}

#[test]
fn missing_value_is_rendered_as_the_fallback() {
    assert_eq!(render(&None, "N/A"), "N/A");
    assert_eq!(render(&None, "Present"), "Present");
    assert_eq!(render(&None, ""), "");
}

#[test]
fn missing_link_is_rendered_as_the_bare_anchor() {
    assert_eq!(render(&None, "#"), "#");
}

#[test]
fn empty_value_is_not_a_missing_value() {
    let value = Some(String::new());
    assert_eq!(render(&value, "N/A"), "");
}

#[test]
fn value_equal_to_the_fallback_is_still_escaped() {
    let value = Some("#".to_string());
    assert_eq!(render(&value, "#"), "\\#");
}

#[test]
fn joining_nothing_gives_nothing() {
    let parts: Vec<String> = Vec::new();
    assert_eq!(join(&parts, "\n\n"), "");
}

#[test]
fn joining_one_part_gives_that_part() {
    let parts = vec!["only".to_string()];
    assert_eq!(join(&parts, "\n\n"), "only");
}

#[test]
fn joining_puts_the_separator_between_neighbours() {
    let parts = vec!["a".to_string(), "b".to_string(), "c".to_string()];
    assert_eq!(join(&parts, ", "), "a, b, c");
    assert_eq!(join(&parts, ""), "abc");
}

#[test]
fn joining_keeps_empty_parts() {
    let parts = vec![String::new(), "x".to_string(), String::new()];
    assert_eq!(join(&parts, "-"), "-x-");
}

#[test]
fn joining_keeps_order_and_repeats() {
    let parts = vec!["b".to_string(), "a".to_string(), "b".to_string()];
    assert_eq!(join(&parts, "\n"), "b\na\nb");
}
