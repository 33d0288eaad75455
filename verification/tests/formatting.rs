use bevy_intl::format::{decimal_string, fill, format_line, placeholder_pattern, plural_bucket_name};

fn owned(items: &[&str]) -> Vec<String> {
    items.iter().map(|item| item.to_string()).collect()
}

#[test]
fn fill_puts_arguments_between_segments() {
    assert_eq!(fill(&owned(&["a", "b", "c"]), &owned(&["1", "2"])), "a1b2c");
    assert_eq!(fill(&owned(&["Hi ", ""]), &owned(&["Sam"])), "Hi Sam");
}

#[test]
fn fill_ignores_arguments_without_a_placeholder() {
    assert_eq!(fill(&owned(&["a", "b"]), &owned(&["1", "2", "3"])), "a1b");
    assert_eq!(fill(&owned(&["plain"]), &owned(&["1"])), "plain");
}

#[test]
fn fill_leaves_placeholders_without_an_argument_empty() {
    assert_eq!(fill(&owned(&["a", "b", "c", "d"]), &owned(&["1"])), "a1bcd");
    assert_eq!(fill(&owned(&["a", "b"]), &[]), "ab");
}

#[test]
fn fill_of_no_segments_is_empty() {
    assert_eq!(fill(&[].to_vec(), &owned(&["1"])), "");
}

#[test]
fn format_line_substitutes_in_order() {
    let arguments = owned(&["1", "2", "3", "4"]);
    assert_eq!(format_line("{{a}}-{{b}}-{{c}}", &arguments), "1-2-3");
    assert_eq!(format_line("{{a}}-{{b}}-{{c}}", &arguments[..1]), "1--");
    assert_eq!(format_line("x{{a}}{{b}}y", &arguments), "x12y");
}

#[test]
fn format_line_ignores_the_name_in_a_placeholder() {
    let arguments = owned(&["Ann", "Bob"]);
    assert_eq!(format_line("{{second}} and {{first}}", &arguments), "Ann and Bob");
    assert_eq!(format_line("{{}} and {{}}", &arguments), "Ann and Bob");
    assert_eq!(format_line("{{same}} and {{same}}", &arguments), "Ann and Bob");
}

#[test]
fn format_line_takes_word_characters_only() {
    let arguments = owned(&["X"]);
    assert_eq!(format_line("{{prénom_1}}", &arguments), "X");
    assert_eq!(format_line("{{ name }}", &arguments), "{{ name }}");
    assert_eq!(format_line("{{first-name}}", &arguments), "{{first-name}}");
    assert_eq!(format_line("{name}", &arguments), "{name}");
    assert_eq!(format_line("{{name}", &arguments), "{{name}");
}

#[test]
fn format_line_without_placeholder_is_unchanged() {
    assert_eq!(format_line("Salut", &owned(&["1"])), "Salut");
    assert_eq!(format_line("", &owned(&["1"])), "");
    assert_eq!(format_line("Error missing text", &owned(&["1", "2"])), "Error missing text");
}

#[test]
fn format_line_without_arguments_removes_placeholders() {
    assert_eq!(format_line("Hi {{name}}!", &[]), "Hi !");
}

#[test]
fn placeholder_pattern_is_the_double_brace_expression() {
    assert_eq!(placeholder_pattern(), r"\{\{(\w*)\}\}");
}

#[test]
fn bucket_names() {
    assert_eq!(plural_bucket_name(0), "none");
    assert_eq!(plural_bucket_name(1), "one");
    assert_eq!(plural_bucket_name(2), "many");
    assert_eq!(plural_bucket_name(1000), "many");
    assert_eq!(plural_bucket_name(usize::MAX), "many");
}

#[test]
fn decimal_digits() {
    assert_eq!(decimal_string(0), "0");
    assert_eq!(decimal_string(7), "7");
    assert_eq!(decimal_string(10), "10");
    assert_eq!(decimal_string(305), "305");
    assert_eq!(decimal_string(1234567890), "1234567890");
    assert_eq!(decimal_string(usize::MAX), usize::MAX.to_string());
}

#[test]
fn decimal_agrees_with_the_standard_library() {
    for n in [1usize, 9, 11, 99, 100, 101, 999, 1000, 4096, 65535, 1_000_000] {
        assert_eq!(decimal_string(n), n.to_string());
    }
}
