use rp1::macros::template::{bind, fill, lookup};
use rp1::text::{
    concat_all, decimal, join, same_text, split_char, starts_with_char, trim_start_char,
};

fn strings(items: &[&str]) -> Vec<String> {
    items.iter().map(|s| s.to_string()).collect()
}

#[test]
fn integers_are_written_in_decimal() {
    assert_eq!(decimal(0), "0");
    assert_eq!(decimal(7), "7");
    assert_eq!(decimal(10), "10");
    assert_eq!(decimal(100), "100");
    assert_eq!(decimal(-1), "-1");
    assert_eq!(decimal(1234567890), "1234567890");
    assert_eq!(decimal(i64::MAX), "9223372036854775807");
    assert_eq!(decimal(i64::MIN), "-9223372036854775808");
}

#[test]
fn texts_are_joined_and_split() {
    assert_eq!(join(&strings(&[]), ", "), "");
    assert_eq!(join(&strings(&["a"]), ", "), "a");
    assert_eq!(join(&strings(&["a", "b", "c"]), ", "), "a, b, c");
    assert_eq!(join(&strings(&["", ""]), "-"), "-");
    assert_eq!(concat_all(&strings(&["a", "", "bc"])), "abc");
    assert_eq!(split_char("a,b,c", ','), vec!["a", "b", "c"]);
    assert_eq!(split_char("", ','), vec![""]);
    assert_eq!(split_char(",", ','), vec!["", ""]);
    assert_eq!(split_char("a,,b,", ','), vec!["a", "", "b", ""]);
    assert_eq!(split_char("no comma", ','), vec!["no comma"]);
    assert_eq!(split_char("é,ü", ','), vec!["é", "ü"]);
    for text in ["", "a", "a,b", ",a,,b,", ",,,"] {
        let ours = split_char(text, ',');
        let theirs: Vec<&str> = text.split(',').collect();
        assert_eq!(ours, theirs);
    }
}

#[test]
fn leading_runs_are_trimmed() {
    assert_eq!(trim_start_char("--a-", '-'), "a-");
    assert_eq!(trim_start_char("a", '-'), "a");
    assert_eq!(trim_start_char("---", '-'), "");
    assert_eq!(trim_start_char("", '-'), "");
    assert_eq!(trim_start_char("ééa", 'é'), "a");
    assert!(starts_with_char("-a", '-'));
    assert!(!starts_with_char("a-", '-'));
    assert!(!starts_with_char("", '-'));
    assert!(same_text("eq", "eq"));
    assert!(!same_text("eq", "e"));
    assert!(!same_text("eq", "ne"));
    assert!(same_text("", ""));
}

#[test]
fn holes_are_filled_from_the_first_binding_of_their_name() {
    let env = vec![bind("ident", "User"), bind("table", "users"), bind("ident", "Other")];
    assert_eq!(fill("struct #ident;", &env), "struct User;");
    assert_eq!(fill("#table::#ident", &env), "users::User");
    assert_eq!(fill("#ident#ident", &env), "UserUser");
    assert_eq!(fill("\"#table\"", &env), "\"users\"");
    assert_eq!(lookup(&env, "table"), "users");
    assert_eq!(lookup(&env, "nothing"), "#nothing");
}

#[test]
fn a_name_is_the_longest_run_of_name_characters() {
    let env = vec![bind("a", "1"), bind("a_b", "2"), bind("a9", "3"), bind("_x", "4")];
    assert_eq!(fill("#a", &env), "1");
    assert_eq!(fill("#a_b", &env), "2");
    assert_eq!(fill("#a9", &env), "3");
    assert_eq!(fill("#a.b", &env), "1.b");
    assert_eq!(fill("#a-b", &env), "1-b");
    assert_eq!(fill("#_x", &env), "4");
    assert_eq!(fill("#a_", &env), "#a_");
}

#[test]
fn what_is_no_hole_stands_as_it_is() {
    let env = vec![bind("derive", "never")];
    assert_eq!(fill("#[derive(Debug)]", &env), "#[derive(Debug)]");
    assert_eq!(fill("# derive", &env), "# derive");
    assert_eq!(fill("#9", &env), "#9");
    assert_eq!(fill("#", &env), "#");
    assert_eq!(fill("##derive", &env), "#never");
    assert_eq!(fill("", &env), "");
    assert_eq!(fill("#unbound stays", &env), "#unbound stays");
    assert_eq!(fill("a value is not filled again: #derive", &vec![bind("derive", "#derive")]),
        "a value is not filled again: #derive");
}

#[test]
fn templates_need_not_be_ascii() {
    let env = vec![bind("wer", "Welt"), bind("é", "no name")];
    assert_eq!(fill("Grüße, #wer! ✓", &env), "Grüße, Welt! ✓");
    assert_eq!(fill("#é", &env), "#é");
    assert_eq!(fill("#wer", &vec![bind("wer", "wörld")]), "wörld");
}
