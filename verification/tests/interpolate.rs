use nutext::error::CommandError;
use nutext::interpolate::{apply, interpolation_result, parse_assignment, InterpolationMap};

fn vars(pairs: &[(&str, &str)]) -> InterpolationMap {
    let mut vars = InterpolationMap::new();
    for (key, value) in pairs {
        vars.insert(key.to_string(), value.to_string());
    }
    vars
}

fn missing(detail: &str) -> Result<String, CommandError> {
    Err(CommandError::MissingVariable { detail: detail.to_string() })
}

#[test]
fn missing_variable_fails() {
    assert_eq!(apply("{a} and {b}", &vars(&[("a", "1")])), missing("Invalid key: b"));
}

#[test]
fn extra_variable_is_ignored() {
    let all = vars(&[("a", "1"), ("b", "2"), ("c", "3")]);
    assert_eq!(apply("{a} and {b}", &all), Ok("1 and 2".to_string()));
}

#[test]
fn placeholder_is_replaced_by_its_value() {
    assert_eq!(apply("Hello {name}", &vars(&[("name", "Foo")])), Ok("Hello Foo".to_string()));
    assert_eq!(apply("{x}{x}-{y}", &vars(&[("x", "ab"), ("y", "")])), Ok("abab-".to_string()));
}

#[test]
fn plain_template_comes_back_unchanged() {
    assert_eq!(apply("no placeholders", &vars(&[("a", "1")])), Ok("no placeholders".to_string()));
    assert_eq!(apply("", &InterpolationMap::new()), Ok(String::new()));
    assert_eq!(apply("caf\u{e9} \u{2615}", &InterpolationMap::new()), Ok("caf\u{e9} \u{2615}".to_string()));
}

#[test]
fn values_are_not_substituted_again() {
    let nested = vars(&[("a", "{b}"), ("b", "x")]);
    assert_eq!(apply("{a}", &nested), Ok("{b}".to_string()));
}

#[test]
fn doubled_braces_stand_for_single_ones() {
    assert_eq!(apply("{{a}}", &vars(&[("a", "1")])), Ok("{a}".to_string()));
}

#[test]
fn malformed_placeholder_fails() {
    let one = vars(&[("a", "1")]);
    assert_eq!(apply("{a", &one), missing("Expected '}' before end of string"));
    assert_eq!(apply("a}", &one), missing("Single '}' encountered in format string"));
    assert_eq!(apply("{}", &one), missing("must specify identifier"));
    assert_eq!(apply("{a{", &one), missing("extra { found"));
}

#[test]
fn unsuitable_format_fails() {
    let one = vars(&[("a", "1")]);
    assert_eq!(
        apply("{a:x}", &one),
        missing("Unknown format code Some('x') for object of type 'str'")
    );
}

#[test]
fn width_pads_the_value() {
    assert_eq!(apply("[{a:>4}]", &vars(&[("a", "1")])), Ok("[   1]".to_string()));
    assert_eq!(apply("[{a:<4}]", &vars(&[("a", "1")])), Ok("[1   ]".to_string()));
}

#[test]
fn formatter_outcome_becomes_command_result() {
    assert_eq!(interpolation_result(Ok("text".to_string())), Ok("text".to_string()));
    assert_eq!(interpolation_result(Err("why".to_string())), missing("why"));
}

#[test]
fn new_map_is_empty() {
    let empty = InterpolationMap::new();
    assert_eq!(empty.len(), 0);
    assert_eq!(empty.get("a"), None);
}

#[test]
fn insert_adds_and_replaces() {
    let mut map = InterpolationMap::new();
    map.insert("a".to_string(), "1".to_string());
    map.insert("b".to_string(), "2".to_string());
    assert_eq!(map.len(), 2);
    map.insert("a".to_string(), "3".to_string());
    assert_eq!(map.len(), 2);
    assert_eq!(map.get("a"), Some("3".to_string()));
    assert_eq!(map.get("b"), Some("2".to_string()));
    assert_eq!(map.get("c"), None);
    assert_eq!(apply("{a}{b}", &map), Ok("32".to_string()));
}

#[test]
fn entries_without_value_are_dropped() {
    let entries = vec![
        ("a".to_string(), Some("1".to_string())),
        ("b".to_string(), None),
        ("c".to_string(), Some("3".to_string())),
    ];
    let map = InterpolationMap::from_entries(entries);
    assert_eq!(map.len(), 2);
    assert_eq!(map.get("a"), Some("1".to_string()));
    assert_eq!(map.get("b"), None);
    assert_eq!(map.get("c"), Some("3".to_string()));
    assert_eq!(apply("{b}", &map), missing("Invalid key: b"));
}

#[test]
fn later_entry_of_a_name_stays() {
    let entries = vec![
        ("a".to_string(), Some("1".to_string())),
        ("a".to_string(), Some("2".to_string())),
        ("a".to_string(), None),
    ];
    let map = InterpolationMap::from_entries(entries);
    assert_eq!(map.len(), 1);
    assert_eq!(map.get("a"), Some("2".to_string()));
}

#[test]
fn no_entries_make_an_empty_map() {
    assert_eq!(InterpolationMap::from_entries(Vec::new()).len(), 0);
}

#[test]
fn token_splits_at_its_first_equals_sign() {
    assert_eq!(parse_assignment("name=Foo"), Some(("name".to_string(), "Foo".to_string())));
    assert_eq!(parse_assignment("a=b=c"), Some(("a".to_string(), "b=c".to_string())));
    assert_eq!(parse_assignment("a="), Some(("a".to_string(), String::new())));
    assert_eq!(parse_assignment("=b"), Some((String::new(), "b".to_string())));
    assert_eq!(parse_assignment("="), Some((String::new(), String::new())));
    assert_eq!(
        parse_assignment("cl\u{e9}=caf\u{e9} \u{2615}"),
        Some(("cl\u{e9}".to_string(), "caf\u{e9} \u{2615}".to_string()))
    );
}

#[test]
fn token_without_equals_sign_sets_nothing() {
    assert_eq!(parse_assignment("name"), None);
    assert_eq!(parse_assignment(""), None);
}

#[test]
fn tokens_build_the_variables() {
    let tokens: Vec<String> =
        ["a=1", "skipped", "b=2", "a=3"].iter().map(|token| token.to_string()).collect();
    let map = InterpolationMap::from_tokens(&tokens);
    assert_eq!(map.len(), 2);
    assert_eq!(map.get("a"), Some("3".to_string()));
    assert_eq!(map.get("b"), Some("2".to_string()));
    assert_eq!(map.get("skipped"), None);
    assert_eq!(apply("{a}-{b}", &map), Ok("3-2".to_string()));
    assert_eq!(InterpolationMap::from_tokens(&Vec::new()).len(), 0);
}
