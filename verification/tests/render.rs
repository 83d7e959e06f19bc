//! Tests for the template renderer and the variable map.

use notify_engine::template::{render, VariableMap};

#[test]
fn render_unbound_tokens_stay_verbatim() {
    let variables = VariableMap::new();
    let template = "prefix ${alpha} middle ${beta_2} suffix";
    assert_eq!(render(template, &variables), template);
}

#[test]
fn render_empty_template_empty_map() {
    let variables = VariableMap::new();
    assert_eq!(render("", &variables), "");
}

#[test]
fn render_two_tokens() {
    let mut variables = VariableMap::new();
    variables.insert("a".to_string(), "X".to_string());
    variables.insert("b".to_string(), "Y".to_string());
    assert_eq!(render("${a} ${b}", &variables), "X Y");
}

#[test]
fn render_repeated_token() {
    let mut variables = VariableMap::new();
    variables.insert("x".to_string(), "7".to_string());
    assert_eq!(render("${x}+${x}=${y}", &variables), "7+7=${y}");
}

#[test]
fn render_empty_value() {
    let mut variables = VariableMap::new();
    variables.insert("name".to_string(), "".to_string());
    assert_eq!(render("Hello ${name}!", &variables), "Hello !");
}

#[test]
fn render_does_not_rescan_substituted_values() {
    let mut variables = VariableMap::new();
    variables.insert("a".to_string(), "${b}".to_string());
    variables.insert("b".to_string(), "boom".to_string());
    assert_eq!(render("${a}", &variables), "${b}");
}

#[test]
fn render_malformed_tokens_are_plain_text() {
    let mut variables = VariableMap::new();
    variables.insert("a".to_string(), "X".to_string());
    assert_eq!(render("${} $a ${a xyz", &variables), "${} $a ${a xyz");
    assert_eq!(render("${a${a}", &variables), "${aX");
}

#[test]
fn variable_map_last_binding_wins() {
    let mut variables = VariableMap::new();
    variables.insert("k".to_string(), "first".to_string());
    variables.insert("k".to_string(), "second".to_string());
    let got = variables.get(&"k".to_string());
    assert_eq!(got.map(|s| s.as_str()), Some("second"));
    assert!(variables.get(&"missing".to_string()).is_none());
    assert_eq!(render("${k}", &variables), "second");
}
