use ppf_session::config::debug_flag_enabled;

fn enabled(v: &str) -> bool {
    debug_flag_enabled(&Some(String::from(v)))
}

#[test]
fn absent_value_disables_the_toggle() {
    assert!(!debug_flag_enabled(&None));
}

#[test]
fn the_literal_one_enables_the_toggle() {
    assert!(enabled("1"));
}

#[test]
fn any_ascii_casing_of_true_enables_the_toggle() {
    assert!(enabled("true"));
    assert!(enabled("TRUE"));
    assert!(enabled("True"));
    assert!(enabled("tRuE"));
}

#[test]
fn other_values_disable_the_toggle() {
    assert!(!enabled(""));
    assert!(!enabled("0"));
    assert!(!enabled("11"));
    assert!(!enabled("yes"));
    assert!(!enabled("truth"));
    assert!(!enabled("true "));
    assert!(!enabled("vrai"));
}
