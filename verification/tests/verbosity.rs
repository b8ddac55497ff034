use cpu_affinity::verbosity::check_rustlog;

#[test]
fn unset_flag_is_quiet() {
    assert!(!check_rustlog(None));
}

#[test]
fn empty_flag_is_quiet() {
    assert!(!check_rustlog(Some("")));
}

#[test]
fn trace_and_debug_enable_in_any_case() {
    assert!(check_rustlog(Some("TRACE")));
    assert!(check_rustlog(Some("trace")));
    assert!(check_rustlog(Some("TrAcE")));
    assert!(check_rustlog(Some("DEBUG")));
    assert!(check_rustlog(Some("debug")));
    assert!(check_rustlog(Some("Debug")));
}

#[test]
fn other_words_are_quiet() {
    assert!(!check_rustlog(Some("info")));
    assert!(!check_rustlog(Some("warn")));
    assert!(!check_rustlog(Some("TRACE ")));
    assert!(!check_rustlog(Some("debugg")));
}

#[test]
fn nonzero_numbers_enable() {
    assert!(check_rustlog(Some("1")));
    assert!(check_rustlog(Some("42")));
    assert!(!check_rustlog(Some("0")));
    assert!(!check_rustlog(Some("00")));
}

#[test]
fn signed_numbers_follow_their_value() {
    assert!(check_rustlog(Some("+1")));
    assert!(check_rustlog(Some("+42")));
    assert!(!check_rustlog(Some("+0")));
    assert!(!check_rustlog(Some("+")));
    assert!(!check_rustlog(Some("++1")));
}

#[test]
fn oversized_number_is_quiet() {
    assert!(!check_rustlog(Some("99999999999999999999999999")));
}
