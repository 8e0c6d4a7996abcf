use capslock_sync::adapter::check_dependencies;
use capslock_sync::adapter::parse_led_brightness;
use capslock_sync::adapter::toggle_needed;
use capslock_sync::adapter::DependencyError;

#[test]
fn toggle_needed_only_on_difference() {
    assert!(!toggle_needed(false, false));
    assert!(toggle_needed(false, true));
    assert!(toggle_needed(true, false));
    assert!(!toggle_needed(true, true));
}

#[test]
fn dependencies_present_is_ok() {
    assert_eq!(check_dependencies(true), Ok(()));
}

#[test]
fn missing_toggle_tool_is_fatal() {
    let r = check_dependencies(false);
    assert_eq!(r, Err(DependencyError::MissingToggleTool));
    assert!(!DependencyError::MissingToggleTool.message().is_empty());
}

#[test]
fn led_file_with_newline() {
    assert!(parse_led_brightness(b"1\n"));
    assert!(!parse_led_brightness(b"0\n"));
}

#[test]
fn led_file_bare_digit() {
    assert!(parse_led_brightness(b"1"));
    assert!(!parse_led_brightness(b"0"));
}

#[test]
fn led_file_surrounding_whitespace() {
    assert!(parse_led_brightness(b" \t1 \r\n"));
    assert!(!parse_led_brightness(b" \t0 \r\n"));
}

#[test]
fn led_file_empty_or_blank_is_off() {
    assert!(!parse_led_brightness(b""));
    assert!(!parse_led_brightness(b" \n"));
}

#[test]
fn led_file_other_content_is_off() {
    assert!(!parse_led_brightness(b"11"));
    assert!(!parse_led_brightness(b"2"));
    assert!(!parse_led_brightness(b"banana"));
    assert!(!parse_led_brightness(b"1 1"));
}
