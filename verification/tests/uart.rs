use uart_echo::uart::UartController;

// ==================== UartController Construction Tests ====================

#[test]
fn test_new_controller() {
    let ctrl = UartController::new();
    assert_eq!(ctrl.echo_count(), 0);
}

#[test]
fn test_default_equals_new() {
    let default = UartController::default();
    let new = UartController::new();
    assert_eq!(default.echo_count(), new.echo_count());
}

// ==================== Character Processing Tests ====================

#[test]
fn test_process_char_returns_same() {
    let mut ctrl = UartController::new();
    assert_eq!(ctrl.process_char(b'A'), b"A");
}

#[test]
fn test_process_char_increments_count() {
    let mut ctrl = UartController::new();
    ctrl.process_char(b'A');
    ctrl.process_char(b'B');
    ctrl.process_char(b'C');
    assert_eq!(ctrl.echo_count(), 3);
}

#[test]
fn test_process_char_special() {
    let mut ctrl = UartController::new();
    assert_eq!(ctrl.process_char(b'\n'), b"\n");
    assert_eq!(ctrl.process_char(b'\r'), b"\r");
}

#[test]
fn test_process_backspace() {
    let mut ctrl = UartController::new();
    assert_eq!(ctrl.process_char(0x08), &[0x08, b' ', 0x08]);
}

#[test]
fn test_process_delete() {
    let mut ctrl = UartController::new();
    assert_eq!(ctrl.process_char(0x7F), &[0x08, b' ', 0x08]);
}

#[test]
fn test_process_tab() {
    let mut ctrl = UartController::new();
    assert_eq!(ctrl.process_char(b'\t'), b"\t");
}

#[test]
fn test_process_uppercase_letters() {
    let mut ctrl = UartController::new();
    assert_eq!(ctrl.process_char(b'A'), b"A");
    assert_eq!(ctrl.process_char(b'Z'), b"Z");
    assert_eq!(ctrl.process_char(b'M'), b"M");
}

#[test]
fn test_process_lowercase_letters() {
    let mut ctrl = UartController::new();
    assert_eq!(ctrl.process_char(b'a'), b"a");
    assert_eq!(ctrl.process_char(b'z'), b"z");
    assert_eq!(ctrl.process_char(b'm'), b"m");
}

#[test]
fn test_process_digits() {
    let mut ctrl = UartController::new();
    assert_eq!(ctrl.process_char(b'0'), b"0");
    assert_eq!(ctrl.process_char(b'9'), b"9");
    assert_eq!(ctrl.process_char(b'5'), b"5");
}

#[test]
fn test_process_punctuation() {
    let mut ctrl = UartController::new();
    assert_eq!(ctrl.process_char(b'!'), b"!");
    assert_eq!(ctrl.process_char(b'?'), b"?");
    assert_eq!(ctrl.process_char(b'.'), b".");
    assert_eq!(ctrl.process_char(b','), b",");
}

#[test]
fn test_process_symbols() {
    let mut ctrl = UartController::new();
    assert_eq!(ctrl.process_char(b'@'), b"@");
    assert_eq!(ctrl.process_char(b'#'), b"#");
    assert_eq!(ctrl.process_char(b'$'), b"$");
    assert_eq!(ctrl.process_char(b'%'), b"%");
}

#[test]
fn test_process_brackets() {
    let mut ctrl = UartController::new();
    assert_eq!(ctrl.process_char(b'['), b"[");
    assert_eq!(ctrl.process_char(b']'), b"]");
    assert_eq!(ctrl.process_char(b'('), b"(");
    assert_eq!(ctrl.process_char(b')'), b")");
    assert_eq!(ctrl.process_char(b'{'), b"{");
    assert_eq!(ctrl.process_char(b'}'), b"}");
}

#[test]
fn test_process_unknown_char() {
    let mut ctrl = UartController::new();
    assert_eq!(ctrl.process_char(0x01), b"");
    assert_eq!(ctrl.process_char(0xFF), b"");
}

#[test]
fn test_process_space() {
    let mut ctrl = UartController::new();
    assert_eq!(ctrl.process_char(b' '), b" ");
}

#[test]
fn test_backspace_increments_count() {
    let mut ctrl = UartController::new();
    ctrl.process_char(0x08);
    assert_eq!(ctrl.echo_count(), 1);
}

#[test]
fn test_multiple_backspaces() {
    let mut ctrl = UartController::new();
    ctrl.process_char(0x08);
    ctrl.process_char(0x7F);
    ctrl.process_char(0x08);
    assert_eq!(ctrl.echo_count(), 3);
}

#[test]
fn test_mixed_chars_and_backspace() {
    let mut ctrl = UartController::new();
    ctrl.process_char(b'A');
    ctrl.process_char(b'B');
    ctrl.process_char(0x08);
    ctrl.process_char(b'C');
    assert_eq!(ctrl.echo_count(), 4);
}

// ==================== Trait Tests ====================

#[test]
fn test_clone() {
    let ctrl = UartController::new();
    let cloned = ctrl.clone();
    assert_eq!(ctrl.echo_count(), cloned.echo_count());
}

#[test]
fn test_copy() {
    let ctrl = UartController::new();
    let copied = ctrl;
    assert_eq!(ctrl.echo_count(), copied.echo_count());
}

#[test]
fn test_partial_eq() {
    let ctrl1 = UartController::new();
    let ctrl2 = UartController::new();
    assert_eq!(ctrl1, ctrl2);
}

#[test]
fn test_not_equal_after_process() {
    let mut ctrl1 = UartController::new();
    let ctrl2 = UartController::new();
    ctrl1.process_char(b'A');
    assert_ne!(ctrl1, ctrl2);
}

#[test]
fn test_debug_format() {
    let ctrl = UartController::new();
    let debug_str = format!("{:?}", ctrl);
    assert!(debug_str.contains("UartController"));
}
