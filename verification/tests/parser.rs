use hotkey_capture::accel::{parse_accelerator, AccelParseError, Accelerator, KeyCode};

#[test]
fn parses_alt_space() {
    let r = parse_accelerator("Alt+Space");
    assert_eq!(
        r,
        Ok(Accelerator { alt: true, ctrl: false, shift: false, meta: false, key: KeyCode::Space })
    );
}

#[test]
fn parses_ctrl_shift_letter() {
    let r = parse_accelerator("ctrl+shift+k");
    assert_eq!(
        r,
        Ok(Accelerator {
            alt: false,
            ctrl: true,
            shift: true,
            meta: false,
            key: KeyCode::Character(b'K')
        })
    );
}

#[test]
fn parses_control_digit() {
    let r = parse_accelerator("Control+1");
    assert_eq!(
        r,
        Ok(Accelerator {
            alt: false,
            ctrl: true,
            shift: false,
            meta: false,
            key: KeyCode::Character(b'1')
        })
    );
}

#[test]
fn parses_option_escape() {
    let r = parse_accelerator("option+Escape");
    assert_eq!(
        r,
        Ok(Accelerator { alt: true, ctrl: false, shift: false, meta: false, key: KeyCode::Escape })
    );
}

#[test]
fn parses_cmd_function_key() {
    let r = parse_accelerator("Cmd+F12");
    assert_eq!(
        r,
        Ok(Accelerator {
            alt: false,
            ctrl: false,
            shift: false,
            meta: true,
            key: KeyCode::Function(12)
        })
    );
}

#[test]
fn parses_bare_function_key() {
    assert_eq!(
        parse_accelerator("f1"),
        Ok(Accelerator {
            alt: false,
            ctrl: false,
            shift: false,
            meta: false,
            key: KeyCode::Function(1)
        })
    );
    assert_eq!(
        parse_accelerator("F10"),
        Ok(Accelerator {
            alt: false,
            ctrl: false,
            shift: false,
            meta: false,
            key: KeyCode::Function(10)
        })
    );
}

#[test]
fn parse_is_case_insensitive() {
    assert_eq!(parse_accelerator("ALT+SPACE"), parse_accelerator("alt+space"));
    assert_eq!(parse_accelerator("Super+Tab"), parse_accelerator("sUpEr+tab"));
}

#[test]
fn meta_synonyms_agree() {
    assert_eq!(parse_accelerator("super+Enter"), parse_accelerator("meta+Return"));
    assert_eq!(parse_accelerator("cmd+enter"), parse_accelerator("super+enter"));
}

#[test]
fn rejects_empty_input() {
    assert_eq!(parse_accelerator(""), Err(AccelParseError::EmptyInput));
}

#[test]
fn rejects_unknown_modifier() {
    assert_eq!(parse_accelerator("bogus+a"), Err(AccelParseError::UnknownModifier));
    assert_eq!(parse_accelerator("+a"), Err(AccelParseError::UnknownModifier));
}

#[test]
fn rejects_missing_key() {
    assert_eq!(parse_accelerator("ctrl+"), Err(AccelParseError::MissingKey));
}

#[test]
fn rejects_unknown_key() {
    assert_eq!(parse_accelerator("ctrl+bogus"), Err(AccelParseError::UnknownKey));
    assert_eq!(parse_accelerator("f0"), Err(AccelParseError::UnknownKey));
    assert_eq!(parse_accelerator("f13"), Err(AccelParseError::UnknownKey));
}

#[test]
fn rejects_duplicate_modifier() {
    assert_eq!(parse_accelerator("alt+alt+a"), Err(AccelParseError::DuplicateModifier));
    assert_eq!(parse_accelerator("ctrl+Control+a"), Err(AccelParseError::DuplicateModifier));
}

#[test]
fn uppercase_letter_key_is_canonical() {
    assert_eq!(parse_accelerator("A"), parse_accelerator("a"));
    let r = parse_accelerator("shift+z");
    assert_eq!(
        r,
        Ok(Accelerator {
            alt: false,
            ctrl: false,
            shift: true,
            meta: false,
            key: KeyCode::Character(b'Z')
        })
    );
}
