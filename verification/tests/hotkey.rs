use stacco::error::Error;
use stacco::hotkey::{hotkey_rejection, parse_hotkey};

#[test]
fn parses_a_bare_function_key() {
    assert!(parse_hotkey("F6").is_ok());
}

#[test]
fn parses_a_modified_combination() {
    assert!(parse_hotkey("CmdOrCtrl+Shift+K").is_ok());
}

#[test]
fn rejects_an_empty_accelerator() {
    assert!(parse_hotkey("").is_err());
}

#[test]
fn rejection_names_the_accelerator() {
    match parse_hotkey("Shift+NotAKey") {
        Err(Error::Hotkey(m)) => {
            assert!(m.starts_with("invalid hotkey 'Shift+NotAKey': "), "{m}");
            assert!(m.len() > "invalid hotkey 'Shift+NotAKey': ".len());
        }
        other => panic!("expected a hotkey error, got {other:?}"),
    }
    assert!(parse_hotkey("Ctrl+C+Shift").is_err());
    assert!(parse_hotkey("Ctrl++K").is_err());
}

#[test]
fn rejection_message_layout() {
    match hotkey_rejection("F99", "unknown key") {
        Error::Hotkey(m) => assert_eq!(m, "invalid hotkey 'F99': unknown key"),
        other => panic!("unexpected {other:?}"),
    }
}
