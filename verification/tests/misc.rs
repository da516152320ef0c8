use stacco::config::{ClickConfig, CloseBehavior, MouseButton};
use stacco::error::Error;
use stacco::input::{button_flags, InputBackend, NullBackend, Point};
use stacco::persistence::check_loaded;
use stacco::rng::Rng;
use stacco::tray::{TrayLabels, QUIT_ITEM_ID, SHOW_ITEM_ID, TOGGLE_ITEM_ID, TRAY_ID};
use stacco::window::{close_action, resolve_close, CloseAction, CloseResolution};

fn xorshift(mut x: u64) -> u64 {
    x ^= x << 13;
    x ^= x >> 7;
    x ^= x << 17;
    x
}

#[test]
fn rng_seeding_sets_the_low_bit() {
    let mut a = Rng::seeded(Some(0));
    let mut b = Rng::seeded(Some(1));
    assert_eq!(a.next_u64(), b.next_u64());
    let mut c = Rng::seeded(Some((1u128 << 64) + 1));
    let mut d = Rng::seeded(Some(1));
    assert_eq!(c.next_u64(), d.next_u64());
    let mut none = Rng::seeded(None);
    let s = 0x9E37_79B9_7F4A_7C15u64 | 1;
    assert_eq!(none.next_u64(), xorshift(s).wrapping_mul(0x2545_F491_4F6C_DD1D));
}

#[test]
fn rng_is_xorshift64_star() {
    let mut r = Rng::seeded(Some(12345));
    let mut x = 12345u64 | 1;
    for _ in 0..100 {
        x = xorshift(x);
        let out = r.next_u64();
        assert_eq!(out, x.wrapping_mul(0x2545_F491_4F6C_DD1D));
        assert_ne!(x, 0);
    }
    let mut first = Rng::seeded(Some(1));
    assert_eq!(first.next_u64(), 1082269761u64.wrapping_mul(0x2545_F491_4F6C_DD1D));
}

#[test]
fn clock_seeded_rng_produces_output() {
    let mut r = Rng::new();
    let a = r.next_u64();
    let b = r.next_u64();
    assert_ne!(a, b);
}

#[test]
fn button_flags_are_the_win32_pairs() {
    assert_eq!(button_flags(MouseButton::Left), (0x0002, 0x0004));
    assert_eq!(button_flags(MouseButton::Right), (0x0008, 0x0010));
    assert_eq!(button_flags(MouseButton::Middle), (0x0020, 0x0040));
}

#[test]
fn null_backend_does_nothing_successfully() {
    let b = NullBackend;
    assert!(b.click(MouseButton::Left).is_ok());
    assert!(b.move_cursor(Point { x: 5, y: 6 }).is_ok());
    assert_eq!(b.cursor_position().unwrap(), Point { x: 0, y: 0 });
}

#[test]
fn close_follows_the_saved_behavior() {
    assert_eq!(close_action(CloseBehavior::Quit), CloseAction::Exit);
    assert_eq!(close_action(CloseBehavior::Tray), CloseAction::HideToTray);
    assert_eq!(close_action(CloseBehavior::Ask), CloseAction::AskUser);
    assert_eq!(close_action(CloseBehavior::default()), CloseAction::AskUser);
}

#[test]
fn close_dialog_resolution() {
    assert_eq!(
        resolve_close(true, true),
        CloseResolution { remember_as: Some(CloseBehavior::Quit), action: CloseAction::Exit }
    );
    assert_eq!(
        resolve_close(false, true),
        CloseResolution { remember_as: Some(CloseBehavior::Tray), action: CloseAction::HideToTray }
    );
    assert_eq!(
        resolve_close(true, false),
        CloseResolution { remember_as: None, action: CloseAction::Exit }
    );
    assert_eq!(
        resolve_close(false, false),
        CloseResolution { remember_as: None, action: CloseAction::HideToTray }
    );
    for quit in [true, false] {
        let r = resolve_close(quit, true);
        assert_eq!(close_action(r.remember_as.unwrap()), r.action);
    }
}

#[test]
fn loaded_config_must_validate() {
    let good = ClickConfig { interval_ms: 42, ..Default::default() };
    assert_eq!(check_loaded(Ok(good.clone())).unwrap(), good);
    let bad = ClickConfig { interval_ms: 0, ..Default::default() };
    assert!(matches!(check_loaded(Ok(bad)), Err(Error::InvalidConfig(_))));
    assert!(matches!(
        check_loaded(Err(Error::Path("no dir".to_owned()))),
        Err(Error::Path(ref p)) if p == "no dir"
    ));
}

#[test]
fn tray_labels_default_to_english() {
    let l = TrayLabels::default();
    assert_eq!(l.show, "Show Window");
    assert_eq!(l.toggle, "Start / Stop");
    assert_eq!(l.quit, "Quit");
    assert_eq!(l.tooltip, "Stacco");
    assert_eq!(TRAY_ID, "main-tray");
    assert_eq!([SHOW_ITEM_ID, TOGGLE_ITEM_ID, QUIT_ITEM_ID], ["show", "toggle", "quit"]);
}

#[test]
fn error_messages_for_the_user_interface() {
    assert_eq!(
        Error::InvalidConfig("hotkey must not be empty".to_owned()).message(),
        "invalid configuration: hotkey must not be empty"
    );
    assert_eq!(Error::Input("x".to_owned()).message(), "input synthesis failed: x");
    assert_eq!(Error::WorkerUnavailable.message(), "the clicker worker is unavailable");
    assert_eq!(Error::Hotkey("bad".to_owned()).message(), "hotkey error: bad");
    assert_eq!(Error::Path("p".to_owned()).message(), "path error: p");
    assert_eq!(Error::Tray("t".to_owned()).message(), "tray error: t");
    let io = std::io::Error::new(std::io::ErrorKind::NotFound, "gone");
    assert_eq!(Error::Io(io).message(), "i/o error: gone");
    let json = serde_json::from_str::<u32>("nope").unwrap_err();
    let text = json.to_string();
    assert_eq!(Error::Serde(json).message(), format!("serialization error: {text}"));
}
