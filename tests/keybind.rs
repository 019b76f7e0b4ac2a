use mhw_toolkit::key_bind::{DoubleClickTracker, HoldTracker, KeyBind, KeyEventType};
use mhw_toolkit::keybind::{KeyEvent, KeyState, KeybindManager};
use mhw_toolkit::keys::{GameKeyCode, VKeyCode};
use mhw_toolkit::keys_ll::KeyBindEngine;
use mhw_toolkit::timelock::{TimeLock, TimeLockManager};

fn key(v: VKeyCode) -> GameKeyCode {
    GameKeyCode::KeyboardMouse(v)
}

#[test]
fn key_transitions_fire_listeners_and_hotkeys() {
    let mut m: KeybindManager<&str, &str> = KeybindManager::new();
    m.add_key_listener(&key(VKeyCode::Ctrl), "ctrl");
    m.add_hotkey_listener(&[key(VKeyCode::Ctrl), key(VKeyCode::A)], "ctrl+a");
    let d = m.update(&[true, false]);
    assert_eq!(d.len(), 1);
    assert_eq!(d[0].event, KeyEvent { key: key(VKeyCode::Ctrl), state: KeyState::KeyDown });
    assert_eq!(d[0].listeners, vec![0]);
    assert!(d[0].hotkeys.is_empty());
    let d = m.update(&[true, true]);
    assert_eq!(d.len(), 1);
    assert_eq!(d[0].hotkeys, vec![0]);
    assert_eq!(m.hotkey(0).0, &vec![key(VKeyCode::Ctrl), key(VKeyCode::A)]);
    assert!(m.update(&[true, true]).is_empty());
    let d = m.update(&[false, false]);
    assert_eq!(d.len(), 2);
    assert_eq!(d[0].event.state, KeyState::KeyUp);
    assert!(d[0].hotkeys == vec![0]);
    assert!(d[1].hotkeys.is_empty());
}

#[test]
fn engine_routes_single_and_combined_keys() {
    let mut e: KeyBindEngine<u8> = KeyBindEngine::new();
    e.add_key_listener(&[key(VKeyCode::Tab)], 1);
    e.add_key_listener(&[key(VKeyCode::Shift), key(VKeyCode::Tab)], 2);
    e.add_key_listener(&[], 3);
    let d = e.update(&[true, false]);
    assert_eq!(d.len(), 1);
    assert_eq!(*e.manager.key_callback(d[0].listeners[0]), 1);
    let d = e.update(&[true, true]);
    assert_eq!(*e.manager.hotkey(d[0].hotkeys[0]).1, 2);
}

#[test]
fn double_clicks_within_the_interval() {
    let mut t = DoubleClickTracker::new(300, 0);
    assert!(!t.on_key_down(1000));
    assert!(t.on_key_down(1200));
    assert!(t.on_key_down(1250));
    assert!(!t.on_key_down(1400));
}

#[test]
fn holds_fire_once_per_press() {
    let mut t = HoldTracker::new(500);
    assert!(!t.poll(10_000));
    t.on_key_down(1000);
    assert!(!t.poll(1500));
    assert!(t.poll(1501));
    assert!(!t.poll(3000));
    t.on_key_down(4000);
    t.on_key_up(4100);
    assert!(!t.poll(9000));
}

#[test]
fn key_bind_reacts_by_kind() {
    let mut b: KeyBind<&str> = KeyBind::new();
    let f = vec![key(VKeyCode::F)];
    b.add_key_listener(&f, "plain");
    b.add_double_click_listener(&f, 300, 0, "double");
    b.add_hold_listener(&f, 500, "hold");
    let fired = b.update(&[(f.clone(), true)], 1000);
    assert_eq!(fired, vec![(0, KeyEventType::KeyDown)]);
    let fired = b.update(&[(f.clone(), false), (f.clone(), true)], 1100);
    assert_eq!(fired, vec![(0, KeyEventType::KeyUp), (0, KeyEventType::KeyDown), (1, KeyEventType::DoubleClick)]);
    let fired = b.update(&[], 1700);
    assert_eq!(fired, vec![(2, KeyEventType::Hold)]);
    assert_eq!(*b.callback(2), "hold");
}

#[test]
fn time_locks_open_after_their_duration() {
    let lock = TimeLock::new(100, 1000);
    assert!(!lock.check(1100));
    assert!(lock.check(1101));
    assert!(!lock.check(10));
    let mut m = TimeLockManager::new();
    assert!(!m.check("a", 5000));
    m.set("a", 100, 1000);
    m.set("b", 0, 1000);
    assert!(!m.check("a", 1050));
    assert!(m.check("a", 1200));
    m.set("a", 1000, 1200);
    assert!(!m.check("a", 1300));
    assert!(m.check("b", 1001));
    m.remove("b");
    assert!(!m.check("b", 9999));
}

#[test]
fn logger_lines_carry_the_prefix() {
    let logger = mhw_toolkit::logger::MHWLogger::new("mod");
    assert_eq!(logger.line("started"), "[mod] started");
    assert_eq!(mhw_toolkit::logger::LogLevel::Warn.as_i32(), 2);
    assert_eq!(mhw_toolkit::lua_engine::LogLevel::Error.as_usize(), 3);
}
