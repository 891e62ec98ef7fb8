use chjkl::event::{InputEvent, EV_KEY, EV_SYN, KEY_CAPSLOCK, KEY_H, KEY_LEFT, KEY_LEFTCTRL};
use chjkl::session::{output_device_name, Session, SessionError, WARMUP_MILLIS};

const RECORD: usize = 24;

#[test]
fn new_session_is_idle() {
    let s = Session::new();
    assert!(!s.running());
    assert!(!s.grabbed());
    assert!(!s.ctrl_pressed());
    assert!(s.wants_grab());
    assert_eq!(WARMUP_MILLIS, 1000);
}

#[test]
fn failed_grab_still_runs() {
    let mut s = Session::new();
    s.record_grab(false);
    assert!(s.running());
    assert!(!s.grabbed());
    assert!(s.wants_grab());
}

#[test]
fn grab_is_idempotent() {
    let mut s = Session::new();
    s.record_grab(true);
    assert!(s.grabbed());
    assert!(!s.wants_grab());
    s.record_grab(false);
    assert!(s.grabbed());
    assert!(s.running());
}

#[test]
fn release_drops_exclusivity() {
    let mut s = Session::new();
    s.record_grab(true);
    s.record_release();
    assert!(!s.grabbed());
    assert!(s.running());
    assert!(s.wants_grab());
}

#[test]
fn whole_record_is_translated() {
    let mut s = Session::new();
    s.record_grab(true);
    let out = s.on_read(RECORD as isize, RECORD, InputEvent::key(KEY_CAPSLOCK, 1));
    assert_eq!(out, Ok(vec![InputEvent::new(EV_KEY, KEY_LEFTCTRL, 1)]));
    assert!(s.ctrl_pressed());
    let out = s.on_read(RECORD as isize, RECORD, InputEvent::key(KEY_H, 1));
    assert_eq!(
        out,
        Ok(vec![
            InputEvent::key(KEY_LEFTCTRL, 0),
            InputEvent::key(KEY_LEFT, 1),
            InputEvent::key(KEY_LEFT, 0),
            InputEvent::key(KEY_LEFTCTRL, 1),
        ])
    );
}

#[test]
fn partial_read_is_an_error() {
    let mut s = Session::new();
    let out = s.on_read(8, RECORD, InputEvent::key(KEY_CAPSLOCK, 1));
    assert_eq!(out, Err(SessionError::PartialRead));
    assert!(!s.ctrl_pressed());
    assert_eq!(s.on_read(-1, RECORD, InputEvent::new(EV_SYN, 0, 0)), Err(SessionError::PartialRead));
    assert_eq!(s.on_read(0, RECORD, InputEvent::new(EV_SYN, 0, 0)), Err(SessionError::PartialRead));
    assert_eq!(
        s.on_read(RECORD as isize + 1, RECORD, InputEvent::new(EV_SYN, 0, 0)),
        Err(SessionError::PartialRead)
    );
}

#[test]
fn output_name_follows_path() {
    assert_eq!(output_device_name("/dev/input/event3"), "C-HJKL Output for /dev/input/event3");
    assert_eq!(output_device_name(""), "C-HJKL Output for ");
}
