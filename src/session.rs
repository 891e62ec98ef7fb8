use vstd::prelude::*;
use vstd::string::StringExecFns;

use crate::event::InputEvent;
use crate::remap::{emitted, held_after, Remapper};

verus! {

/// The fatal conditions of a device session.
#[derive(Clone, Copy, Debug, PartialEq, Eq, Structural)]
pub enum SessionError {
    /// The physical device path does not exist or cannot be opened.
    DeviceOpen,
    /// The virtual output device could not be provisioned, named or given
    /// its key events.
    OutputDevice,
    /// A read from the physical device returned other than one whole record.
    PartialRead,
    /// Writing an event to the virtual output device failed.
    OutputWrite,
}

/// How long a session waits before it grabs the device, so that the key
/// press that started it is not swallowed by the grab.
pub const WARMUP_MILLIS: u64 = 1000;

/// The text that the virtual output device's name starts with; the physical
/// device path follows it.
pub const OUTPUT_NAME_PREFIX: &'static str = "C-HJKL Output for ";

/// The name of the virtual output device that mirrors `device_path`.
pub fn output_device_name(device_path: &str) -> (r: String)
    ensures
        r@ == OUTPUT_NAME_PREFIX@ + device_path@,
{
    String::from_str(OUTPUT_NAME_PREFIX).concat(device_path)
}

/// The state of one device session: whether it has left its warm-up and
/// runs, whether it holds the device exclusively, and the translation state.
pub struct Session {
    running: bool,
    grabbed: bool,
    remapper: Remapper,
}

impl Session {
    pub closed spec fn is_running(&self) -> bool {
        self.running
    }

    pub closed spec fn is_grabbed(&self) -> bool {
        self.grabbed
    }

    pub closed spec fn ctrl_held(&self) -> bool {
        self.remapper@
    }

    /// A session in warm-up: not grabbed, Ctrl released.
    pub fn new() -> (r: Session)
        ensures
            !r.is_running(),
            !r.is_grabbed(),
            !r.ctrl_held(),
    {
        Session { running: false, grabbed: false, remapper: Remapper::new() }
    }

    pub fn running(&self) -> (r: bool)
        ensures
            r == self.is_running(),
    {
        self.running
    }

    pub fn grabbed(&self) -> (r: bool)
        ensures
            r == self.is_grabbed(),
    {
        self.grabbed
    }

    pub fn ctrl_pressed(&self) -> (r: bool)
        ensures
            r == self.ctrl_held(),
    {
        self.remapper.is_ctrl_held()
    }

    /// Whether an exclusivity request should be made: only while the device
    /// is not grabbed.
    pub fn wants_grab(&self) -> (r: bool)
        ensures
            r == !self.is_grabbed(),
    {
        !self.grabbed
    }

    /// Records the outcome of an exclusivity request and ends the warm-up.
    /// A failed request is not fatal: the session runs without exclusivity.
    /// Once grabbed, the session stays grabbed.
    pub fn record_grab(&mut self, succeeded: bool)
        ensures
            final(self).is_running(),
            final(self).is_grabbed() == (old(self).is_grabbed() || succeeded),
            final(self).ctrl_held() == old(self).ctrl_held(),
    {
        self.running = true;
        if succeeded {
            self.grabbed = true;
        }
    }

    /// Records that exclusivity was given up.
    pub fn record_release(&mut self)
        ensures
            !final(self).is_grabbed(),
            final(self).is_running() == old(self).is_running(),
            final(self).ctrl_held() == old(self).ctrl_held(),
    {
        self.grabbed = false;
    }

    /// Handles one read from the physical device, which returned `bytes_read`
    /// (negative on failure) for a record of `record_len` bytes holding
    /// `input`. A whole record is translated into the events to emit, in
    /// order; anything else is a partial read and changes nothing.
    pub fn on_read(&mut self, bytes_read: isize, record_len: usize, input: InputEvent) -> (r:
        Result<Vec<InputEvent>, SessionError>)
        ensures
            match r {
                Ok(out) => {
                    &&& bytes_read == record_len
                    &&& out@ == emitted(old(self).ctrl_held(), input)
                    &&& final(self).ctrl_held() == held_after(old(self).ctrl_held(), input)
                },
                Err(e) => {
                    &&& bytes_read != record_len
                    &&& e == SessionError::PartialRead
                    &&& final(self).ctrl_held() == old(self).ctrl_held()
                },
            },
            final(self).is_running() == old(self).is_running(),
            final(self).is_grabbed() == old(self).is_grabbed(),
    {
        if bytes_read < 0 || bytes_read as usize != record_len {
            return Err(SessionError::PartialRead);
        }
        Ok(self.remapper.process(input))
    }
}

} // verus!
