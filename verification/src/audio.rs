//! The supervision of the audio output: the output stream is reopened after a
//! fault (after 2 s) or a failed attempt (after 5 s), and the audio status
//! tells the web client what happened.

use vstd::prelude::*;

use crate::app_state::Status;

verus! {

/// The wait before the output is reopened after the stream failed, in nanoseconds.
pub const FAULT_RETRY_NS: u64 = 2_000_000_000;

/// The wait before another attempt after opening the output failed, in nanoseconds.
pub const OPEN_RETRY_NS: u64 = 5_000_000_000;

/// A status as its kind (0 unknown, 1 fine, 2 error) and its message.
pub open spec fn status_view(status: Status) -> (u8, Seq<char>) {
    match status {
        Status::Unknown => (0, Seq::empty()),
        Status::Okay(message) => (1, message@),
        Status::Error(message) => (2, message@),
    }
}

/// Whether the output stream is open, when to try opening it next, and the
/// audio status.
pub struct AudioSupervisor {
    pub open: bool,
    pub retry_at: u64,
    pub status: Status,
}

impl AudioSupervisor {
    /// Not open yet; the first attempt is due at `now`.
    pub fn new(now: u64) -> (supervisor: Self)
        ensures
            !supervisor.open,
            supervisor.retry_at == now,
            supervisor.status == Status::Unknown,
    {
        AudioSupervisor { open: false, retry_at: now, status: Status::Unknown }
    }

    /// The stream failed at `now`: it is dropped and reopened after 2 s.
    pub fn on_fault(&mut self, now: u64)
        requires
            now + FAULT_RETRY_NS <= u64::MAX,
        ensures
            !final(self).open,
            final(self).retry_at == now + FAULT_RETRY_NS,
            final(self).status matches Status::Error(m) && m@
                == "Audio interrupted; retrying output device."@,
    {
        self.open = false;
        self.retry_at = now + FAULT_RETRY_NS;
        self.status = Status::Error("Audio interrupted; retrying output device.".to_owned());
    }

    /// Whether to try opening the output at `now`: it is closed and the retry
    /// time has come.
    pub fn should_open(&self, now: u64) -> (attempt: bool)
        ensures
            attempt == (!self.open && now >= self.retry_at),
    {
        !self.open && now >= self.retry_at
    }

    /// The output was opened.
    pub fn opened(&mut self)
        ensures
            final(self).open,
            final(self).retry_at == old(self).retry_at,
            final(self).status matches Status::Okay(m) && m@ == "Audio ready"@,
    {
        self.open = true;
        self.status = Status::Okay("Audio ready".to_owned());
    }

    /// Opening the output failed at `now` with the given error: the status says
    /// so and another attempt is due 5 s later. Returns whether the status
    /// changed (only a change is worth a warning).
    pub fn open_failed(&mut self, now: u64, error: &str) -> (changed: bool)
        requires
            now + OPEN_RETRY_NS <= u64::MAX,
        ensures
            final(self).open == old(self).open,
            final(self).retry_at == now + OPEN_RETRY_NS,
            final(self).status matches Status::Error(m) && m@ == "Audio unavailable: "@ + error@,
            changed == (status_view(old(self).status) != status_view(final(self).status)),
    {
        let mut message = "Audio unavailable: ".to_owned();
        message.append(error);
        let changed = match &self.status {
            Status::Error(previous) => {
                let same = *previous == message;
                !same
            },
            _ => true,
        };
        self.status = Status::Error(message);
        self.retry_at = now + OPEN_RETRY_NS;
        changed
    }
}

} // verus!
