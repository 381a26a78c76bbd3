//! The recorder of one gamepad: idle, or in the middle of a session.

use crate::input::RawInputEvent;
use crate::records::SessionRecord;
use crate::session::{spec_after, spec_fresh, spec_record_of, RecordingSession, SessionView};
use vstd::prelude::*;

verus! {

/// What a recorder holds: the beginning of its files' names, and its session
/// while one is running.
pub struct WriterView {
    pub prefix: Seq<char>,
    pub session: Option<SessionView>,
}

/// The recorder of one gamepad.
pub struct WriterThread {
    file_name_prefix: String,
    session: Option<RecordingSession>,
}

impl WriterThread {
    /// A running session is sound.
    pub closed spec fn wf(&self) -> bool {
        match self.session {
            Some(s) => s.wf(),
            None => true,
        }
    }

    pub closed spec fn view(&self) -> WriterView {
        WriterView {
            prefix: self.file_name_prefix@,
            session: match self.session {
                Some(s) => Some(s@),
                None => None,
            },
        }
    }

    /// Whether a session is running.
    pub open spec fn spec_is_running(&self) -> bool {
        self@.session.is_some()
    }

    /// An idle recorder whose files' names begin with `file_name_prefix`.
    pub fn new(file_name_prefix: String) -> (w: WriterThread)
        ensures
            w.wf(),
            w@ == (WriterView { prefix: file_name_prefix@, session: None }),
    {
        WriterThread { file_name_prefix, session: None }
    }

    /// What the names of the recorder's files begin with.
    pub fn file_name_prefix(&self) -> (prefix: &str)
        ensures
            prefix@ == self@.prefix,
    {
        self.file_name_prefix.as_str()
    }

    /// Begins a session at the instant `now`. A session that was running is
    /// given up: the new one knows nothing of it.
    pub fn start(&mut self, now: u64)
        ensures
            final(self).wf(),
            final(self)@ == (WriterView {
                prefix: old(self)@.prefix,
                session: Some(spec_fresh(now)),
            }),
    {
        self.session = Some(RecordingSession::new(now));
    }

    /// Ends the session, if one is running.
    pub fn stop(&mut self)
        ensures
            final(self).wf(),
            final(self)@ == (WriterView { prefix: old(self)@.prefix, session: None }),
    {
        self.session = None;
    }

    /// Whether a session is running.
    #[verifier::when_used_as_spec(spec_is_running)]
    pub fn is_running(&self) -> (running: bool)
        ensures
            running == self.spec_is_running(),
    {
        self.session.is_some()
    }

    /// Hands one event of the gamepad to the running session and gives the
    /// record to write, if the event completes one. An idle recorder takes
    /// nothing in and gives nothing.
    pub fn handle_event(&mut self, event: RawInputEvent) -> (record: Option<SessionRecord>)
        requires
            old(self).wf(),
        ensures
            final(self).wf(),
            final(self)@ == spec_writer_after(old(self)@, event),
            record == spec_writer_record(old(self)@, event),
    {
        match &mut self.session {
            Some(session) => session.handle_event(event),
            None => None,
        }
    }
}

/// What a recorder holds after `event`.
pub open spec fn spec_writer_after(w: WriterView, event: RawInputEvent) -> WriterView {
    match w.session {
        Some(s) => WriterView { prefix: w.prefix, session: Some(spec_after(s, event)) },
        None => w,
    }
}

/// The record that `event` gives at a recorder, if it gives one.
pub open spec fn spec_writer_record(w: WriterView, event: RawInputEvent) -> Option<SessionRecord> {
    match w.session {
        Some(s) => spec_record_of(s, event),
        None => None,
    }
}

} // verus!
