//! The playback controller: a small state machine that turns bus events and
//! poll timeouts into session-state transitions and requests for engine work.
//!
//! The controller never talks to the engine itself. Each handler takes the
//! result of an engine call as a plain value (a position, a duration, a
//! seek-capability flag) and returns what the caller should do next. All
//! positions and durations are in nanoseconds.

use vstd::prelude::*;

verus! {

/// Once playback has run past this position, the one-time seek is triggered.
pub const SEEK_TRIGGER_NS: u64 = 10_000_000_000;

/// Target position of the one-time seek.
pub const SEEK_TARGET_NS: u64 = 30_000_000_000;

/// Execution status the engine reports for a pipeline or one of its stages.
#[derive(Clone, Copy, PartialEq, Eq, Structural, Debug)]
pub enum Status {
    Stopped,
    Ready,
    Paused,
    Playing,
}

/// One event taken from the pipeline's message channel, reduced to what the
/// controller decides on. Payloads that are only reported to the user (error
/// text, debug detail, the source's name) stay with the caller.
#[derive(Clone, Copy, PartialEq, Eq, Structural, Debug)]
pub enum Event {
    /// A fatal runtime error reported by the engine.
    Error,
    /// The end of the stream was reached.
    EndOfStream,
    /// The engine announced that the media's duration may have changed.
    DurationChanged,
    /// A stage changed status. `from_pipeline` says whether the source of
    /// the event is the pipeline itself rather than one of its stages.
    StatusChanged { from_pipeline: bool, old_status: Status, new_status: Status },
    /// Any other event category; the controller ignores it.
    Ignored,
}

/// What the caller must do after handing an event to the controller.
#[derive(Clone, Copy, PartialEq, Eq, Structural, Debug)]
pub enum EventAction {
    /// Nothing to do.
    Nothing,
    /// Query the engine for seek capability and hand the result to
    /// `Session::apply_seek_capability`.
    QuerySeekable,
    /// Query the engine for the media's duration and hand the result to
    /// `Session::apply_duration`.
    QueryDuration,
}

/// What the caller must do after a poll timeout.
#[derive(Clone, Copy, PartialEq, Eq, Structural, Debug)]
pub enum TimeoutAction {
    /// Nothing to report this cycle.
    Idle,
    /// Report the current position and the (possibly still unknown) duration.
    Report { position: u64, duration: Option<u64> },
    /// Report as above, and issue a seek to `target`.
    ReportAndSeek { position: u64, duration: Option<u64>, target: u64 },
}

/// The session state owned by the control loop.
#[derive(Clone, Copy, Debug)]
pub struct Session {
    /// True only while the engine reports the pipeline as playing.
    pub is_playing: bool,
    /// Set on a fatal error or end of stream; the loop's exit condition.
    pub terminate: bool,
    /// Result of the one-time seek-capability query made on entering playback.
    pub seek_enabled: bool,
    /// Guards the one-time seek so it fires at most once per session.
    pub seek_done: bool,
    /// Cached total length of the media, unknown until first learned.
    pub duration: Option<u64>,
}

/// The state a session starts in: nothing playing, nothing known.
pub open spec fn initial_session() -> Session {
    Session {
        is_playing: false,
        terminate: false,
        seek_enabled: false,
        seek_done: false,
        duration: None,
    }
}

/// Is the event a status change reported by something other than the
/// pipeline itself?
pub open spec fn is_foreign_status_event(e: Event) -> bool {
    e matches Event::StatusChanged { from_pipeline, .. } && !from_pipeline
}

/// The state after one bus event. A terminated session never changes again.
/// An error or the end of the stream terminates the session; a status change
/// reported by the pipeline itself sets `is_playing` from the new status;
/// everything else leaves the state as it is.
pub open spec fn next_after_event(s: Session, e: Event) -> Session {
    if s.terminate {
        s
    } else {
        match e {
            Event::Error => Session { terminate: true, ..s },
            Event::EndOfStream => Session { terminate: true, ..s },
            Event::DurationChanged => s,
            Event::StatusChanged { from_pipeline, new_status, .. } => {
                if from_pipeline {
                    Session { is_playing: new_status is Playing, ..s }
                } else {
                    s
                }
            },
            Event::Ignored => s,
        }
    }
}

/// What the caller is asked to do after one bus event: re-query the duration
/// when it may have changed, and query seek capability when the pipeline
/// itself has just entered playback.
pub open spec fn action_for_event(s: Session, e: Event) -> EventAction {
    if s.terminate {
        EventAction::Nothing
    } else {
        match e {
            Event::DurationChanged => EventAction::QueryDuration,
            Event::StatusChanged { from_pipeline, new_status, .. } => {
                if from_pipeline && new_status is Playing {
                    EventAction::QuerySeekable
                } else {
                    EventAction::Nothing
                }
            },
            _ => EventAction::Nothing,
        }
    }
}

/// The state after a poll timeout, given the queried position and, when the
/// duration was still unknown, a freshly queried duration. Does nothing
/// unless the session is live and playing. The duration is refined only
/// while unknown; a failed position query skips the rest of the cycle; the
/// one-time seek fires when it is enabled, not yet done, and the position
/// has passed the trigger.
pub open spec fn next_after_timeout(
    s: Session,
    position: Option<u64>,
    fresh_duration: Option<u64>,
) -> Session {
    if s.terminate || !s.is_playing {
        s
    } else {
        let refined = if s.duration is None {
            fresh_duration
        } else {
            s.duration
        };
        match position {
            Option::None => Session { duration: refined, ..s },
            Option::Some(p) => {
                if s.seek_enabled && !s.seek_done && p > SEEK_TRIGGER_NS {
                    Session { duration: refined, seek_done: true, ..s }
                } else {
                    Session { duration: refined, ..s }
                }
            },
        }
    }
}

/// What the caller is asked to do after a poll timeout: nothing when idle or
/// when the position query failed, otherwise a report, together with a seek
/// exactly when the one-time seek fires.
pub open spec fn action_for_timeout(
    s: Session,
    position: Option<u64>,
    fresh_duration: Option<u64>,
) -> TimeoutAction {
    if s.terminate || !s.is_playing {
        TimeoutAction::Idle
    } else {
        let refined = if s.duration is None {
            fresh_duration
        } else {
            s.duration
        };
        match position {
            Option::None => TimeoutAction::Idle,
            Option::Some(p) => {
                if s.seek_enabled && !s.seek_done && p > SEEK_TRIGGER_NS {
                    TimeoutAction::ReportAndSeek {
                        position: p,
                        duration: refined,
                        target: SEEK_TARGET_NS,
                    }
                } else {
                    TimeoutAction::Report { position: p, duration: refined }
                }
            },
        }
    }
}

/// The state after the seek-capability query completes. The result is only
/// taken up while the session is live and playing; a failed query leaves
/// the previous capability in place.
pub open spec fn next_after_seekable(s: Session, seekable: Option<bool>) -> Session {
    if s.terminate || !s.is_playing {
        s
    } else {
        match seekable {
            Option::None => s,
            Option::Some(b) => Session { seek_enabled: b, ..s },
        }
    }
}

/// The state after an external stop request: the session terminates, so
/// the loop exits on its next check without waiting for an engine event.
pub open spec fn next_after_cancel(s: Session) -> Session {
    Session { terminate: true, ..s }
}

/// The state after a duration query completes. A known duration may be
/// refined to a new value, but a failed query never resets it to unknown.
pub open spec fn next_after_duration(s: Session, d: Option<u64>) -> Session {
    if s.terminate {
        s
    } else {
        match d {
            Option::None => s,
            Option::Some(v) => Session { duration: Some(v), ..s },
        }
    }
}

impl Session {
    /// A fresh session: not playing, not terminated, no capability known,
    /// seek not yet done, duration unknown.
    pub fn new() -> (s: Session)
        ensures
            s == initial_session(),
    {
        Session {
            is_playing: false,
            terminate: false,
            seek_enabled: false,
            seek_done: false,
            duration: None,
        }
    }

    /// The loop's continuation condition: run until the session terminates.
    pub fn should_continue(&self) -> (b: bool)
        ensures
            b == !self.terminate,
    {
        !self.terminate
    }

    /// Take one event from the message channel and update the session,
    /// returning what the caller must do next.
    pub fn handle_event(&mut self, e: Event) -> (action: EventAction)
        ensures
            *final(self) == next_after_event(*old(self), e),
            action == action_for_event(*old(self), e),
    {
        if self.terminate {
            return EventAction::Nothing;
        }
        match e {
            Event::Error => {
                self.terminate = true;
                EventAction::Nothing
            },
            Event::EndOfStream => {
                self.terminate = true;
                EventAction::Nothing
            },
            Event::DurationChanged => EventAction::QueryDuration,
            Event::StatusChanged { from_pipeline, new_status, .. } => {
                if from_pipeline {
                    self.is_playing = new_status == Status::Playing;
                    if self.is_playing {
                        EventAction::QuerySeekable
                    } else {
                        EventAction::Nothing
                    }
                } else {
                    EventAction::Nothing
                }
            },
            Event::Ignored => EventAction::Nothing,
        }
    }

    /// Should the caller query the position on this poll cycle? Queries are
    /// only meaningful while the session is live and playing.
    pub fn needs_position_query(&self) -> (b: bool)
        ensures
            b == (!self.terminate && self.is_playing),
    {
        !self.terminate && self.is_playing
    }

    /// Should the caller also query the duration on this poll cycle? Only
    /// while it is still unknown; once known it is kept.
    pub fn needs_duration_query(&self) -> (b: bool)
        ensures
            b == (!self.terminate && self.is_playing && self.duration is None),
    {
        !self.terminate && self.is_playing && self.duration.is_none()
    }

    /// Handle a poll timeout. `position` is the engine's answer to the
    /// position query (`None` when the caller skipped it or it failed), and
    /// `fresh_duration` the answer to the duration query made while the
    /// duration was unknown. Returns what to report and whether to seek.
    pub fn handle_timeout(
        &mut self,
        position: Option<u64>,
        fresh_duration: Option<u64>,
    ) -> (action: TimeoutAction)
        ensures
            *final(self) == next_after_timeout(*old(self), position, fresh_duration),
            action == action_for_timeout(*old(self), position, fresh_duration),
    {
        if self.terminate || !self.is_playing {
            return TimeoutAction::Idle;
        }
        if self.duration.is_none() {
            self.duration = fresh_duration;
        }
        match position {
            Option::None => TimeoutAction::Idle,
            Option::Some(p) => {
                if self.seek_enabled && !self.seek_done && p > SEEK_TRIGGER_NS {
                    self.seek_done = true;
                    TimeoutAction::ReportAndSeek {
                        position: p,
                        duration: self.duration,
                        target: SEEK_TARGET_NS,
                    }
                } else {
                    TimeoutAction::Report { position: p, duration: self.duration }
                }
            },
        }
    }

    /// Take up the result of the seek-capability query, `None` when the
    /// query failed. The capability is recorded only while playing.
    pub fn apply_seek_capability(&mut self, seekable: Option<bool>)
        ensures
            *final(self) == next_after_seekable(*old(self), seekable),
    {
        if self.terminate || !self.is_playing {
            return;
        }
        match seekable {
            Option::None => {},
            Option::Some(b) => {
                self.seek_enabled = b;
            },
        }
    }

    /// Request the session's end from outside the loop, without waiting
    /// for an engine event or the next timeout's poll. The rest of the
    /// state is left as it is; the loop exits on its next check.
    pub fn cancel(&mut self)
        ensures
            *final(self) == next_after_cancel(*old(self)),
    {
        self.terminate = true;
    }

    /// Take up the result of a duration query, `None` when the query
    /// failed. A failure never resets a duration already known.
    pub fn apply_duration(&mut self, d: Option<u64>)
        ensures
            *final(self) == next_after_duration(*old(self), d),
    {
        if self.terminate {
            return;
        }
        match d {
            Option::None => {},
            Option::Some(v) => {
                self.duration = Some(v);
            },
        }
    }
}

} // verus!
