//! The recording session as a state machine. Each call to `step` takes the
//! outcome of the action last asked for and says what to do next; the caller
//! performs the actions (signals, device calls, the wait, conversion and
//! recognition) and reports back.
use vstd::prelude::*;
use crate::error::SttError;
use crate::format::AudioFormat;
use crate::transcript::{published, Transcript};

verus! {

/// Where a session stands: each phase waits for the outcome of one action.
#[derive(Debug)]
pub enum Phase {
    /// Waiting for the default input device.
    Resolving,
    /// Waiting for the typing indicator to be switched on.
    SignallingOn,
    /// Waiting for the device's native format.
    Opening,
    /// Waiting for the stream in this format to be built and started.
    Starting(AudioFormat),
    /// The stream runs; waiting for the recording time to pass.
    Recording(AudioFormat),
    /// Waiting for the stream to be stopped and released.
    Closing(AudioFormat),
    /// Waiting for the captured samples to be converted.
    Converting(AudioFormat),
    /// Waiting for the recognition engine.
    Recognizing,
    /// Waiting for the typing indicator to be switched off; the outcome of
    /// the session is already settled.
    SignallingOff(Result<Transcript, SttError>),
    /// The session is over.
    Finished,
}

/// The outcome of an action, handed back to the session.
#[derive(Debug)]
pub enum Event {
    /// The default input device and its name, or why there is none.
    DeviceResolved(Result<String, SttError>),
    /// Whether the typing signal went out, with the diagnostic if not.
    TypingSent(Result<(), String>),
    /// The device's native format, if it could be queried.
    ConfigQueried(Option<AudioFormat>),
    /// Whether the stream was built and started.
    StreamStarted(Result<(), String>),
    /// The recording time has passed.
    Waited,
    /// The stream is stopped and released; no callback runs any more.
    StreamClosed,
    /// Whether the captured samples were converted.
    Converted(Result<(), String>),
    /// The segments recognized, or the engine's diagnostic.
    Recognized(Result<Vec<String>, String>),
}

/// What the caller is asked to do next.
#[derive(Debug)]
pub enum Action {
    /// Look up the default input device.
    ResolveDevice,
    /// Send the typing indicator, on or off.
    SendTyping(bool),
    /// Query the device's native format.
    QueryConfig,
    /// Build a stream in this format, bound to a fresh sample buffer, and
    /// start it.
    StartStream(AudioFormat),
    /// Let the stream run for this many seconds.
    Wait(u64),
    /// Stop and release the stream, then close the buffer.
    CloseStream,
    /// Drain the buffer, whose samples are in this format, and convert them
    /// to the recognition format.
    Convert(AudioFormat),
    /// Run the recognition engine on the converted audio.
    Recognize,
    /// The session is over, with this outcome.
    Finish(Result<Transcript, SttError>),
}

/// A session recording for `duration` seconds.
#[derive(Debug)]
pub struct Session {
    pub duration: u64,
    pub phase: Phase,
}

/// Whether a session in phase `p` takes event `e`: the outcome of the action
/// it is waiting for, and nothing else.
pub open spec fn expects(p: Phase, e: Event) -> bool {
    match (p, e) {
        (Phase::Resolving, Event::DeviceResolved(_)) => true,
        (Phase::SignallingOn, Event::TypingSent(_)) => true,
        (Phase::Opening, Event::ConfigQueried(_)) => true,
        (Phase::Starting(_), Event::StreamStarted(_)) => true,
        (Phase::Recording(_), Event::Waited) => true,
        (Phase::Closing(_), Event::StreamClosed) => true,
        (Phase::Converting(_), Event::Converted(_)) => true,
        (Phase::Recognizing, Event::Recognized(_)) => true,
        (Phase::SignallingOff(_), Event::TypingSent(_)) => true,
        _ => false,
    }
}

/// Leaves the session on a failure once the typing indicator is on: the
/// indicator is switched off on the way out, whatever then comes of it.
pub open spec fn abort(d: u64, err: SttError) -> (Session, Action) {
    (Session { duration: d, phase: Phase::SignallingOff(Err(err)) }, Action::SendTyping(false))
}

/// The session after event `e`, and the action it asks for next.
pub open spec fn next(s: Session, e: Event) -> (Session, Action) {
    let d = s.duration;
    match (s.phase, e) {
        (Phase::Resolving, Event::DeviceResolved(Ok(_))) =>
            (Session { duration: d, phase: Phase::SignallingOn }, Action::SendTyping(true)),
        (Phase::Resolving, Event::DeviceResolved(Err(err))) =>
            (Session { duration: d, phase: Phase::Finished }, Action::Finish(Err(err))),
        (Phase::SignallingOn, Event::TypingSent(Ok(_))) =>
            (Session { duration: d, phase: Phase::Opening }, Action::QueryConfig),
        (Phase::SignallingOn, Event::TypingSent(Err(diag))) =>
            (Session { duration: d, phase: Phase::Finished }, Action::Finish(Err(SttError::NotificationError(diag)))),
        (Phase::Opening, Event::ConfigQueried(q)) =>
            match q {
                Some(f) if f.usable() =>
                    (Session { duration: d, phase: Phase::Starting(f) }, Action::StartStream(f)),
                _ => abort(d, SttError::ConfigUnavailable),
            },
        (Phase::Starting(f), Event::StreamStarted(Ok(_))) =>
            (Session { duration: d, phase: Phase::Recording(f) }, Action::Wait(d)),
        (Phase::Starting(_), Event::StreamStarted(Err(diag))) =>
            abort(d, SttError::StreamError(diag)),
        (Phase::Recording(f), Event::Waited) =>
            (Session { duration: d, phase: Phase::Closing(f) }, Action::CloseStream),
        (Phase::Closing(f), Event::StreamClosed) =>
            (Session { duration: d, phase: Phase::Converting(f) }, Action::Convert(f)),
        (Phase::Converting(_), Event::Converted(Ok(_))) =>
            (Session { duration: d, phase: Phase::Recognizing }, Action::Recognize),
        (Phase::Converting(_), Event::Converted(Err(diag))) =>
            abort(d, SttError::ConversionError(diag)),
        (Phase::Recognizing, Event::Recognized(Ok(segments))) =>
            (Session { duration: d, phase: Phase::SignallingOff(Ok(Transcript { segments })) }, Action::SendTyping(false)),
        (Phase::Recognizing, Event::Recognized(Err(diag))) =>
            abort(d, SttError::RecognitionError(diag)),
        (Phase::SignallingOff(outcome), Event::TypingSent(_)) =>
            (Session { duration: d, phase: Phase::Finished }, Action::Finish(outcome)),
        // An event the session does not expect, which `step` never takes.
        _ => (s, Action::Finish(Err(SttError::DeviceUnavailable))),
    }
}

/// The session after feeding `events`, in order, to a new session of
/// `d` seconds.
pub open spec fn run(d: u64, events: Seq<Event>) -> Session
    decreases events.len(),
{
    if events.len() == 0 {
        Session { duration: d, phase: Phase::Resolving }
    } else {
        next(run(d, events.drop_last()), events.last()).0
    }
}

/// Whether each of `events` is taken by the session it is fed to.
pub open spec fn valid_run(d: u64, events: Seq<Event>) -> bool
    decreases events.len(),
{
    events.len() == 0 || (valid_run(d, events.drop_last()) && expects(
        run(d, events.drop_last()).phase,
        events.last(),
    ))
}

/// Every action asked for along the way: the first one, then one per event.
pub open spec fn actions(d: u64, events: Seq<Event>) -> Seq<Action>
    decreases events.len(),
{
    if events.len() == 0 {
        seq![Action::ResolveDevice]
    } else {
        actions(d, events.drop_last()).push(next(run(d, events.drop_last()), events.last()).1)
    }
}

/// How many times `a` occurs in `tr`.
pub open spec fn count_of(tr: Seq<Action>, a: Action) -> nat
    decreases tr.len(),
{
    if tr.len() == 0 {
        0
    } else {
        count_of(tr.drop_last(), a) + if tr.last() == a { 1nat } else { 0nat }
    }
}

/// The actions of a session that succeeds on a stream of format `f`.
pub open spec fn success_trace(d: u64, f: AudioFormat, t: Transcript) -> Seq<Action> {
    seq![
        Action::ResolveDevice,
        Action::SendTyping(true),
        Action::QueryConfig,
        Action::StartStream(f),
        Action::Wait(d),
        Action::CloseStream,
        Action::Convert(f),
        Action::Recognize,
        Action::SendTyping(false),
        Action::Finish(Ok(t)),
    ]
}

/// Whether every request to drain and convert the samples comes right after
/// the request to close the stream.
pub open spec fn drains_after_close(tr: Seq<Action>) -> bool {
    forall|i: int| 0 <= i < tr.len() && #[trigger] tr[i] is Convert ==> i > 0 && tr[i - 1] == Action::CloseStream
}

/// What the actions so far say of a session in phase `p`.
spec fn history(d: u64, p: Phase, tr: Seq<Action>) -> bool {
    &&& tr.len() > 0
    &&& (tr.last() is Finish <==> p is Finished)
    &&& match p {
        Phase::Resolving => tr == seq![Action::ResolveDevice],
        Phase::SignallingOn => tr == seq![Action::ResolveDevice, Action::SendTyping(true)],
        Phase::Opening => tr == seq![Action::ResolveDevice, Action::SendTyping(true), Action::QueryConfig],
        Phase::Starting(f) => tr == success_trace(d, f, arbitrary()).take(4),
        Phase::Recording(f) => tr == success_trace(d, f, arbitrary()).take(5),
        Phase::Closing(f) => tr == success_trace(d, f, arbitrary()).take(6),
        Phase::Converting(f) => tr == success_trace(d, f, arbitrary()).take(7),
        Phase::Recognizing => exists|f: AudioFormat| tr == #[trigger] success_trace(d, f, arbitrary()).take(8),
        Phase::SignallingOff(o) => {
            &&& tr.len() >= 4
            &&& tr[2] == Action::QueryConfig
            &&& tr.last() == Action::SendTyping(false)
            &&& count_of(tr.drop_last(), Action::SendTyping(false)) == 0
            &&& (o matches Ok(t) ==> exists|f: AudioFormat| tr == #[trigger] success_trace(d, f, t).take(9))
        },
        Phase::Finished => {
            &&& tr.last() matches Action::Finish(_)
            &&& (tr.contains(Action::QueryConfig) ==> count_of(tr, Action::SendTyping(false)) == 1)
            &&& (tr.last() matches Action::Finish(Ok(t)) ==> exists|f: AudioFormat| tr == #[trigger] success_trace(d, f, t))
            &&& (tr.last() == Action::Finish(Err(SttError::DeviceUnavailable)) ==> tr == seq![
                Action::ResolveDevice,
                Action::Finish(Err(SttError::DeviceUnavailable)),
            ])
        },
    }
}

proof fn lemma_count_push(tr: Seq<Action>, x: Action, a: Action)
    ensures
        count_of(tr.push(x), a) == count_of(tr, a) + if x == a { 1nat } else { 0nat },
{
    assert(tr.push(x).drop_last() =~= tr);
}

proof fn lemma_history(d: u64, events: Seq<Event>)
    requires
        valid_run(d, events),
    ensures
        history(d, run(d, events).phase, actions(d, events)),
        run(d, events).duration == d,
    decreases events.len(),
{
    if events.len() > 0 {
        let pre = events.drop_last();
        lemma_history(d, pre);
        let s = run(d, pre);
        let tr = actions(d, pre);
        let e = events.last();
        let (s2, a) = next(s, e);
        let tr2 = tr.push(a);
        assert(actions(d, events) == tr2);
        assert(run(d, events) == s2);
        lemma_count_push(tr, a, Action::SendTyping(false));
        match s.phase {
            Phase::Resolving => {
                assert(tr2 =~= seq![Action::ResolveDevice, a]);
                if s2.phase is Finished {
                    assert(!tr2.contains(Action::QueryConfig)) by {
                        assert(tr2[0] != Action::QueryConfig && tr2[1] != Action::QueryConfig);
                    }
                }
            },
            Phase::SignallingOn => {
                assert(tr2 =~= seq![Action::ResolveDevice, Action::SendTyping(true), a]);
                if s2.phase is Finished {
                    assert(!tr2.contains(Action::QueryConfig)) by {
                        assert(tr2[0] != Action::QueryConfig && tr2[1] != Action::QueryConfig
                            && tr2[2] != Action::QueryConfig);
                    }
                }
            },
            Phase::Opening => {
                if let Phase::Starting(f) = s2.phase {
                    assert(tr2 =~= success_trace(d, f, arbitrary()).take(4));
                } else {
                    reveal_with_fuel(count_of, 4);
                }
            },
            Phase::Starting(f) => {
                if let Phase::Recording(g) = s2.phase {
                    assert(tr2 =~= success_trace(d, f, arbitrary()).take(5));
                } else {
                    reveal_with_fuel(count_of, 5);
                }
            },
            Phase::Recording(f) => {
                assert(tr2 =~= success_trace(d, f, arbitrary()).take(6));
            },
            Phase::Closing(f) => {
                assert(tr2 =~= success_trace(d, f, arbitrary()).take(7));
            },
            Phase::Converting(f) => {
                if s2.phase is Recognizing {
                    assert(tr2 =~= success_trace(d, f, arbitrary()).take(8));
                } else {
                    reveal_with_fuel(count_of, 8);
                }
            },
            Phase::Recognizing => {
                let f = choose|f: AudioFormat| tr == #[trigger] success_trace(d, f, arbitrary()).take(8);
                reveal_with_fuel(count_of, 9);
                if let Phase::SignallingOff(Ok(t)) = s2.phase {
                    assert(tr2 =~= success_trace(d, f, t).take(9));
                }
            },
            Phase::SignallingOff(o) => {
                if let Ok(t) = o {
                    let f = choose|f: AudioFormat| tr == #[trigger] success_trace(d, f, t).take(9);
                    assert(tr2 =~= success_trace(d, f, t));
                }
                lemma_count_push(tr.drop_last(), tr.last(), Action::SendTyping(false));
                assert(tr.drop_last().push(tr.last()) =~= tr);
                assert(tr2.contains(Action::QueryConfig)) by {
                    assert(tr2[2] == Action::QueryConfig);
                }
            },
            Phase::Finished => {},
        }
    }
}

/// A session that ends with a transcript asked, in this order and once
/// each, for the device, the typing indicator on, the device's format, the
/// stream, the recording time, the stream's release, the conversion, the
/// recognition and the typing indicator off.
pub proof fn lemma_successful_session_order(d: u64, events: Seq<Event>)
    requires
        valid_run(d, events),
        actions(d, events).last() matches Action::Finish(Ok(_)),
    ensures
        exists|f: AudioFormat, t: Transcript| actions(d, events) == #[trigger] success_trace(d, f, t),
{
    lemma_history(d, events);
}

/// Once the capture has begun, a session that ends has switched the typing
/// indicator off exactly once, whether the capture or a later step failed
/// or all went well.
pub proof fn lemma_typing_off_once_after_capture(d: u64, events: Seq<Event>)
    requires
        valid_run(d, events),
        run(d, events).phase is Finished,
        actions(d, events).contains(Action::QueryConfig),
    ensures
        count_of(actions(d, events), Action::SendTyping(false)) == 1,
{
    lemma_history(d, events);
}

/// The samples are drained only once the stream is stopped and released:
/// every request to convert them comes right after the request to close the
/// stream, so no callback can append while they are read.
pub proof fn lemma_drain_follows_close(d: u64, events: Seq<Event>)
    requires
        valid_run(d, events),
    ensures
        drains_after_close(actions(d, events)),
    decreases events.len(),
{
    if events.len() > 0 {
        let pre = events.drop_last();
        lemma_drain_follows_close(d, pre);
        lemma_history(d, pre);
        let s = run(d, pre);
        let tr = actions(d, pre);
        let a = next(s, events.last()).1;
        let tr2 = tr.push(a);
        assert(actions(d, events) == tr2);
        if let Phase::Closing(f) = s.phase {
            assert(tr.last() == success_trace(d, f, arbitrary())[5]);
        }
        assert forall|i: int| 0 <= i < tr2.len() && #[trigger] tr2[i] is Convert implies i > 0 && tr2[i - 1]
            == Action::CloseStream by {
            if i < tr.len() {
                assert(tr2[i] == tr[i]);
                assert(tr2[i - 1] == tr[i - 1]);
            } else {
                assert(s.phase is Closing);
            }
        }
    }
}

/// A session that fails for want of a capture device fails before any
/// signal is sent: it asked for nothing but the device.
pub proof fn lemma_no_device_no_signal(d: u64, events: Seq<Event>)
    requires
        valid_run(d, events),
        actions(d, events).last() == Action::Finish(Err(SttError::DeviceUnavailable)),
    ensures
        actions(d, events) == seq![Action::ResolveDevice, Action::Finish(Err(SttError::DeviceUnavailable))],
{
    lemma_history(d, events);
}

/// When the engine finds no segment, the session ends with an empty
/// transcript, not an error, whatever comes of switching the indicator off.
pub proof fn lemma_no_segment_gives_empty_text(s: Session, segments: Vec<String>, off: Result<(), String>)
    requires
        s.phase is Recognizing,
        segments@.len() == 0,
    ensures
        next(next(s, Event::Recognized(Ok(segments))).0, Event::TypingSent(off)).1 matches Action::Finish(Ok(t))
            && published(t.segments@) == Seq::<char>::empty(),
{
}

impl Session {
    /// A new session for `duration` seconds, and its first action: look up
    /// the device, before any signal is sent.
    pub fn start(duration: u64) -> (r: (Session, Action))
        ensures
            r == (Session { duration, phase: Phase::Resolving }, Action::ResolveDevice),
    {
        (Session { duration, phase: Phase::Resolving }, Action::ResolveDevice)
    }

    /// Whether the session takes `e` now.
    pub fn expects(&self, e: &Event) -> (r: bool)
        ensures
            r == expects(self.phase, *e),
    {
        match (&self.phase, e) {
            (Phase::Resolving, Event::DeviceResolved(_)) => true,
            (Phase::SignallingOn, Event::TypingSent(_)) => true,
            (Phase::Opening, Event::ConfigQueried(_)) => true,
            (Phase::Starting(_), Event::StreamStarted(_)) => true,
            (Phase::Recording(_), Event::Waited) => true,
            (Phase::Closing(_), Event::StreamClosed) => true,
            (Phase::Converting(_), Event::Converted(_)) => true,
            (Phase::Recognizing, Event::Recognized(_)) => true,
            (Phase::SignallingOff(_), Event::TypingSent(_)) => true,
            _ => false,
        }
    }

    /// Whether the session is over.
    pub fn is_finished(&self) -> (r: bool)
        ensures
            r == (self.phase is Finished),
    {
        match self.phase {
            Phase::Finished => true,
            _ => false,
        }
    }

    /// Takes the outcome of the action last asked for, and gives the session
    /// that follows and the action it asks for.
    pub fn step(self, e: Event) -> (r: (Session, Action))
        requires
            expects(self.phase, e),
        ensures
            r == next(self, e),
    {
        let d = self.duration;
        match (self.phase, e) {
            (Phase::Resolving, Event::DeviceResolved(Ok(_))) =>
                (Session { duration: d, phase: Phase::SignallingOn }, Action::SendTyping(true)),
            (Phase::Resolving, Event::DeviceResolved(Err(err))) =>
                (Session { duration: d, phase: Phase::Finished }, Action::Finish(Err(err))),
            (Phase::SignallingOn, Event::TypingSent(Ok(_))) =>
                (Session { duration: d, phase: Phase::Opening }, Action::QueryConfig),
            (Phase::SignallingOn, Event::TypingSent(Err(diag))) =>
                (Session { duration: d, phase: Phase::Finished }, Action::Finish(Err(SttError::NotificationError(diag)))),
            (Phase::Opening, Event::ConfigQueried(q)) => {
                match q {
                    Some(f) => {
                        if f.is_usable() {
                            (Session { duration: d, phase: Phase::Starting(f) }, Action::StartStream(f))
                        } else {
                            Self::abort(d, SttError::ConfigUnavailable)
                        }
                    },
                    None => Self::abort(d, SttError::ConfigUnavailable),
                }
            },
            (Phase::Starting(f), Event::StreamStarted(Ok(_))) =>
                (Session { duration: d, phase: Phase::Recording(f) }, Action::Wait(d)),
            (Phase::Starting(_), Event::StreamStarted(Err(diag))) =>
                Self::abort(d, SttError::StreamError(diag)),
            (Phase::Recording(f), Event::Waited) =>
                (Session { duration: d, phase: Phase::Closing(f) }, Action::CloseStream),
            (Phase::Closing(f), Event::StreamClosed) =>
                (Session { duration: d, phase: Phase::Converting(f) }, Action::Convert(f)),
            (Phase::Converting(_), Event::Converted(Ok(_))) =>
                (Session { duration: d, phase: Phase::Recognizing }, Action::Recognize),
            (Phase::Converting(_), Event::Converted(Err(diag))) =>
                Self::abort(d, SttError::ConversionError(diag)),
            (Phase::Recognizing, Event::Recognized(Ok(segments))) =>
                (Session { duration: d, phase: Phase::SignallingOff(Ok(Transcript { segments })) }, Action::SendTyping(false)),
            (Phase::Recognizing, Event::Recognized(Err(diag))) =>
                Self::abort(d, SttError::RecognitionError(diag)),
            (Phase::SignallingOff(outcome), Event::TypingSent(_)) =>
                (Session { duration: d, phase: Phase::Finished }, Action::Finish(outcome)),
            (phase, _) => (Session { duration: d, phase }, Action::Finish(Err(SttError::DeviceUnavailable))),
        }
    }

    fn abort(d: u64, err: SttError) -> (r: (Session, Action))
        ensures
            r == abort(d, err),
    {
        (Session { duration: d, phase: Phase::SignallingOff(Err(err)) }, Action::SendTyping(false))
    }
}

} // verus!
