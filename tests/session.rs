use melonstt::{Action, AudioFormat, Event, SampleRepr, Session, SttError};

fn stereo_48k() -> AudioFormat {
    AudioFormat { sample_rate: 48000, channels: 2, repr: SampleRepr::Float32 }
}

/// Feeds the events in order and gathers every action asked for.
fn drive(duration: u64, events: Vec<Event>) -> Vec<Action> {
    let (mut s, first) = Session::start(duration);
    let mut out = vec![first];
    for e in events {
        assert!(s.expects(&e));
        let (s2, a) = s.step(e);
        s = s2;
        out.push(a);
    }
    assert!(s.is_finished());
    out
}

fn count_typing(actions: &[Action], on: bool) -> usize {
    actions.iter().filter(|a| matches!(a, Action::SendTyping(x) if *x == on)).count()
}

#[test]
fn three_second_session_publishes_first_segment() {
    let f = stereo_48k();
    let actions = drive(3, vec![
        Event::DeviceResolved(Ok("mic".to_string())),
        Event::TypingSent(Ok(())),
        Event::ConfigQueried(Some(f)),
        Event::StreamStarted(Ok(())),
        Event::Waited,
        Event::StreamClosed,
        Event::Converted(Ok(())),
        Event::Recognized(Ok(vec!["hello world".to_string()])),
        Event::TypingSent(Ok(())),
    ]);
    assert_eq!(actions.len(), 10);
    assert!(matches!(actions[0], Action::ResolveDevice));
    assert!(matches!(actions[1], Action::SendTyping(true)));
    assert!(matches!(actions[2], Action::QueryConfig));
    assert!(matches!(actions[3], Action::StartStream(g) if g == f));
    assert!(matches!(actions[4], Action::Wait(3)));
    assert!(matches!(actions[5], Action::CloseStream));
    assert!(matches!(actions[6], Action::Convert(g) if g == f));
    assert!(matches!(actions[7], Action::Recognize));
    assert!(matches!(actions[8], Action::SendTyping(false)));
    match &actions[9] {
        Action::Finish(Ok(t)) => assert_eq!(t.text(), "hello world"),
        other => panic!("unexpected {:?}", other),
    }
    assert_eq!(count_typing(&actions, true), 1);
    assert_eq!(count_typing(&actions, false), 1);
}

#[test]
fn no_device_fails_before_any_signal() {
    let actions = drive(3, vec![Event::DeviceResolved(Err(SttError::DeviceUnavailable))]);
    assert_eq!(actions.len(), 2);
    assert!(matches!(actions[1], Action::Finish(Err(SttError::DeviceUnavailable))));
    assert_eq!(count_typing(&actions, true), 0);
    assert_eq!(count_typing(&actions, false), 0);
}

#[test]
fn typing_on_failure_aborts_before_recording() {
    let actions = drive(3, vec![
        Event::DeviceResolved(Ok("mic".to_string())),
        Event::TypingSent(Err("unreachable".to_string())),
    ]);
    assert_eq!(actions.len(), 3);
    assert!(matches!(&actions[2], Action::Finish(Err(SttError::NotificationError(d))) if d == "unreachable"));
    assert!(!actions.iter().any(|a| matches!(a, Action::QueryConfig)));
}

#[test]
fn missing_config_still_switches_typing_off_once() {
    let actions = drive(3, vec![
        Event::DeviceResolved(Ok("mic".to_string())),
        Event::TypingSent(Ok(())),
        Event::ConfigQueried(None),
        Event::TypingSent(Err("lost".to_string())),
    ]);
    assert!(matches!(actions[3], Action::SendTyping(false)));
    assert!(matches!(actions[4], Action::Finish(Err(SttError::ConfigUnavailable))));
    assert_eq!(count_typing(&actions, false), 1);
}

#[test]
fn unusable_format_is_config_unavailable() {
    let zero = AudioFormat { sample_rate: 0, channels: 2, repr: SampleRepr::Float32 };
    let actions = drive(1, vec![
        Event::DeviceResolved(Ok("mic".to_string())),
        Event::TypingSent(Ok(())),
        Event::ConfigQueried(Some(zero)),
        Event::TypingSent(Ok(())),
    ]);
    assert!(matches!(actions[4], Action::Finish(Err(SttError::ConfigUnavailable))));
}

#[test]
fn stream_failure_switches_typing_off_once() {
    let actions = drive(2, vec![
        Event::DeviceResolved(Ok("mic".to_string())),
        Event::TypingSent(Ok(())),
        Event::ConfigQueried(Some(stereo_48k())),
        Event::StreamStarted(Err("busy".to_string())),
        Event::TypingSent(Ok(())),
    ]);
    assert!(matches!(actions[4], Action::SendTyping(false)));
    assert!(matches!(&actions[5], Action::Finish(Err(SttError::StreamError(d))) if d == "busy"));
    assert_eq!(count_typing(&actions, false), 1);
    assert!(!actions.iter().any(|a| matches!(a, Action::Convert(_))));
}

#[test]
fn conversion_failure_is_reported() {
    let actions = drive(2, vec![
        Event::DeviceResolved(Ok("mic".to_string())),
        Event::TypingSent(Ok(())),
        Event::ConfigQueried(Some(stereo_48k())),
        Event::StreamStarted(Ok(())),
        Event::Waited,
        Event::StreamClosed,
        Event::Converted(Err("bad rate".to_string())),
        Event::TypingSent(Ok(())),
    ]);
    assert!(matches!(&actions[8], Action::Finish(Err(SttError::ConversionError(d))) if d == "bad rate"));
    assert_eq!(count_typing(&actions, false), 1);
}

#[test]
fn recognition_failure_is_reported() {
    let actions = drive(2, vec![
        Event::DeviceResolved(Ok("mic".to_string())),
        Event::TypingSent(Ok(())),
        Event::ConfigQueried(Some(stereo_48k())),
        Event::StreamStarted(Ok(())),
        Event::Waited,
        Event::StreamClosed,
        Event::Converted(Ok(())),
        Event::Recognized(Err("model".to_string())),
        Event::TypingSent(Ok(())),
    ]);
    assert!(matches!(&actions[9], Action::Finish(Err(SttError::RecognitionError(d))) if d == "model"));
    assert_eq!(count_typing(&actions, false), 1);
}

#[test]
fn no_segment_gives_empty_text_even_if_typing_off_fails() {
    let actions = drive(2, vec![
        Event::DeviceResolved(Ok("mic".to_string())),
        Event::TypingSent(Ok(())),
        Event::ConfigQueried(Some(stereo_48k())),
        Event::StreamStarted(Ok(())),
        Event::Waited,
        Event::StreamClosed,
        Event::Converted(Ok(())),
        Event::Recognized(Ok(vec![])),
        Event::TypingSent(Err("lost".to_string())),
    ]);
    match &actions[9] {
        Action::Finish(Ok(t)) => assert_eq!(t.text(), ""),
        other => panic!("unexpected {:?}", other),
    }
}

#[test]
fn session_takes_only_the_awaited_event() {
    let (s, _) = Session::start(5);
    assert!(!s.expects(&Event::Waited));
    assert!(!s.expects(&Event::TypingSent(Ok(()))));
    assert!(s.expects(&Event::DeviceResolved(Ok("mic".to_string()))));
    assert!(!s.is_finished());
    assert_eq!(s.duration, 5);
}
