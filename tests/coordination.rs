use raifus::coordinator::{is_substantial_chunk, Coordinator, Effect, Message, Phase, Role};
use raifus::event::{Event, ModelAnswer, VoiceEvent, VoiceRequest};

type Ev = Event<char, u8>;

fn model(a: ModelAnswer) -> Ev {
    Event::ModelEvent(a)
}

fn chunk(s: &str) -> Ev {
    Event::ModelEvent(ModelAnswer::Answer(s.to_string()))
}

fn played(r: Option<Ev>) -> Option<VoiceRequest> {
    match r {
        Some(Event::VoiceEvent(VoiceEvent::PlayText(q))) => Some(q),
        None => None,
        Some(other) => panic!("unexpected follow-up {:?}", other),
    }
}

#[test]
fn long_chunk_and_final_answer_are_spoken() {
    let first = "Hello";
    let second = " world. This is a longer sentence chunk exceeding eighty characters for testing purposes.";
    let mut c = Coordinator::new(None);
    c.submit_query("hi".to_string());
    assert!(c.spinner_active());
    let mut requests = Vec::new();
    for e in [model(ModelAnswer::StartAnswer), chunk(first), chunk(second), model(ModelAnswer::EndAnswer)] {
        if let Some(q) = played(c.handle_event(e).follow_up) {
            requests.push(q);
        }
    }
    let full = format!("{}{}", first, second);
    assert_eq!(
        requests,
        vec![
            VoiceRequest { text: second.to_string(), voice: None },
            VoiceRequest { text: full.clone(), voice: None },
        ]
    );
    let assistant: Vec<&Message> = c.history().iter().filter(|m| m.role == Role::Assistant).collect();
    assert_eq!(assistant.len(), 1);
    assert_eq!(assistant[0].text, full);
    assert_eq!(c.history()[0], Message { role: Role::User, text: "hi".to_string() });
    assert_eq!(c.phase(), Phase::Idle);
    assert_eq!(c.answer(), "");
}

#[test]
fn final_answer_uses_default_voice() {
    let mut c = Coordinator::new(Some("alloy".to_string()));
    c.submit_query("q".to_string());
    c.handle_event(model(ModelAnswer::StartAnswer));
    c.handle_event(chunk("Short."));
    let r = c.handle_event(model(ModelAnswer::EndAnswer));
    assert_eq!(
        played(r.follow_up),
        Some(VoiceRequest { text: "Short.".to_string(), voice: Some("alloy".to_string()) })
    );
}

#[test]
fn empty_final_answer_is_not_spoken() {
    let mut c = Coordinator::new(None);
    c.submit_query("q".to_string());
    c.handle_event(model(ModelAnswer::StartAnswer));
    let r = c.handle_event(model(ModelAnswer::EndAnswer));
    assert_eq!(played(r.follow_up), None);
    assert_eq!(c.history().len(), 2);
    assert_eq!(c.history()[1].text, "");
}

#[test]
fn finalizing_twice_adds_one_message() {
    let mut c = Coordinator::new(None);
    c.handle_event(model(ModelAnswer::StartAnswer));
    c.handle_event(chunk("answer"));
    let first = c.handle_event(model(ModelAnswer::EndAnswer));
    assert!(played(first.follow_up).is_some());
    let second = c.handle_event(model(ModelAnswer::EndAnswer));
    assert_eq!(played(second.follow_up), None);
    assert_eq!(c.history().len(), 1);
    assert_eq!(c.history()[0], Message { role: Role::Assistant, text: "answer".to_string() });
}

#[test]
fn chunks_after_cancellation_are_discarded() {
    let long = "This chunk is long enough to be spoken, since it has well over eighty characters in it.";
    let mut c = Coordinator::new(None);
    c.submit_query("q".to_string());
    assert!(!c.is_cancelled());
    c.handle_event(model(ModelAnswer::StartAnswer));
    c.handle_event(chunk("kept "));
    c.request_cancel();
    assert!(c.is_cancelled());
    let late = c.handle_event(chunk(long));
    assert_eq!(played(late.follow_up), None);
    assert_eq!(c.answer(), "kept ");
    c.handle_event(model(ModelAnswer::EndAnswer));
    assert!(!c.is_cancelled());
    assert_eq!(c.history()[1], Message { role: Role::Assistant, text: "kept ".to_string() });
}

#[test]
fn cancel_without_query_does_nothing() {
    let mut c = Coordinator::new(None);
    c.request_cancel();
    assert!(!c.is_cancelled());
}

#[test]
fn new_query_clears_cancellation() {
    let mut c = Coordinator::new(None);
    c.submit_query("a".to_string());
    c.request_cancel();
    assert!(c.is_cancelled());
    c.submit_query("b".to_string());
    assert!(!c.is_cancelled());
    assert_eq!(c.phase(), Phase::Waiting);
}

#[test]
fn start_answer_stops_spinner() {
    let mut c = Coordinator::new(None);
    c.submit_query("a".to_string());
    assert!(c.spinner_active());
    let r = c.handle_event(model(ModelAnswer::StartAnswer));
    assert_eq!(r.effect, Effect::Nothing);
    assert!(!c.spinner_active());
    assert_eq!(c.phase(), Phase::Streaming);
}

#[test]
fn stray_chunk_when_idle_is_discarded() {
    let mut c = Coordinator::new(None);
    c.handle_event(chunk("stray"));
    assert_eq!(c.answer(), "");
    assert!(c.history().is_empty());
}

#[test]
fn substantial_chunk_threshold() {
    let eighty_with_period = format!("{}.", "a".repeat(79));
    assert_eq!(eighty_with_period.chars().count(), 80);
    assert!(!is_substantial_chunk(&eighty_with_period));
    let eighty_one = format!("{}.", "a".repeat(80));
    assert!(is_substantial_chunk(&eighty_one));
    let no_period = "a".repeat(81);
    assert!(!is_substantial_chunk(&no_period));
    assert!(!is_substantial_chunk(""));
}

#[test]
fn substantial_chunk_counts_characters() {
    let accented = format!("{}.", "é".repeat(50));
    assert!(accented.len() > 80);
    assert!(!is_substantial_chunk(&accented));
}

#[test]
fn intermediate_chunk_spoken_without_voice() {
    let long = format!("{}.", "b".repeat(85));
    let mut c = Coordinator::new(Some("v".to_string()));
    c.handle_event(model(ModelAnswer::StartAnswer));
    let r = c.handle_event(chunk(&long));
    assert_eq!(played(r.follow_up), Some(VoiceRequest { text: long.clone(), voice: None }));
    let short = c.handle_event(chunk("tiny."));
    assert_eq!(played(short.follow_up), None);
    assert_eq!(c.answer(), format!("{}tiny.", long));
}

#[test]
fn input_events_go_to_the_input_handler() {
    let mut c = Coordinator::new(None);
    assert_eq!(c.handle_event(Event::Tick).effect, Effect::<char, u8>::AdvanceTick);
    assert_eq!(c.handle_event(Event::<char, u8>::Key('q')).effect, Effect::HandleKey('q'));
    assert_eq!(c.handle_event(Event::<char, u8>::Mouse(3)).effect, Effect::HandleMouse(3));
    assert_eq!(c.handle_event(Event::<char, u8>::Resize(80, 24)).effect, Effect::HandleResize(80, 24));
    assert_eq!(c.phase(), Phase::Idle);
}

#[test]
fn notifications_are_appended() {
    let mut c = Coordinator::new(None);
    c.handle_event(Event::<char, u8>::Notification("one".to_string()));
    c.handle_event(Event::<char, u8>::Notification("two".to_string()));
    assert_eq!(c.notifications(), &vec!["one".to_string(), "two".to_string()]);
}

#[test]
fn voice_events_become_effects() {
    let mut c = Coordinator::new(None);
    let q = VoiceRequest { text: "say".to_string(), voice: None };
    let r = c.handle_event(Event::<char, u8>::VoiceEvent(VoiceEvent::PlayText(q.clone())));
    assert_eq!(r.effect, Effect::Play(q));
    assert!(r.follow_up.is_none());
    let r = c.handle_event(Event::<char, u8>::VoiceEvent(VoiceEvent::Error("boom".to_string())));
    assert_eq!(r.effect, Effect::ReportVoiceError("boom".to_string()));
    let r = c.handle_event(Event::<char, u8>::VoiceEvent(VoiceEvent::Complete));
    assert_eq!(r.effect, Effect::Nothing);
}
