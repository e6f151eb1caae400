use base64::Engine;
use twilio_stream::codec::CodecError;
use twilio_stream::sender::{
    AudioEncoding, Sender, SenderAction, SenderEvent, SenderState, StopReason, SynthesisRequest,
    VoiceGender, LANGUAGE_CODE, STARTUP_DELAY_MILLIS, TELEPHONY_RATE, UTTERANCE, VOICE_NAME,
};

fn standard(bytes: &[u8]) -> String {
    base64::engine::general_purpose::STANDARD.encode(bytes)
}

fn payload_with(samples: &[u8]) -> String {
    let mut container = vec![0u8; 44];
    container.extend_from_slice(samples);
    standard(&container)
}

fn handoff(sid: &str) -> SenderEvent {
    SenderEvent::Handoff(Some(sid.to_string()))
}

fn synthesizing(sid: &str) -> Sender {
    let mut sender = Sender::new(STARTUP_DELAY_MILLIS, UTTERANCE);
    sender.on_event(handoff(sid));
    sender.on_event(SenderEvent::DelayElapsed);
    sender
}

#[test]
fn constants_are_those_of_the_utterance() {
    assert_eq!(STARTUP_DELAY_MILLIS, 1000);
    assert_eq!(TELEPHONY_RATE, 8000);
    assert_eq!(LANGUAGE_CODE, "en-US");
    assert_eq!(VOICE_NAME, "en-US-Standard-E");
    assert!(UTTERANCE.starts_with("Now is the winter of our discontent\n"));
    assert!(UTTERANCE.ends_with("lend me your ears!\n"));
    assert_eq!(UTTERANCE.lines().count(), 5);
}

#[test]
fn telephony_request_asks_for_companded_samples() {
    assert_eq!(
        SynthesisRequest::telephony("hello"),
        SynthesisRequest {
            text: "hello".to_string(),
            language_code: "en-US".to_string(),
            voice_name: "en-US-Standard-E".to_string(),
            gender: VoiceGender::Female,
            encoding: AudioEncoding::Mulaw,
            sample_rate_hertz: Some(8000),
        }
    );
}

#[test]
fn playback_request_asks_for_compressed_audio() {
    assert_eq!(
        SynthesisRequest::playback("hello"),
        SynthesisRequest {
            text: "hello".to_string(),
            language_code: "en-US".to_string(),
            voice_name: "en-US-Standard-E".to_string(),
            gender: VoiceGender::Female,
            encoding: AudioEncoding::Mp3,
            sample_rate_hertz: None,
        }
    );
}

#[test]
fn new_sender_awaits_the_sid() {
    let sender = Sender::new(250, "hi");
    assert_eq!(sender.state(), &SenderState::AwaitingSid);
    assert!(!sender.is_done());
}

#[test]
fn dropped_handoff_sends_nothing() {
    let mut sender = Sender::new(STARTUP_DELAY_MILLIS, UTTERANCE);
    let action = sender.on_event(SenderEvent::Handoff(None));
    assert_eq!(action, SenderAction::Stop(StopReason::HandoffDropped));
    assert!(sender.is_done());
    assert_eq!(sender.on_event(SenderEvent::DelayElapsed), SenderAction::Ignore);
    assert_eq!(
        sender.on_event(SenderEvent::Synthesized(Some(payload_with(b"abc")))),
        SenderAction::Ignore
    );
    assert_eq!(sender.on_event(handoff("MZ1")), SenderAction::Ignore);
    assert!(sender.is_done());
}

#[test]
fn handoff_starts_the_delay() {
    let mut sender = Sender::new(250, "hi");
    assert_eq!(sender.on_event(handoff("MZ1")), SenderAction::Sleep { millis: 250 });
    assert_eq!(sender.state(), &SenderState::Delaying { stream_sid: "MZ1".to_string() });
}

#[test]
fn delay_is_followed_by_synthesis_of_the_utterance() {
    let mut sender = Sender::new(250, "hi there");
    sender.on_event(handoff("MZ1"));
    assert_eq!(
        sender.on_event(SenderEvent::DelayElapsed),
        SenderAction::Synthesize(SynthesisRequest::telephony("hi there"))
    );
    assert_eq!(sender.state(), &SenderState::Synthesizing { stream_sid: "MZ1".to_string() });
}

#[test]
fn synthesized_payload_is_sent_as_one_frame() {
    let mut sender = synthesizing("MZ18ad");
    let action = sender.on_event(SenderEvent::Synthesized(Some(payload_with(b"hello"))));
    assert_eq!(
        action,
        SenderAction::Send(
            "{\"event\":\"media\",\"media\":{\"payload\":\"aGVsbG8=\"},\"streamSid\":\"MZ18ad\"}"
                .to_string()
        )
    );
    assert!(sender.is_done());
}

#[test]
fn sent_frame_carries_the_sid_that_was_handed_over() {
    let samples: Vec<u8> = (0..200u8).collect();
    let mut sender = synthesizing("MZfrom-start");
    match sender.on_event(SenderEvent::Synthesized(Some(payload_with(&samples)))) {
        SenderAction::Send(frame) => {
            let parsed: serde_json::Value = serde_json::from_str(&frame).unwrap();
            assert_eq!(parsed["streamSid"].as_str(), Some("MZfrom-start"));
            let payload = parsed["media"]["payload"].as_str().unwrap();
            let decoded = base64::engine::general_purpose::STANDARD.decode(payload).unwrap();
            assert_eq!(decoded, samples);
        }
        other => panic!("the sender answered {:?}", other),
    }
}

#[test]
fn failed_synthesis_ends_the_pipeline() {
    let mut sender = synthesizing("MZ1");
    assert_eq!(
        sender.on_event(SenderEvent::Synthesized(None)),
        SenderAction::Stop(StopReason::SynthesisFailed)
    );
    assert!(sender.is_done());
}

#[test]
fn short_container_ends_the_pipeline() {
    let mut sender = synthesizing("MZ1");
    assert_eq!(
        sender.on_event(SenderEvent::Synthesized(Some(standard(&[0u8; 43])))),
        SenderAction::Stop(StopReason::Codec(CodecError::Truncated))
    );
    assert!(sender.is_done());
}

#[test]
fn payload_that_is_not_base64_ends_the_pipeline() {
    let mut sender = synthesizing("MZ1");
    assert_eq!(
        sender.on_event(SenderEvent::Synthesized(Some("***".to_string()))),
        SenderAction::Stop(StopReason::Codec(CodecError::Encoding))
    );
    assert!(sender.is_done());
}

#[test]
fn events_that_are_not_awaited_change_nothing() {
    let mut sender = Sender::new(10, "hi");
    assert_eq!(sender.on_event(SenderEvent::DelayElapsed), SenderAction::Ignore);
    assert_eq!(
        sender.on_event(SenderEvent::Synthesized(Some(payload_with(b"x")))),
        SenderAction::Ignore
    );
    assert_eq!(sender.state(), &SenderState::AwaitingSid);
    sender.on_event(handoff("MZ1"));
    assert_eq!(sender.on_event(handoff("MZ2")), SenderAction::Ignore);
    assert_eq!(
        sender.on_event(SenderEvent::Synthesized(Some(payload_with(b"x")))),
        SenderAction::Ignore
    );
    assert_eq!(sender.state(), &SenderState::Delaying { stream_sid: "MZ1".to_string() });
    sender.on_event(SenderEvent::DelayElapsed);
    assert_eq!(sender.on_event(SenderEvent::DelayElapsed), SenderAction::Ignore);
    assert_eq!(sender.on_event(handoff("MZ3")), SenderAction::Ignore);
    assert_eq!(sender.state(), &SenderState::Synthesizing { stream_sid: "MZ1".to_string() });
}

#[test]
fn nothing_is_sent_twice() {
    let mut sender = synthesizing("MZ1");
    let first = sender.on_event(SenderEvent::Synthesized(Some(payload_with(b"x"))));
    assert!(matches!(first, SenderAction::Send(_)));
    assert_eq!(
        sender.on_event(SenderEvent::Synthesized(Some(payload_with(b"x")))),
        SenderAction::Ignore
    );
}
