use base64::Engine;
use twilio_stream::classifier::{Arrival, Classifier};
use twilio_stream::sender::{
    Sender, SenderAction, SenderEvent, StopReason, STARTUP_DELAY_MILLIS, UTTERANCE,
};

const CONNECTED: &str = "{\"event\":\"connected\",\"protocol\":\"Call\",\"version\":\"1.0.0\"}";

const MEDIA: &str = "{\"event\":\"media\",\"sequenceNumber\":\"3\",\"media\":{\"track\":\"inbound\",\"chunk\":\"2\",\"timestamp\":\"5\",\"payload\":\"no+JhoaJjpz=\"},\"streamSid\":\"MZ18ad\"}";

const START: &str = "{\"event\":\"start\",\"sequenceNumber\":\"1\",\"start\":{\"accountSid\":\"AC0123\",\"streamSid\":\"MZnested\",\"callSid\":\"CA9876\",\"tracks\":[\"inbound\"],\"mediaFormat\":{\"encoding\":\"audio/x-mulaw\",\"sampleRate\":8000,\"channels\":1}},\"streamSid\":\"MZ18ad\"}";

/// Reads the frames as one session would and returns what the handoff
/// resolves with.
fn read_all(frames: Vec<Arrival>) -> Option<String> {
    let mut classifier = Classifier::new();
    let mut handed = None;
    for frame in frames {
        if classifier.is_closed() {
            break;
        }
        if let Some(sid) = classifier.accept(frame).handoff {
            assert!(handed.is_none());
            handed = Some(sid);
        }
    }
    handed
}

/// Drives a sender to its end and returns the frames it asked to send.
fn send_all(handoff: Option<String>, payload: Option<String>) -> (Vec<String>, Option<StopReason>) {
    let mut sender = Sender::new(STARTUP_DELAY_MILLIS, UTTERANCE);
    let mut sent = Vec::new();
    let mut event = SenderEvent::Handoff(handoff);
    loop {
        match sender.on_event(event) {
            SenderAction::Sleep { millis } => {
                assert_eq!(millis, 1000);
                event = SenderEvent::DelayElapsed;
            }
            SenderAction::Synthesize(request) => {
                assert_eq!(request.text, UTTERANCE);
                event = SenderEvent::Synthesized(payload.clone());
            }
            SenderAction::Send(frame) => {
                sent.push(frame);
                assert!(sender.is_done());
                return (sent, None);
            }
            SenderAction::Stop(reason) => {
                assert!(sender.is_done());
                return (sent, Some(reason));
            }
            SenderAction::Ignore => panic!("the sender ignored what it had asked for"),
        }
    }
}

#[test]
fn socket_closed_after_connected_sends_no_frame() {
    let handed = read_all(vec![Arrival::Text(CONNECTED.to_string()), Arrival::End]);
    assert_eq!(handed, None);
    let (sent, reason) = send_all(handed, Some("AAAA".to_string()));
    assert_eq!(sent, Vec::<String>::new());
    assert_eq!(reason, Some(StopReason::HandoffDropped));
}

#[test]
fn start_after_early_media_reaches_the_sender() {
    let handed = read_all(vec![
        Arrival::Text(MEDIA.to_string()),
        Arrival::Text(MEDIA.to_string()),
        Arrival::Text(START.to_string()),
    ]);
    assert_eq!(handed, Some("MZ18ad".to_string()));
}

#[test]
fn session_sends_one_frame_for_the_started_stream() {
    let handed = read_all(vec![
        Arrival::Text(CONNECTED.to_string()),
        Arrival::Text("{\"event\": \"sta".to_string()),
        Arrival::Text(START.to_string()),
        Arrival::Text(MEDIA.to_string()),
        Arrival::End,
    ]);
    let samples: Vec<u8> = vec![0xff, 0xfe, 0x7f, 0x00, 0x01, 0x80];
    let mut container = vec![0u8; 44];
    container.extend_from_slice(&samples);
    let payload = base64::engine::general_purpose::STANDARD.encode(&container);
    let (sent, reason) = send_all(handed, Some(payload));
    assert_eq!(reason, None);
    assert_eq!(sent.len(), 1);
    let parsed: serde_json::Value = serde_json::from_str(&sent[0]).unwrap();
    assert_eq!(parsed["event"].as_str(), Some("media"));
    assert_eq!(parsed["streamSid"].as_str(), Some("MZ18ad"));
    let decoded = base64::engine::general_purpose::STANDARD
        .decode(parsed["media"]["payload"].as_str().unwrap())
        .unwrap();
    assert_eq!(decoded, samples);
}

#[test]
fn failing_backend_ends_the_session_without_a_frame() {
    let handed = read_all(vec![Arrival::Text(START.to_string())]);
    let (sent, reason) = send_all(handed, None);
    assert_eq!(sent, Vec::<String>::new());
    assert_eq!(reason, Some(StopReason::SynthesisFailed));
}
