use twilio_stream::twilio_types::{
    wrap_twiml, ConnectAction, Connection, PlayAction, Response, ResponseAction, SayAction,
    StreamAction, StreamTrack, XML_DECLARATION,
};
use twilio_stream::twiml::{
    play_endpoint, play_url, say_and_connect, stream_url, CallDirective, GREETING,
};

#[test]
fn say_and_connect_points_at_the_stream_endpoint() {
    let document = say_and_connect("example.com");
    assert_eq!(document.actions.len(), 2);
    match &document.actions[1] {
        ResponseAction::Connect(ConnectAction { connection: Connection::Stream(stream) }) => {
            assert_eq!(stream.url, "wss://example.com/connect");
            assert_eq!(stream.track, Some(StreamTrack::Inbound));
            assert_eq!(stream.name, None);
        }
        other => panic!("the second directive is {:?}", other),
    }
}

#[test]
fn say_and_connect_greets_first() {
    let document = say_and_connect("example.com");
    match &document.actions[0] {
        ResponseAction::Say(say) => {
            assert_eq!(say.text, "Hi. I'm your Twilio host. Welcome!");
            assert_eq!(say.text, GREETING);
            assert_eq!(say.voice, None);
            assert_eq!(say.lp, None);
            assert_eq!(say.language, None);
        }
        other => panic!("the first directive is {:?}", other),
    }
}

#[test]
fn say_and_connect_is_the_whole_document() {
    let expected = Response {
        actions: vec![
            ResponseAction::Say(SayAction {
                text: "Hi. I'm your Twilio host. Welcome!".to_string(),
                voice: None,
                lp: None,
                language: None,
            }),
            ResponseAction::Connect(ConnectAction {
                connection: Connection::Stream(StreamAction {
                    url: "wss://calls.example.org:8443/connect".to_string(),
                    name: None,
                    track: Some(StreamTrack::Inbound),
                }),
            }),
        ],
    };
    assert_eq!(say_and_connect("calls.example.org:8443"), expected);
}

#[test]
fn play_url_keeps_the_address_verbatim() {
    let document = play_url("example.com");
    assert_eq!(
        document,
        Response {
            actions: vec![ResponseAction::Play(PlayAction {
                url: "example.com".to_string(),
                lp: None
            })]
        }
    );
}

#[test]
fn play_url_does_not_escape_or_trim() {
    let url = " https://example.com/a?b=1&c=<2> ";
    match &play_url(url).actions[0] {
        ResponseAction::Play(play) => assert_eq!(play.url, url),
        other => panic!("the directive is {:?}", other),
    }
}

#[test]
fn endpoints_are_built_from_the_host() {
    assert_eq!(stream_url("example.com"), "wss://example.com/connect");
    assert_eq!(play_endpoint("example.com"), "https://example.com/play");
    assert_eq!(stream_url(""), "wss:///connect");
}

#[test]
fn directives_build_their_documents() {
    let connect = CallDirective::SayAndConnect { host: "example.com".to_string() };
    assert_eq!(connect.document(), say_and_connect("example.com"));
    let play = CallDirective::PlayUrl { url: "https://example.com/play".to_string() };
    assert_eq!(play.document(), play_url("https://example.com/play"));
}

#[test]
fn wrap_twiml_puts_the_declaration_first() {
    assert_eq!(
        wrap_twiml("<Response></Response>".to_string()),
        "<?xml version=\"1.0\" encoding=\"UTF-8\"?><Response></Response>"
    );
    assert_eq!(wrap_twiml(String::new()), XML_DECLARATION);
}

#[test]
fn track_names_are_those_of_the_markup() {
    assert_eq!(StreamTrack::Inbound.name(), "inbound_track");
    assert_eq!(StreamTrack::Outbound.name(), "outbound_track");
    assert_eq!(StreamTrack::Both.name(), "both_tracks");
}

#[test]
fn default_actions_are_empty() {
    assert_eq!(
        SayAction::default(),
        SayAction { text: String::new(), voice: None, lp: None, language: None }
    );
    assert_eq!(PlayAction::default(), PlayAction { url: String::new(), lp: None });
    assert_eq!(
        StreamAction::default(),
        StreamAction { url: String::new(), name: None, track: None }
    );
}
