//! The call-control documents that the call-setup webhook answers with.
//!
//! A document is built here as a [`Response`]; serializing it to XML, with
//! the escaping that XML asks for, is left to the caller's serializer.

use crate::twilio_types::{
    ConnectAction, ConnectActionView, Connection, ConnectionView, PlayAction, PlayActionView,
    Response, ResponseAction, ResponseActionView, ResponseView, SayAction, SayActionView,
    StreamAction, StreamActionView, StreamTrack,
};
use vstd::prelude::*;
use vstd::string::*;

verus! {

/// The prompt that is spoken before the stream is connected.
pub const GREETING: &'static str = "Hi. I'm your Twilio host. Welcome!";

/// The scheme of the media-stream endpoint.
pub const STREAM_SCHEME: &'static str = "wss://";

/// The path of the media-stream endpoint.
pub const STREAM_PATH: &'static str = "/connect";

/// The scheme of the playback endpoint.
pub const PLAY_SCHEME: &'static str = "https://";

/// The path of the playback endpoint.
pub const PLAY_PATH: &'static str = "/play";

/// The address of the media-stream endpoint of `host`.
pub open spec fn stream_url_of(host: Seq<char>) -> Seq<char> {
    STREAM_SCHEME@ + host + STREAM_PATH@
}

/// The address of the playback endpoint of `host`.
pub open spec fn play_endpoint_of(host: Seq<char>) -> Seq<char> {
    PLAY_SCHEME@ + host + PLAY_PATH@
}

/// The document that greets the caller and then connects the call's inbound
/// track to the media-stream endpoint of `host`.
pub open spec fn say_and_connect_document(host: Seq<char>) -> ResponseView {
    ResponseView {
        actions: seq![
            ResponseActionView::Say(
                SayActionView { text: GREETING@, voice: None, lp: None, language: None },
            ),
            ResponseActionView::Connect(
                ConnectActionView {
                    connection: ConnectionView::Stream(
                        StreamActionView {
                            url: stream_url_of(host),
                            name: None,
                            track: Some(StreamTrack::Inbound),
                        },
                    ),
                },
            ),
        ],
    }
}

/// The document that plays the audio at `url`.
pub open spec fn play_document(url: Seq<char>) -> ResponseView {
    ResponseView { actions: seq![ResponseActionView::Play(PlayActionView { url, lp: None })] }
}

/// Builds the address of the media-stream endpoint of `host`.
pub fn stream_url(host: &str) -> (url: String)
    ensures
        url@ == stream_url_of(host@),
{
    let mut url = String::from_str(STREAM_SCHEME);
    url.append(host);
    url.append(STREAM_PATH);
    url
}

/// Builds the address of the playback endpoint of `host`.
pub fn play_endpoint(host: &str) -> (url: String)
    ensures
        url@ == play_endpoint_of(host@),
{
    let mut url = String::from_str(PLAY_SCHEME);
    url.append(host);
    url.append(PLAY_PATH);
    url
}

/// Builds the document that greets the caller and then connects the call's
/// inbound track to the media-stream endpoint of `host`.
pub fn say_and_connect(host: &str) -> (document: Response)
    ensures
        document@ == say_and_connect_document(host@),
{
    let say = SayAction { text: String::from_str(GREETING), voice: None, lp: None, language: None };
    let stream = StreamAction { url: stream_url(host), name: None, track: Some(StreamTrack::Inbound) };
    let connect = ConnectAction { connection: Connection::Stream(stream) };
    let mut actions: Vec<ResponseAction> = Vec::new();
    actions.push(ResponseAction::Say(say));
    actions.push(ResponseAction::Connect(connect));
    let document = Response { actions };
    assert(document@.actions =~= say_and_connect_document(host@).actions);
    document
}

/// Builds the document that plays the audio at `url`; the address is taken
/// as it is.
pub fn play_url(url: &str) -> (document: Response)
    ensures
        document@ == play_document(url@),
{
    let play = PlayAction { url: String::from_str(url), lp: None };
    let mut actions: Vec<ResponseAction> = Vec::new();
    actions.push(ResponseAction::Play(play));
    let document = Response { actions };
    assert(document@.actions =~= play_document(url@).actions);
    document
}

/// A call-control document that the webhook can answer with.
#[derive(Debug, Clone, PartialEq, Eq)]
pub enum CallDirective {
    /// Greet the caller, then connect the call to the media stream of a host.
    SayAndConnect { host: String },
    /// Play the audio at an address.
    PlayUrl { url: String },
}

impl CallDirective {
    /// The document of this directive.
    pub open spec fn document_of(self) -> ResponseView {
        match self {
            CallDirective::SayAndConnect { host } => say_and_connect_document(host@),
            CallDirective::PlayUrl { url } => play_document(url@),
        }
    }

    /// Builds the document of this directive.
    pub fn document(&self) -> (document: Response)
        ensures
            document@ == self.document_of(),
    {
        match self {
            CallDirective::SayAndConnect { host } => say_and_connect(host.as_str()),
            CallDirective::PlayUrl { url } => play_url(url.as_str()),
        }
    }
}

} // verus!
