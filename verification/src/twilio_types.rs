//! Wire types of the media-stream protocol and of the call-control markup.
//!
//! Every type has a view, its mathematical value: strings become sequences of
//! characters and vectors become sequences. The contracts of the crate are
//! stated over these views.

use vstd::prelude::*;
use vstd::string::*;

verus! {

/// The characters of an optional string.
pub open spec fn optional_text(s: Option<String>) -> Option<Seq<char>> {
    match s {
        Some(s) => Some(s@),
        None => None,
    }
}

/// The characters of each of a list of strings.
pub open spec fn texts_view(texts: Seq<String>) -> Seq<Seq<char>> {
    Seq::new(texts.len(), |i: int| texts[i]@)
}

/// The characters of each of a list of named strings.
pub open spec fn pairs_view(pairs: Seq<(String, String)>) -> Seq<(Seq<char>, Seq<char>)> {
    Seq::new(pairs.len(), |i: int| (pairs[i].0@, pairs[i].1@))
}

// ---------------------------------------------------------------------------
// Call-control markup
// ---------------------------------------------------------------------------

/// The declaration that opens every call-control document.
pub const XML_DECLARATION: &'static str = "<?xml version=\"1.0\" encoding=\"UTF-8\"?>";

/// Puts the XML declaration in front of a serialized call-control document.
pub fn wrap_twiml(twiml: String) -> (wrapped: String)
    ensures
        wrapped@ == XML_DECLARATION@ + twiml@,
{
    let head = String::from_str(XML_DECLARATION);
    head.concat(twiml.as_str())
}

/// Which side of the call a media stream carries.
#[derive(Debug, Clone, Copy, PartialEq, Eq, Structural)]
pub enum StreamTrack {
    Inbound,
    Outbound,
    Both,
}

impl StreamTrack {
    /// The value of the `track` attribute for this direction.
    pub open spec fn spec_name(self) -> Seq<char> {
        match self {
            StreamTrack::Inbound => "inbound_track"@,
            StreamTrack::Outbound => "outbound_track"@,
            StreamTrack::Both => "both_tracks"@,
        }
    }

    /// The value of the `track` attribute for this direction.
    pub fn name(self) -> (name: &'static str)
        ensures
            name@ == self.spec_name(),
    {
        match self {
            StreamTrack::Inbound => "inbound_track",
            StreamTrack::Outbound => "outbound_track",
            StreamTrack::Both => "both_tracks",
        }
    }
}

/// A spoken prompt.
#[derive(Debug, Clone, PartialEq, Eq)]
pub struct SayAction {
    pub text: String,
    pub voice: Option<String>,
    pub lp: Option<u16>,
    pub language: Option<String>,
}

/// The mathematical value of a [`SayAction`].
pub ghost struct SayActionView {
    pub text: Seq<char>,
    pub voice: Option<Seq<char>>,
    pub lp: Option<u16>,
    pub language: Option<Seq<char>>,
}

impl View for SayAction {
    type V = SayActionView;

    open spec fn view(&self) -> SayActionView {
        SayActionView {
            text: self.text@,
            voice: optional_text(self.voice),
            lp: self.lp,
            language: optional_text(self.language),
        }
    }
}

impl Default for SayAction {
    fn default() -> (action: SayAction)
        ensures
            action@ == (SayActionView { text: Seq::empty(), voice: None, lp: None, language: None }),
    {
        SayAction { text: String::new(), voice: None, lp: None, language: None }
    }
}

/// Playback of a remote audio file.
#[derive(Debug, Clone, PartialEq, Eq)]
pub struct PlayAction {
    pub url: String,
    pub lp: Option<u16>,
}

/// The mathematical value of a [`PlayAction`].
pub ghost struct PlayActionView {
    pub url: Seq<char>,
    pub lp: Option<u16>,
}

impl View for PlayAction {
    type V = PlayActionView;

    open spec fn view(&self) -> PlayActionView {
        PlayActionView { url: self.url@, lp: self.lp }
    }
}

impl Default for PlayAction {
    fn default() -> (action: PlayAction)
        ensures
            action@ == (PlayActionView { url: Seq::empty(), lp: None }),
    {
        PlayAction { url: String::new(), lp: None }
    }
}

/// The instruction to open a media stream.
#[derive(Debug, Clone, PartialEq, Eq)]
pub struct StreamAction {
    pub url: String,
    pub name: Option<String>,
    pub track: Option<StreamTrack>,
}

/// The mathematical value of a [`StreamAction`].
pub ghost struct StreamActionView {
    pub url: Seq<char>,
    pub name: Option<Seq<char>>,
    pub track: Option<StreamTrack>,
}

impl View for StreamAction {
    type V = StreamActionView;

    open spec fn view(&self) -> StreamActionView {
        StreamActionView { url: self.url@, name: optional_text(self.name), track: self.track }
    }
}

impl Default for StreamAction {
    fn default() -> (action: StreamAction)
        ensures
            action@ == (StreamActionView { url: Seq::empty(), name: None, track: None }),
    {
        StreamAction { url: String::new(), name: None, track: None }
    }
}

/// What a connect directive connects the call to.
#[derive(Debug, Clone, PartialEq, Eq)]
pub enum Connection {
    Stream(StreamAction),
}

/// The mathematical value of a [`Connection`].
pub ghost enum ConnectionView {
    Stream(StreamActionView),
}

impl View for Connection {
    type V = ConnectionView;

    open spec fn view(&self) -> ConnectionView {
        match self {
            Connection::Stream(stream) => ConnectionView::Stream(stream@),
        }
    }
}

/// A connect directive.
#[derive(Debug, Clone, PartialEq, Eq)]
pub struct ConnectAction {
    pub connection: Connection,
}

/// The mathematical value of a [`ConnectAction`].
pub ghost struct ConnectActionView {
    pub connection: ConnectionView,
}

impl View for ConnectAction {
    type V = ConnectActionView;

    open spec fn view(&self) -> ConnectActionView {
        ConnectActionView { connection: self.connection@ }
    }
}

/// One directive of a call-control document.
#[derive(Debug, Clone, PartialEq, Eq)]
pub enum ResponseAction {
    Say(SayAction),
    Play(PlayAction),
    Connect(ConnectAction),
}

/// The mathematical value of a [`ResponseAction`].
pub ghost enum ResponseActionView {
    Say(SayActionView),
    Play(PlayActionView),
    Connect(ConnectActionView),
}

impl View for ResponseAction {
    type V = ResponseActionView;

    open spec fn view(&self) -> ResponseActionView {
        match self {
            ResponseAction::Say(say) => ResponseActionView::Say(say@),
            ResponseAction::Play(play) => ResponseActionView::Play(play@),
            ResponseAction::Connect(connect) => ResponseActionView::Connect(connect@),
        }
    }
}

/// A call-control document: its directives, in order.
#[derive(Debug, Clone, PartialEq, Eq)]
pub struct Response {
    pub actions: Vec<ResponseAction>,
}

/// The mathematical value of a [`Response`].
pub ghost struct ResponseView {
    pub actions: Seq<ResponseActionView>,
}

impl View for Response {
    type V = ResponseView;

    open spec fn view(&self) -> ResponseView {
        ResponseView { actions: Seq::new(self.actions@.len(), |i: int| self.actions@[i]@) }
    }
}

// ---------------------------------------------------------------------------
// Outbound events
// ---------------------------------------------------------------------------

/// The body of an outbound mark event.
#[derive(Debug, Clone, PartialEq, Eq)]
pub struct OutboundMarkMeta {
    pub name: String,
}

/// The body of an outbound media event: base64 text of headerless samples.
#[derive(Debug, Clone, PartialEq, Eq)]
pub struct OutboundMediaMeta {
    pub payload: String,
}

/// An event sent to the telephony platform.
#[derive(Debug, Clone, PartialEq, Eq)]
pub enum TwilioOutbound {
    Mark { mark: OutboundMarkMeta, stream_sid: String },
    Media { media: OutboundMediaMeta, stream_sid: String },
}

/// The mathematical value of a [`TwilioOutbound`].
pub ghost enum TwilioOutboundView {
    Mark { name: Seq<char>, stream_sid: Seq<char> },
    Media { payload: Seq<char>, stream_sid: Seq<char> },
}

impl View for TwilioOutbound {
    type V = TwilioOutboundView;

    open spec fn view(&self) -> TwilioOutboundView {
        match self {
            TwilioOutbound::Mark { mark, stream_sid } => TwilioOutboundView::Mark {
                name: mark.name@,
                stream_sid: stream_sid@,
            },
            TwilioOutbound::Media { media, stream_sid } => TwilioOutboundView::Media {
                payload: media.payload@,
                stream_sid: stream_sid@,
            },
        }
    }
}

impl TwilioOutboundView {
    /// The stream that the event is addressed to.
    pub open spec fn stream_sid(self) -> Seq<char> {
        match self {
            TwilioOutboundView::Mark { stream_sid, .. } => stream_sid,
            TwilioOutboundView::Media { stream_sid, .. } => stream_sid,
        }
    }
}

// ---------------------------------------------------------------------------
// Inbound events
// ---------------------------------------------------------------------------

/// The track that a media chunk belongs to.
#[derive(Debug, Clone, Copy, PartialEq, Eq, Structural)]
pub enum MediaTrack {
    Inbound,
    Outbound,
}

/// The negotiated format of the stream's audio.
#[derive(Debug, Clone, PartialEq, Eq)]
pub struct MediaFormat {
    pub encoding: String,
    pub sample_rate: u32,
    pub channels: u16,
}

/// The mathematical value of a [`MediaFormat`].
pub ghost struct MediaFormatView {
    pub encoding: Seq<char>,
    pub sample_rate: u32,
    pub channels: u16,
}

impl View for MediaFormat {
    type V = MediaFormatView;

    open spec fn view(&self) -> MediaFormatView {
        MediaFormatView {
            encoding: self.encoding@,
            sample_rate: self.sample_rate,
            channels: self.channels,
        }
    }
}

/// No name occurs twice among the named strings.
pub open spec fn distinct_names(pairs: Seq<(Seq<char>, Seq<char>)>) -> bool {
    forall|i: int, j: int| 0 <= i < j < pairs.len() ==> pairs[i].0 != pairs[j].0
}

/// Whether one of the named strings is named `name`.
pub open spec fn has_name(pairs: Seq<(Seq<char>, Seq<char>)>, name: Seq<char>) -> bool {
    exists|i: int| 0 <= i < pairs.len() && #[trigger] pairs[i].0 == name
}

/// The place of the first of the named strings that is named `name`.
pub open spec fn place_of(pairs: Seq<(Seq<char>, Seq<char>)>, name: Seq<char>) -> int {
    choose|i: int|
        0 <= i < pairs.len() && #[trigger] pairs[i].0 == name && forall|j: int|
            0 <= j < i ==> #[trigger] pairs[j].0 != name
}

/// The string named `name`, if there is one.
pub open spec fn named(pairs: Seq<(Seq<char>, Seq<char>)>, name: Seq<char>) -> Option<Seq<char>> {
    if has_name(pairs, name) {
        Some(pairs[place_of(pairs, name)].1)
    } else {
        None
    }
}

/// The named strings after `name` has been given `value`: a name that is
/// there keeps its place and gets the new value, a new name goes to the end.
pub open spec fn with_named(
    pairs: Seq<(Seq<char>, Seq<char>)>,
    name: Seq<char>,
    value: Seq<char>,
) -> Seq<(Seq<char>, Seq<char>)> {
    if has_name(pairs, name) {
        pairs.update(place_of(pairs, name), (name, value))
    } else {
        pairs.push((name, value))
    }
}

/// The first place at which `name` stands is a place at which it stands, and
/// it stands at none before.
pub proof fn lemma_place_of(pairs: Seq<(Seq<char>, Seq<char>)>, name: Seq<char>)
    requires
        has_name(pairs, name),
    ensures
        0 <= place_of(pairs, name) < pairs.len(),
        pairs[place_of(pairs, name)].0 == name,
        forall|j: int| 0 <= j < place_of(pairs, name) ==> #[trigger] pairs[j].0 != name,
{
    let some = choose|i: int| 0 <= i < pairs.len() && #[trigger] pairs[i].0 == name;
    lemma_first_place(pairs, name, some);
}

/// Below a place at which `name` stands there is a first such place.
proof fn lemma_first_place(pairs: Seq<(Seq<char>, Seq<char>)>, name: Seq<char>, at: int)
    requires
        0 <= at < pairs.len(),
        pairs[at].0 == name,
    ensures
        exists|i: int|
            0 <= i < pairs.len() && #[trigger] pairs[i].0 == name && forall|j: int|
                0 <= j < i ==> #[trigger] pairs[j].0 != name,
    decreases at,
{
    if exists|k: int| 0 <= k < at && #[trigger] pairs[k].0 == name {
        let k = choose|k: int| 0 <= k < at && #[trigger] pairs[k].0 == name;
        lemma_first_place(pairs, name, k);
    } else {
        assert(pairs[at].0 == name && forall|j: int| 0 <= j < at ==> #[trigger] pairs[j].0 != name);
    }
}

/// Giving a name a value keeps the names distinct, and the name then has
/// that value.
pub proof fn lemma_with_named(pairs: Seq<(Seq<char>, Seq<char>)>, name: Seq<char>, value: Seq<char>)
    requires
        distinct_names(pairs),
    ensures
        distinct_names(with_named(pairs, name, value)),
        named(with_named(pairs, name, value), name) == Some(value),
{
    let after = with_named(pairs, name, value);
    if has_name(pairs, name) {
        lemma_place_of(pairs, name);
        let at = place_of(pairs, name);
        assert(after[at].0 == name);
        assert forall|i: int| 0 <= i < after.len() implies after[i].0 == pairs[i].0 by {}
        lemma_place_of(after, name);
        let found = place_of(after, name);
        if found != at {
            assert(pairs[found].0 == pairs[at].0);
        }
    } else {
        let last = pairs.len() as int;
        assert(after[last].0 == name);
        assert forall|i: int, j: int| 0 <= i < j < after.len() implies after[i].0 != after[j].0 by {
            if j == last {
                assert(pairs[i].0 != name);
            }
        }
        lemma_place_of(after, name);
        let found = place_of(after, name);
        if found != last {
            assert(pairs[found].0 == name);
        }
    }
}

/// The metadata of a started stream.
///
/// `custom_parameters` is a map from names to values, held as a list in which
/// no name occurs twice (see [`StartMeta::well_formed`]).
#[derive(Debug, Clone, PartialEq, Eq)]
pub struct StartMeta {
    pub stream_sid: String,
    pub account_sid: String,
    pub call_sid: String,
    pub tracks: Vec<String>,
    pub custom_parameters: Vec<(String, String)>,
    pub media_format: MediaFormat,
}

/// The mathematical value of a [`StartMeta`].
pub ghost struct StartMetaView {
    pub stream_sid: Seq<char>,
    pub account_sid: Seq<char>,
    pub call_sid: Seq<char>,
    pub tracks: Seq<Seq<char>>,
    pub custom_parameters: Seq<(Seq<char>, Seq<char>)>,
    pub media_format: MediaFormatView,
}

impl View for StartMeta {
    type V = StartMetaView;

    open spec fn view(&self) -> StartMetaView {
        StartMetaView {
            stream_sid: self.stream_sid@,
            account_sid: self.account_sid@,
            call_sid: self.call_sid@,
            tracks: texts_view(self.tracks@),
            custom_parameters: pairs_view(self.custom_parameters@),
            media_format: self.media_format@,
        }
    }
}

/// Finds the place of `name` among the named strings.
pub fn find_parameter(parameters: &Vec<(String, String)>, name: &str) -> (place: Option<usize>)
    ensures
        match place {
            Some(at) => at < parameters.len() && has_name(pairs_view(parameters@), name@) && at
                == place_of(pairs_view(parameters@), name@),
            None => !has_name(pairs_view(parameters@), name@),
        },
{
    let ghost pairs = pairs_view(parameters@);
    let mut i: usize = 0;
    while i < parameters.len()
        invariant
            i <= parameters.len(),
            pairs == pairs_view(parameters@),
            forall|j: int| 0 <= j < i ==> #[trigger] pairs[j].0 != name@,
        decreases parameters.len() - i,
    {
        if parameters[i].0.as_str().eq(name) {
            proof {
                assert(pairs[i as int].0 == name@);
                lemma_place_of(pairs, name@);
                let first = place_of(pairs, name@);
                if first < i {
                    assert(pairs[first].0 != name@);
                }
            }
            return Some(i);
        }
        i = i + 1;
    }
    None
}

/// Gives `name` the value `value` among the named strings: a name that is
/// there keeps its place, a new name goes to the end.
pub fn set_parameter(parameters: &mut Vec<(String, String)>, name: String, value: String)
    ensures
        pairs_view(final(parameters)@) == with_named(pairs_view(old(parameters)@), name@, value@),
{
    let ghost before = pairs_view(parameters@);
    match find_parameter(parameters, name.as_str()) {
        Some(at) => {
            parameters.set(at, (name, value));
            assert(pairs_view(parameters@) =~= before.update(at as int, (name@, value@)));
        },
        None => {
            parameters.push((name, value));
            assert(pairs_view(parameters@) =~= before.push((name@, value@)));
        },
    }
}

impl StartMeta {
    /// No custom parameter is named twice.
    pub open spec fn well_formed(&self) -> bool {
        distinct_names(pairs_view(self.custom_parameters@))
    }

    /// The value of the custom parameter `name`, if the stream has one.
    pub fn custom_parameter(&self, name: &str) -> (value: Option<&String>)
        ensures
            match value {
                Some(v) => named(self@.custom_parameters, name@) == Some(v@),
                None => named(self@.custom_parameters, name@) is None,
            },
    {
        match find_parameter(&self.custom_parameters, name) {
            Some(at) => Some(&self.custom_parameters[at].1),
            None => None,
        }
    }
}

/// One chunk of call audio.
#[derive(Debug, Clone, PartialEq, Eq)]
pub struct MediaMeta {
    pub track: MediaTrack,
    pub chunk: String,
    pub timestamp: String,
    pub payload: String,
}

/// The mathematical value of a [`MediaMeta`].
pub ghost struct MediaMetaView {
    pub track: MediaTrack,
    pub chunk: Seq<char>,
    pub timestamp: Seq<char>,
    pub payload: Seq<char>,
}

impl View for MediaMeta {
    type V = MediaMetaView;

    open spec fn view(&self) -> MediaMetaView {
        MediaMetaView {
            track: self.track,
            chunk: self.chunk@,
            timestamp: self.timestamp@,
            payload: self.payload@,
        }
    }
}

/// The body of a stop event.
#[derive(Debug, Clone, PartialEq, Eq)]
pub struct StopMeta {
    pub account_sid: String,
    pub call_sid: String,
}

/// The mathematical value of a [`StopMeta`].
pub ghost struct StopMetaView {
    pub account_sid: Seq<char>,
    pub call_sid: Seq<char>,
}

impl View for StopMeta {
    type V = StopMetaView;

    open spec fn view(&self) -> StopMetaView {
        StopMetaView { account_sid: self.account_sid@, call_sid: self.call_sid@ }
    }
}

/// The body of an inbound mark event.
#[derive(Debug, Clone, PartialEq, Eq)]
pub struct MarkMeta {
    pub name: String,
}

/// An event received from the telephony platform.
#[derive(Debug, Clone, PartialEq, Eq)]
pub enum TwilioMessage {
    Connected { protocol: String, version: String },
    Start { sequence_number: String, start: StartMeta, stream_sid: String },
    Media { sequence_number: String, media: MediaMeta, stream_sid: String },
    Stop { sequence_number: String, stop: StopMeta, stream_sid: String },
    Mark { sequence_number: String, mark: MarkMeta, stream_sid: String },
}

/// The mathematical value of a [`TwilioMessage`].
pub ghost enum TwilioMessageView {
    Connected { protocol: Seq<char>, version: Seq<char> },
    Start { sequence_number: Seq<char>, start: StartMetaView, stream_sid: Seq<char> },
    Media { sequence_number: Seq<char>, media: MediaMetaView, stream_sid: Seq<char> },
    Stop { sequence_number: Seq<char>, stop: StopMetaView, stream_sid: Seq<char> },
    Mark { sequence_number: Seq<char>, name: Seq<char>, stream_sid: Seq<char> },
}

impl View for TwilioMessage {
    type V = TwilioMessageView;

    open spec fn view(&self) -> TwilioMessageView {
        match self {
            TwilioMessage::Connected { protocol, version } => TwilioMessageView::Connected {
                protocol: protocol@,
                version: version@,
            },
            TwilioMessage::Start { sequence_number, start, stream_sid } => TwilioMessageView::Start {
                sequence_number: sequence_number@,
                start: start@,
                stream_sid: stream_sid@,
            },
            TwilioMessage::Media { sequence_number, media, stream_sid } => TwilioMessageView::Media {
                sequence_number: sequence_number@,
                media: media@,
                stream_sid: stream_sid@,
            },
            TwilioMessage::Stop { sequence_number, stop, stream_sid } => TwilioMessageView::Stop {
                sequence_number: sequence_number@,
                stop: stop@,
                stream_sid: stream_sid@,
            },
            TwilioMessage::Mark { sequence_number, mark, stream_sid } => TwilioMessageView::Mark {
                sequence_number: sequence_number@,
                name: mark.name@,
                stream_sid: stream_sid@,
            },
        }
    }
}

} // verus!
