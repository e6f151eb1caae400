//! The schema of inbound events: how a JSON document is read as a
//! [`TwilioMessage`].
//!
//! An event is a JSON object whose `event` member names its kind. The other
//! members are read by name; members that the schema does not name are
//! ignored. A missing member is an error unless the schema gives it a
//! default (`tracks` and `customParameters` default to empty).

use crate::json::{items_view, json_document, members_view, parse, Json, JsonValue};
use crate::twilio_types::{
    distinct_names, lemma_with_named, pairs_view, set_parameter, texts_view, with_named, MarkMeta,
    MediaFormat, MediaFormatView, MediaMeta, MediaMetaView, MediaTrack, StartMeta, StartMetaView,
    StopMeta, StopMetaView, TwilioMessage, TwilioMessageView,
};
use vstd::prelude::*;

verus! {

/// Why a frame is not an event.
#[derive(Debug, Clone, Copy, PartialEq, Eq, Structural)]
pub enum DecodeError {
    /// The frame is not JSON text.
    Malformed,
    /// The document is not an object.
    NotAnObject,
    /// The object has no `event` member that is a string.
    Untagged,
    /// The `event` member names no known event.
    UnknownEvent,
    /// A member of the named event is missing or has the wrong type.
    Schema,
}

/// The member that names the kind of an event.
pub const EVENT: &'static str = "event";

/// The tag of the connected event.
pub const CONNECTED: &'static str = "connected";

/// The tag of the start event, and the member that holds its body.
pub const START: &'static str = "start";

/// The tag of the media event, and the member that holds its body.
pub const MEDIA: &'static str = "media";

/// The tag of the stop event, and the member that holds its body.
pub const STOP: &'static str = "stop";

/// The tag of the mark event, and the member that holds its body.
pub const MARK: &'static str = "mark";

/// The member of a connected event that names the protocol.
pub const PROTOCOL: &'static str = "protocol";

/// The member of a connected event that gives the protocol version.
pub const VERSION: &'static str = "version";

/// The member that numbers an event within its stream.
pub const SEQUENCE_NUMBER: &'static str = "sequenceNumber";

/// The member that holds the stream identifier.
pub const STREAM_SID: &'static str = "streamSid";

/// The member that holds the account identifier.
pub const ACCOUNT_SID: &'static str = "accountSid";

/// The member that holds the call identifier.
pub const CALL_SID: &'static str = "callSid";

/// The member that lists the tracks of a stream.
pub const TRACKS: &'static str = "tracks";

/// The member that holds the custom parameters of a stream.
pub const CUSTOM_PARAMETERS: &'static str = "customParameters";

/// The member that holds the media format of a stream.
pub const MEDIA_FORMAT: &'static str = "mediaFormat";

/// The member that names the encoding of the audio.
pub const ENCODING: &'static str = "encoding";

/// The member that gives the sample rate of the audio.
pub const SAMPLE_RATE: &'static str = "sampleRate";

/// The member that gives the number of channels of the audio.
pub const CHANNELS: &'static str = "channels";

/// The member that names the track of a media chunk.
pub const TRACK: &'static str = "track";

/// The member that numbers a media chunk.
pub const CHUNK: &'static str = "chunk";

/// The member that gives the time of a media chunk.
pub const TIMESTAMP: &'static str = "timestamp";

/// The member that holds the audio of a media chunk.
pub const PAYLOAD: &'static str = "payload";

/// The member that names a mark.
pub const NAME: &'static str = "name";

/// The name of the inbound track.
pub const INBOUND: &'static str = "inbound";

/// The name of the outbound track.
pub const OUTBOUND: &'static str = "outbound";

// ---------------------------------------------------------------------------
// The schema, over the mathematical value of a document
// ---------------------------------------------------------------------------

/// The characters of the member `key`, where `doc` has one that is a string.
pub open spec fn text_member(doc: JsonValue, key: Seq<char>) -> Option<Seq<char>> {
    match doc.member(key) {
        Some(value) => value.text(),
        None => None,
    }
}

/// The value of the member `key`, where `doc` has one that is an integer
/// from 0 to `max`.
pub open spec fn integer_member(doc: JsonValue, key: Seq<char>, max: u64) -> Option<u64> {
    match doc.member(key) {
        Some(value) => match value.integer() {
            Some(n) => if n <= max {
                Some(n)
            } else {
                None
            },
            None => None,
        },
        None => None,
    }
}

/// The strings of an array of strings.
pub open spec fn texts_of(value: JsonValue) -> Option<Seq<Seq<char>>> {
    match value {
        JsonValue::Array(items) => if forall|i: int| 0 <= i < items.len() ==> (#[trigger] items[i]) is Text {
            Some(Seq::new(items.len(), |i: int| items[i]->Text_0))
        } else {
            None
        },
        _ => None,
    }
}

/// The named strings that the members give, taken in order: a name that
/// comes again takes the later value.
pub open spec fn collected(members: Seq<(Seq<char>, JsonValue)>) -> Seq<(Seq<char>, Seq<char>)>
    decreases members.len(),
{
    if members.len() == 0 {
        Seq::empty()
    } else {
        with_named(collected(members.drop_last()), members.last().0, members.last().1->Text_0)
    }
}

/// The named strings of an object whose members are all strings.
pub open spec fn parameters_of(value: JsonValue) -> Option<Seq<(Seq<char>, Seq<char>)>> {
    match value {
        JsonValue::Object(members) => if forall|i: int|
            0 <= i < members.len() ==> (#[trigger] members[i]).1 is Text {
            Some(collected(members))
        } else {
            None
        },
        _ => None,
    }
}

/// The track that a name stands for.
pub open spec fn track_of(name: Seq<char>) -> Option<MediaTrack> {
    if name == INBOUND@ {
        Some(MediaTrack::Inbound)
    } else if name == OUTBOUND@ {
        Some(MediaTrack::Outbound)
    } else {
        None
    }
}

/// The media format that `doc` holds.
pub open spec fn media_format_of(doc: JsonValue) -> Option<MediaFormatView> {
    match (
        text_member(doc, ENCODING@),
        integer_member(doc, SAMPLE_RATE@, u32::MAX as u64),
        integer_member(doc, CHANNELS@, u16::MAX as u64),
    ) {
        (Some(encoding), Some(rate), Some(channels)) => Some(
            MediaFormatView { encoding, sample_rate: rate as u32, channels: channels as u16 },
        ),
        _ => None,
    }
}

/// The tracks that `doc` lists: none where it has no `tracks` member.
pub open spec fn tracks_of(doc: JsonValue) -> Option<Seq<Seq<char>>> {
    match doc.member(TRACKS@) {
        Some(value) => texts_of(value),
        None => Some(Seq::empty()),
    }
}

/// The custom parameters that `doc` gives: none where it has no
/// `customParameters` member.
pub open spec fn custom_parameters_of(doc: JsonValue) -> Option<Seq<(Seq<char>, Seq<char>)>> {
    match doc.member(CUSTOM_PARAMETERS@) {
        Some(value) => parameters_of(value),
        None => Some(Seq::empty()),
    }
}

/// The format that `doc` gives in its `mediaFormat` member.
pub open spec fn format_member(doc: JsonValue) -> Option<MediaFormatView> {
    match doc.member(MEDIA_FORMAT@) {
        Some(value) => media_format_of(value),
        None => None,
    }
}

/// The stream metadata that `doc` holds.
pub open spec fn start_meta_of(doc: JsonValue) -> Option<StartMetaView> {
    match (
        text_member(doc, STREAM_SID@),
        text_member(doc, ACCOUNT_SID@),
        text_member(doc, CALL_SID@),
        tracks_of(doc),
        custom_parameters_of(doc),
        format_member(doc),
    ) {
        (
            Some(stream_sid),
            Some(account_sid),
            Some(call_sid),
            Some(tracks),
            Some(custom_parameters),
            Some(media_format),
        ) => Some(
            StartMetaView {
                stream_sid,
                account_sid,
                call_sid,
                tracks,
                custom_parameters,
                media_format,
            },
        ),
        _ => None,
    }
}

/// The track that `doc` names in its `track` member.
pub open spec fn track_member(doc: JsonValue) -> Option<MediaTrack> {
    match text_member(doc, TRACK@) {
        Some(name) => track_of(name),
        None => None,
    }
}

/// The media chunk that `doc` holds.
pub open spec fn media_meta_of(doc: JsonValue) -> Option<MediaMetaView> {
    match (
        track_member(doc),
        text_member(doc, CHUNK@),
        text_member(doc, TIMESTAMP@),
        text_member(doc, PAYLOAD@),
    ) {
        (Some(track), Some(chunk), Some(timestamp), Some(payload)) => Some(
            MediaMetaView { track, chunk, timestamp, payload },
        ),
        _ => None,
    }
}

/// The body of a stop event that `doc` holds.
pub open spec fn stop_meta_of(doc: JsonValue) -> Option<StopMetaView> {
    match (text_member(doc, ACCOUNT_SID@), text_member(doc, CALL_SID@)) {
        (Some(account_sid), Some(call_sid)) => Some(StopMetaView { account_sid, call_sid }),
        _ => None,
    }
}

/// The connected event that `doc` holds.
pub open spec fn connected_of(doc: JsonValue) -> Option<TwilioMessageView> {
    match (text_member(doc, PROTOCOL@), text_member(doc, VERSION@)) {
        (Some(protocol), Some(version)) => Some(TwilioMessageView::Connected { protocol, version }),
        _ => None,
    }
}

/// The body of the event `doc`, read by `read` from its member `key`.
pub open spec fn body_of<T>(doc: JsonValue, key: Seq<char>, read: spec_fn(JsonValue) -> Option<T>) -> Option<T> {
    match doc.member(key) {
        Some(value) => read(value),
        None => None,
    }
}

/// The start event that `doc` holds.
pub open spec fn start_of(doc: JsonValue) -> Option<TwilioMessageView> {
    match (
        text_member(doc, SEQUENCE_NUMBER@),
        body_of(doc, START@, |body: JsonValue| start_meta_of(body)),
        text_member(doc, STREAM_SID@),
    ) {
        (Some(sequence_number), Some(start), Some(stream_sid)) => Some(
            TwilioMessageView::Start { sequence_number, start, stream_sid },
        ),
        _ => None,
    }
}

/// The media event that `doc` holds.
pub open spec fn media_of(doc: JsonValue) -> Option<TwilioMessageView> {
    match (
        text_member(doc, SEQUENCE_NUMBER@),
        body_of(doc, MEDIA@, |body: JsonValue| media_meta_of(body)),
        text_member(doc, STREAM_SID@),
    ) {
        (Some(sequence_number), Some(media), Some(stream_sid)) => Some(
            TwilioMessageView::Media { sequence_number, media, stream_sid },
        ),
        _ => None,
    }
}

/// The stop event that `doc` holds.
pub open spec fn stop_of(doc: JsonValue) -> Option<TwilioMessageView> {
    match (
        text_member(doc, SEQUENCE_NUMBER@),
        body_of(doc, STOP@, |body: JsonValue| stop_meta_of(body)),
        text_member(doc, STREAM_SID@),
    ) {
        (Some(sequence_number), Some(stop), Some(stream_sid)) => Some(
            TwilioMessageView::Stop { sequence_number, stop, stream_sid },
        ),
        _ => None,
    }
}

/// The mark event that `doc` holds.
pub open spec fn mark_of(doc: JsonValue) -> Option<TwilioMessageView> {
    match (
        text_member(doc, SEQUENCE_NUMBER@),
        body_of(doc, MARK@, |body: JsonValue| text_member(body, NAME@)),
        text_member(doc, STREAM_SID@),
    ) {
        (Some(sequence_number), Some(name), Some(stream_sid)) => Some(
            TwilioMessageView::Mark { sequence_number, name, stream_sid },
        ),
        _ => None,
    }
}

/// The event of the kind `tag` that `doc` holds.
pub open spec fn tagged_of(doc: JsonValue, tag: Seq<char>) -> Result<TwilioMessageView, DecodeError> {
    let body = if tag == CONNECTED@ {
        Some(connected_of(doc))
    } else if tag == START@ {
        Some(start_of(doc))
    } else if tag == MEDIA@ {
        Some(media_of(doc))
    } else if tag == STOP@ {
        Some(stop_of(doc))
    } else if tag == MARK@ {
        Some(mark_of(doc))
    } else {
        None
    };
    match body {
        None => Err(DecodeError::UnknownEvent),
        Some(None) => Err(DecodeError::Schema),
        Some(Some(message)) => Ok(message),
    }
}

/// The event that a document holds, or why it holds none.
pub open spec fn message_of(doc: JsonValue) -> Result<TwilioMessageView, DecodeError> {
    if !(doc is Object) {
        Err(DecodeError::NotAnObject)
    } else {
        match text_member(doc, EVENT@) {
            None => Err(DecodeError::Untagged),
            Some(tag) => tagged_of(doc, tag),
        }
    }
}

/// The event that the text of a frame holds, or why it holds none.
pub open spec fn frame_message(text: Seq<char>) -> Result<TwilioMessageView, DecodeError> {
    match json_document(text) {
        None => Err(DecodeError::Malformed),
        Some(doc) => message_of(doc),
    }
}

/// Whether `outcome` is the exec form of `expected`.
pub open spec fn decodes_to(
    outcome: Result<TwilioMessage, DecodeError>,
    expected: Result<TwilioMessageView, DecodeError>,
) -> bool {
    match outcome {
        Ok(message) => expected == Ok::<TwilioMessageView, DecodeError>(message@),
        Err(e) => expected == Err::<TwilioMessageView, DecodeError>(e),
    }
}

/// The five event tags are five different strings.
pub proof fn lemma_tags_differ()
    ensures
        CONNECTED@ != START@,
        CONNECTED@ != MEDIA@,
        CONNECTED@ != STOP@,
        CONNECTED@ != MARK@,
        START@ != MEDIA@,
        START@ != STOP@,
        START@ != MARK@,
        MEDIA@ != STOP@,
        MEDIA@ != MARK@,
        STOP@ != MARK@,
{
    reveal_strlit("connected");
    reveal_strlit("start");
    reveal_strlit("media");
    reveal_strlit("stop");
    reveal_strlit("mark");
    assert(CONNECTED@.len() == 9);
    assert(START@.len() == 5);
    assert(MEDIA@.len() == 5);
    assert(STOP@.len() == 4);
    assert(MARK@.len() == 4);
    assert(START@[0] == 's');
    assert(MEDIA@[0] == 'm');
    assert(STOP@[0] == 's');
    assert(MARK@[0] == 'm');
}

// ---------------------------------------------------------------------------
// The schema, run on a document
// ---------------------------------------------------------------------------

/// Copies the member `key`, where `doc` has one that is a string.
pub fn read_text(doc: &Json, key: &str) -> (found: Option<String>)
    ensures
        match found {
            Some(s) => text_member(doc@, key@) == Some(s@),
            None => text_member(doc@, key@) is None,
        },
{
    match doc.member(key) {
        Some(value) => match value.as_text() {
            Some(s) => Some(s.clone()),
            None => None,
        },
        None => None,
    }
}

/// Reads the member `key`, where `doc` has one that is an integer from 0 to
/// `max`.
pub fn read_integer(doc: &Json, key: &str, max: u64) -> (found: Option<u64>)
    ensures
        found == integer_member(doc@, key@, max),
{
    match doc.member(key) {
        Some(value) => match value.as_integer() {
            Some(n) => if n <= max {
                Some(n)
            } else {
                None
            },
            None => None,
        },
        None => None,
    }
}

/// Copies the strings of an array of strings.
pub fn read_texts(value: &Json) -> (found: Option<Vec<String>>)
    ensures
        match found {
            Some(texts) => texts_of(value@) == Some(texts_view(texts@)),
            None => texts_of(value@) is None,
        },
{
    match value.as_array() {
        None => None,
        Some(items) => {
            let ghost all = items_view(items@);
            let mut texts: Vec<String> = Vec::new();
            let mut i: usize = 0;
            while i < items.len()
                invariant
                    i <= items.len(),
                    texts@.len() == i,
                    all == items_view(items@),
                    value@ == JsonValue::Array(all),
                    forall|j: int| 0 <= j < i ==> (#[trigger] all[j]) is Text,
                    forall|j: int| 0 <= j < i ==> (#[trigger] texts@[j])@ == all[j]->Text_0,
                decreases items.len() - i,
            {
                match items[i].as_text() {
                    Some(s) => {
                        texts.push(s.clone());
                    },
                    None => {
                        assert(!(all[i as int] is Text));
                        return None;
                    },
                }
                i = i + 1;
            }
            assert(texts_view(texts@) =~= Seq::new(all.len(), |j: int| all[j]->Text_0));
            Some(texts)
        },
    }
}

/// Collects the named strings of an object whose members are all strings.
pub fn read_parameters(value: &Json) -> (found: Option<Vec<(String, String)>>)
    ensures
        match found {
            Some(parameters) => parameters_of(value@) == Some(pairs_view(parameters@))
                && distinct_names(pairs_view(parameters@)),
            None => parameters_of(value@) is None,
        },
{
    match value.as_object() {
        None => None,
        Some(members) => {
            let ghost all = members_view(members@);
            let mut parameters: Vec<(String, String)> = Vec::new();
            let mut i: usize = 0;
            assert(all.take(0) =~= Seq::empty());
            while i < members.len()
                invariant
                    i <= members.len(),
                    all == members_view(members@),
                    value@ == JsonValue::Object(all),
                    forall|j: int| 0 <= j < i ==> (#[trigger] all[j]).1 is Text,
                    pairs_view(parameters@) == collected(all.take(i as int)),
                    distinct_names(pairs_view(parameters@)),
                decreases members.len() - i,
            {
                let ghost before = pairs_view(parameters@);
                match members[i].value.as_text() {
                    Some(s) => {
                        set_parameter(&mut parameters, members[i].name.clone(), s.clone());
                        proof {
                            let upto = all.take(i + 1);
                            assert(upto.drop_last() =~= all.take(i as int));
                            assert(upto.last() == all[i as int]);
                            lemma_with_named(before, all[i as int].0, all[i as int].1->Text_0);
                        }
                    },
                    None => {
                        assert(!(all[i as int].1 is Text));
                        return None;
                    },
                }
                i = i + 1;
            }
            assert(all.take(i as int) =~= all);
            Some(parameters)
        },
    }
}

/// Reads the track that a name stands for.
pub fn read_track(name: &str) -> (found: Option<MediaTrack>)
    ensures
        found == track_of(name@),
{
    if name.eq(INBOUND) {
        Some(MediaTrack::Inbound)
    } else if name.eq(OUTBOUND) {
        Some(MediaTrack::Outbound)
    } else {
        None
    }
}

/// Reads the media format that `doc` holds.
pub fn read_media_format(doc: &Json) -> (found: Option<MediaFormat>)
    ensures
        match found {
            Some(format) => media_format_of(doc@) == Some(format@),
            None => media_format_of(doc@) is None,
        },
{
    let encoding = match read_text(doc, ENCODING) {
        Some(s) => s,
        None => return None,
    };
    let rate = match read_integer(doc, SAMPLE_RATE, u32::MAX as u64) {
        Some(n) => n,
        None => return None,
    };
    let channels = match read_integer(doc, CHANNELS, u16::MAX as u64) {
        Some(n) => n,
        None => return None,
    };
    Some(MediaFormat { encoding, sample_rate: rate as u32, channels: channels as u16 })
}

/// Reads the stream metadata that `doc` holds.
pub fn read_start_meta(doc: &Json) -> (found: Option<StartMeta>)
    ensures
        match found {
            Some(meta) => start_meta_of(doc@) == Some(meta@) && meta.well_formed(),
            None => start_meta_of(doc@) is None,
        },
{
    let stream_sid = match read_text(doc, STREAM_SID) {
        Some(s) => s,
        None => return None,
    };
    let account_sid = match read_text(doc, ACCOUNT_SID) {
        Some(s) => s,
        None => return None,
    };
    let call_sid = match read_text(doc, CALL_SID) {
        Some(s) => s,
        None => return None,
    };
    let tracks = match doc.member(TRACKS) {
        Some(value) => match read_texts(value) {
            Some(texts) => texts,
            None => return None,
        },
        None => {
            let none: Vec<String> = Vec::new();
            assert(texts_view(none@) =~= Seq::empty());
            none
        },
    };
    let custom_parameters = match doc.member(CUSTOM_PARAMETERS) {
        Some(value) => match read_parameters(value) {
            Some(parameters) => parameters,
            None => return None,
        },
        None => {
            let none: Vec<(String, String)> = Vec::new();
            assert(pairs_view(none@) =~= Seq::empty());
            none
        },
    };
    let media_format = match doc.member(MEDIA_FORMAT) {
        Some(value) => match read_media_format(value) {
            Some(format) => format,
            None => return None,
        },
        None => return None,
    };
    Some(StartMeta { stream_sid, account_sid, call_sid, tracks, custom_parameters, media_format })
}

/// Reads the media chunk that `doc` holds.
pub fn read_media_meta(doc: &Json) -> (found: Option<MediaMeta>)
    ensures
        match found {
            Some(meta) => media_meta_of(doc@) == Some(meta@),
            None => media_meta_of(doc@) is None,
        },
{
    let track = match read_text(doc, TRACK) {
        Some(name) => match read_track(name.as_str()) {
            Some(track) => track,
            None => return None,
        },
        None => return None,
    };
    let chunk = match read_text(doc, CHUNK) {
        Some(s) => s,
        None => return None,
    };
    let timestamp = match read_text(doc, TIMESTAMP) {
        Some(s) => s,
        None => return None,
    };
    let payload = match read_text(doc, PAYLOAD) {
        Some(s) => s,
        None => return None,
    };
    Some(MediaMeta { track, chunk, timestamp, payload })
}

/// Reads the body of a stop event that `doc` holds.
pub fn read_stop_meta(doc: &Json) -> (found: Option<StopMeta>)
    ensures
        match found {
            Some(meta) => stop_meta_of(doc@) == Some(meta@),
            None => stop_meta_of(doc@) is None,
        },
{
    let account_sid = match read_text(doc, ACCOUNT_SID) {
        Some(s) => s,
        None => return None,
    };
    let call_sid = match read_text(doc, CALL_SID) {
        Some(s) => s,
        None => return None,
    };
    Some(StopMeta { account_sid, call_sid })
}

/// Whether `found` is the exec form of `expected`.
pub open spec fn reads_as(found: Option<TwilioMessage>, expected: Option<TwilioMessageView>) -> bool {
    match found {
        Some(message) => expected == Some(message@),
        None => expected is None,
    }
}

/// Reads the connected event that `doc` holds.
pub fn read_connected(doc: &Json) -> (found: Option<TwilioMessage>)
    ensures
        reads_as(found, connected_of(doc@)),
{
    let protocol = match read_text(doc, PROTOCOL) {
        Some(s) => s,
        None => return None,
    };
    let version = match read_text(doc, VERSION) {
        Some(s) => s,
        None => return None,
    };
    Some(TwilioMessage::Connected { protocol, version })
}

/// Reads the start event that `doc` holds.
pub fn read_start(doc: &Json) -> (found: Option<TwilioMessage>)
    ensures
        reads_as(found, start_of(doc@)),
        found matches Some(TwilioMessage::Start { start, .. }) ==> start.well_formed(),
{
    let sequence_number = match read_text(doc, SEQUENCE_NUMBER) {
        Some(s) => s,
        None => return None,
    };
    let start = match doc.member(START) {
        Some(body) => match read_start_meta(body) {
            Some(meta) => meta,
            None => return None,
        },
        None => return None,
    };
    let stream_sid = match read_text(doc, STREAM_SID) {
        Some(s) => s,
        None => return None,
    };
    Some(TwilioMessage::Start { sequence_number, start, stream_sid })
}

/// Reads the media event that `doc` holds.
pub fn read_media(doc: &Json) -> (found: Option<TwilioMessage>)
    ensures
        reads_as(found, media_of(doc@)),
{
    let sequence_number = match read_text(doc, SEQUENCE_NUMBER) {
        Some(s) => s,
        None => return None,
    };
    let media = match doc.member(MEDIA) {
        Some(body) => match read_media_meta(body) {
            Some(meta) => meta,
            None => return None,
        },
        None => return None,
    };
    let stream_sid = match read_text(doc, STREAM_SID) {
        Some(s) => s,
        None => return None,
    };
    Some(TwilioMessage::Media { sequence_number, media, stream_sid })
}

/// Reads the stop event that `doc` holds.
pub fn read_stop(doc: &Json) -> (found: Option<TwilioMessage>)
    ensures
        reads_as(found, stop_of(doc@)),
{
    let sequence_number = match read_text(doc, SEQUENCE_NUMBER) {
        Some(s) => s,
        None => return None,
    };
    let stop = match doc.member(STOP) {
        Some(body) => match read_stop_meta(body) {
            Some(meta) => meta,
            None => return None,
        },
        None => return None,
    };
    let stream_sid = match read_text(doc, STREAM_SID) {
        Some(s) => s,
        None => return None,
    };
    Some(TwilioMessage::Stop { sequence_number, stop, stream_sid })
}

/// Reads the mark event that `doc` holds.
pub fn read_mark(doc: &Json) -> (found: Option<TwilioMessage>)
    ensures
        reads_as(found, mark_of(doc@)),
{
    let sequence_number = match read_text(doc, SEQUENCE_NUMBER) {
        Some(s) => s,
        None => return None,
    };
    let name = match doc.member(MARK) {
        Some(body) => match read_text(body, NAME) {
            Some(s) => s,
            None => return None,
        },
        None => return None,
    };
    let stream_sid = match read_text(doc, STREAM_SID) {
        Some(s) => s,
        None => return None,
    };
    Some(TwilioMessage::Mark { sequence_number, mark: MarkMeta { name }, stream_sid })
}

/// Reads a document as an event. The outcome is the event that the schema
/// gives for the document; an error says why the document is no event.
pub fn decode_message(doc: &Json) -> (outcome: Result<TwilioMessage, DecodeError>)
    ensures
        decodes_to(outcome, message_of(doc@)),
        outcome matches Ok(TwilioMessage::Start { start, .. }) ==> start.well_formed(),
{
    match doc {
        Json::Object(_) => {},
        _ => {
            return Err(DecodeError::NotAnObject);
        },
    }
    let tag = match read_text(doc, EVENT) {
        Some(tag) => tag,
        None => {
            return Err(DecodeError::Untagged);
        },
    };
    let found = if tag.as_str().eq(CONNECTED) {
        read_connected(doc)
    } else if tag.as_str().eq(START) {
        read_start(doc)
    } else if tag.as_str().eq(MEDIA) {
        read_media(doc)
    } else if tag.as_str().eq(STOP) {
        read_stop(doc)
    } else if tag.as_str().eq(MARK) {
        read_mark(doc)
    } else {
        return Err(DecodeError::UnknownEvent);
    };
    match found {
        Some(message) => Ok(message),
        None => Err(DecodeError::Schema),
    }
}

/// Turns what reading the text of a frame gave into an event.
pub fn decode_parsed(parsed: Option<Json>) -> (outcome: Result<TwilioMessage, DecodeError>)
    ensures
        match parsed {
            Some(doc) => decodes_to(outcome, message_of(doc@)),
            None => outcome == Err::<TwilioMessage, DecodeError>(DecodeError::Malformed),
        },
        outcome matches Ok(TwilioMessage::Start { start, .. }) ==> start.well_formed(),
{
    match parsed {
        Some(doc) => decode_message(&doc),
        None => Err(DecodeError::Malformed),
    }
}

/// Reads the text of a frame as an event.
pub fn decode_frame(text: &str) -> (outcome: Result<TwilioMessage, DecodeError>)
    ensures
        decodes_to(outcome, frame_message(text@)),
        outcome matches Ok(TwilioMessage::Start { start, .. }) ==> start.well_formed(),
{
    decode_parsed(parse(text))
}

} // verus!
