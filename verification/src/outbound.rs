//! The outbound message builder: raw samples and a stream identifier become
//! a media event, and an event becomes the JSON text of one text frame.

use crate::codec::{
    base64_bytes, base64_text, encodable, encode_samples, extract_samples, fits,
    samples_from_decoded, samples_of_decoded, CodecError,
};
use crate::json::{json_string, quote};
use crate::twilio_types::{OutboundMarkMeta, OutboundMediaMeta, TwilioOutbound, TwilioOutboundView};
use vstd::prelude::*;
use vstd::string::*;

verus! {

/// The text of a media event up to its payload.
pub const MEDIA_HEAD: &'static str = "{\"event\":\"media\",\"media\":{\"payload\":";

/// The text of a mark event up to its name.
pub const MARK_HEAD: &'static str = "{\"event\":\"mark\",\"mark\":{\"name\":";

/// The text between the body of an event and its stream identifier.
pub const SID_HEAD: &'static str = "},\"streamSid\":";

/// The text that closes an event.
pub const TAIL: &'static str = "}";

/// The JSON text of an outbound event: the `event` tag first, then the body,
/// then the stream identifier, with no space between them.
pub open spec fn outbound_text(event: TwilioOutboundView) -> Seq<char> {
    match event {
        TwilioOutboundView::Media { payload, stream_sid } => MEDIA_HEAD@ + json_string(payload)
            + SID_HEAD@ + json_string(stream_sid) + TAIL@,
        TwilioOutboundView::Mark { name, stream_sid } => MARK_HEAD@ + json_string(name) + SID_HEAD@
            + json_string(stream_sid) + TAIL@,
    }
}

/// The media event that carries `samples` to the stream `stream_sid`.
pub open spec fn media_event_of(samples: Seq<u8>, stream_sid: Seq<char>) -> TwilioOutboundView {
    TwilioOutboundView::Media { payload: base64_text(samples), stream_sid }
}

/// The frame that carries `samples` to the stream `stream_sid`.
pub open spec fn frame_of_samples(samples: Seq<u8>, stream_sid: Seq<char>) -> Result<
    Seq<char>,
    CodecError,
> {
    if encodable(samples.len()) {
        Ok(outbound_text(media_event_of(samples, stream_sid)))
    } else {
        Err(CodecError::Oversized)
    }
}

/// The frame that carries what decoding a payload gave to the stream
/// `stream_sid`.
pub open spec fn frame_of_decoded(decoded: Option<Seq<u8>>, stream_sid: Seq<char>) -> Result<
    Seq<char>,
    CodecError,
> {
    match samples_of_decoded(decoded) {
        Ok(samples) => frame_of_samples(samples, stream_sid),
        Err(e) => Err(e),
    }
}

/// Whether `outcome` is the exec form of `expected`.
pub open spec fn yields_text(
    outcome: Result<String, CodecError>,
    expected: Result<Seq<char>, CodecError>,
) -> bool {
    match outcome {
        Ok(text) => expected == Ok::<Seq<char>, CodecError>(text@),
        Err(e) => expected == Err::<Seq<char>, CodecError>(e),
    }
}

/// Builds the media event that carries `samples` to the stream `stream_sid`.
pub fn media_event(samples: &[u8], stream_sid: &str) -> (event: TwilioOutbound)
    requires
        encodable(samples@.len()),
    ensures
        event@ == media_event_of(samples@, stream_sid@),
        event@.stream_sid() == stream_sid@,
        event matches TwilioOutbound::Media { media, .. } && base64_bytes(media.payload@) == Some(
            samples@,
        ),
{
    TwilioOutbound::Media {
        media: OutboundMediaMeta { payload: encode_samples(samples) },
        stream_sid: String::from_str(stream_sid),
    }
}

/// Builds the mark event named `name` for the stream `stream_sid`.
pub fn mark_event(name: &str, stream_sid: &str) -> (event: TwilioOutbound)
    ensures
        event@ == (TwilioOutboundView::Mark { name: name@, stream_sid: stream_sid@ }),
{
    TwilioOutbound::Mark {
        mark: OutboundMarkMeta { name: String::from_str(name) },
        stream_sid: String::from_str(stream_sid),
    }
}

/// Writes the JSON text of an outbound event.
pub fn serialize_outbound(event: &TwilioOutbound) -> (text: String)
    ensures
        text@ == outbound_text(event@),
{
    match event {
        TwilioOutbound::Media { media, stream_sid } => {
            let mut text = String::from_str(MEDIA_HEAD);
            text.append(quote(media.payload.as_str()).as_str());
            text.append(SID_HEAD);
            text.append(quote(stream_sid.as_str()).as_str());
            text.append(TAIL);
            text
        },
        TwilioOutbound::Mark { mark, stream_sid } => {
            let mut text = String::from_str(MARK_HEAD);
            text.append(quote(mark.name.as_str()).as_str());
            text.append(SID_HEAD);
            text.append(quote(stream_sid.as_str()).as_str());
            text.append(TAIL);
            text
        },
    }
}

/// Frames raw samples for the stream `stream_sid`: the text of the one media
/// event that carries all of them. Samples too long to be encoded in memory
/// are an error.
pub fn frame_samples(samples: &[u8], stream_sid: &str) -> (outcome: Result<String, CodecError>)
    ensures
        yields_text(outcome, frame_of_samples(samples@, stream_sid@)),
        outcome is Ok ==> base64_bytes(base64_text(samples@)) == Some(samples@),
{
    if fits(samples.len()) {
        let event = media_event(samples, stream_sid);
        Ok(serialize_outbound(&event))
    } else {
        Err(CodecError::Oversized)
    }
}

/// Frames what decoding a synthesized payload gave.
pub fn frame_decoded(decoded: Option<Vec<u8>>, stream_sid: &str) -> (outcome: Result<
    String,
    CodecError,
>)
    ensures
        yields_text(
            outcome,
            frame_of_decoded(
                match decoded {
                    Some(bytes) => Some(bytes@),
                    None => None,
                },
                stream_sid@,
            ),
        ),
{
    match samples_from_decoded(decoded) {
        Ok(samples) => frame_samples(samples.as_slice(), stream_sid),
        Err(e) => Err(e),
    }
}

/// Frames a synthesized payload for the stream `stream_sid`: the payload is
/// decoded, its container header stripped, and the samples encoded again
/// into the text of one media event.
pub fn frame_payload(payload: &str, stream_sid: &str) -> (outcome: Result<String, CodecError>)
    ensures
        yields_text(outcome, frame_of_decoded(base64_bytes(payload@), stream_sid@)),
{
    match extract_samples(payload) {
        Ok(samples) => frame_samples(samples.as_slice(), stream_sid),
        Err(e) => Err(e),
    }
}

} // verus!
