//! The send pipeline of one session, as a state machine.
//!
//! The sender waits for the stream identifier, lets a startup delay pass,
//! asks for the utterance to be synthesized, and frames the synthesized
//! audio as one media event. Waiting, sleeping, synthesizing and sending are
//! done by the caller: each thing that happened is handed to
//! [`Sender::on_event`], which answers with what to do next.
//!
//! Known limitation: the whole utterance goes out as a single frame; it is
//! not cut into chunks.

use crate::codec::{base64_bytes, CodecError};
use crate::outbound::{frame_of_decoded, frame_payload};
use vstd::prelude::*;
use vstd::string::*;

verus! {

/// The utterance that is spoken into every stream.
pub const UTTERANCE: &'static str =
    "Now is the winter of our discontent\nMade glorious summer by this sun of York.\nSome are born great, some achieve greatness\nAnd some have greatness thrust upon them.\nFriends, Romans, countrymen - lend me your ears!\n";

/// The language of the synthesized voice.
pub const LANGUAGE_CODE: &'static str = "en-US";

/// The name of the synthesized voice.
pub const VOICE_NAME: &'static str = "en-US-Standard-E";

/// The sample rate of telephony audio, in hertz.
pub const TELEPHONY_RATE: u32 = 8000;

/// The delay between the handoff and the synthesis to use by default, in
/// milliseconds.
pub const STARTUP_DELAY_MILLIS: u64 = 1000;

/// The gender of a synthesized voice.
#[derive(Debug, Clone, Copy, PartialEq, Eq, Structural)]
pub enum VoiceGender {
    Unspecified,
    Male,
    Female,
    Neutral,
}

/// The encoding that synthesized audio is asked in.
#[derive(Debug, Clone, Copy, PartialEq, Eq, Structural)]
pub enum AudioEncoding {
    /// Companded telephony samples in a container.
    Mulaw,
    /// Compressed audio for playback.
    Mp3,
}

/// What the synthesis backend is asked for.
#[derive(Debug, Clone, PartialEq, Eq)]
pub struct SynthesisRequest {
    pub text: String,
    pub language_code: String,
    pub voice_name: String,
    pub gender: VoiceGender,
    pub encoding: AudioEncoding,
    pub sample_rate_hertz: Option<u32>,
}

/// The mathematical value of a [`SynthesisRequest`].
pub ghost struct SynthesisRequestView {
    pub text: Seq<char>,
    pub language_code: Seq<char>,
    pub voice_name: Seq<char>,
    pub gender: VoiceGender,
    pub encoding: AudioEncoding,
    pub sample_rate_hertz: Option<u32>,
}

impl View for SynthesisRequest {
    type V = SynthesisRequestView;

    open spec fn view(&self) -> SynthesisRequestView {
        SynthesisRequestView {
            text: self.text@,
            language_code: self.language_code@,
            voice_name: self.voice_name@,
            gender: self.gender,
            encoding: self.encoding,
            sample_rate_hertz: self.sample_rate_hertz,
        }
    }
}

/// The request for `text` as telephony audio: companded samples at 8 kHz.
pub open spec fn telephony_request(text: Seq<char>) -> SynthesisRequestView {
    SynthesisRequestView {
        text,
        language_code: LANGUAGE_CODE@,
        voice_name: VOICE_NAME@,
        gender: VoiceGender::Female,
        encoding: AudioEncoding::Mulaw,
        sample_rate_hertz: Some(TELEPHONY_RATE),
    }
}

/// The request for `text` as audio for playback.
pub open spec fn playback_request(text: Seq<char>) -> SynthesisRequestView {
    SynthesisRequestView {
        text,
        language_code: LANGUAGE_CODE@,
        voice_name: VOICE_NAME@,
        gender: VoiceGender::Female,
        encoding: AudioEncoding::Mp3,
        sample_rate_hertz: None,
    }
}

impl SynthesisRequest {
    /// Asks for `text` as telephony audio: companded samples at 8 kHz.
    pub fn telephony(text: &str) -> (request: SynthesisRequest)
        ensures
            request@ == telephony_request(text@),
    {
        SynthesisRequest {
            text: String::from_str(text),
            language_code: String::from_str(LANGUAGE_CODE),
            voice_name: String::from_str(VOICE_NAME),
            gender: VoiceGender::Female,
            encoding: AudioEncoding::Mulaw,
            sample_rate_hertz: Some(TELEPHONY_RATE),
        }
    }

    /// Asks for `text` as audio for playback.
    pub fn playback(text: &str) -> (request: SynthesisRequest)
        ensures
            request@ == playback_request(text@),
    {
        SynthesisRequest {
            text: String::from_str(text),
            language_code: String::from_str(LANGUAGE_CODE),
            voice_name: String::from_str(VOICE_NAME),
            gender: VoiceGender::Female,
            encoding: AudioEncoding::Mp3,
            sample_rate_hertz: None,
        }
    }
}

/// Where the send pipeline stands.
#[derive(Debug, Clone, PartialEq, Eq)]
pub enum SenderState {
    /// The stream identifier has not come yet.
    AwaitingSid,
    /// The identifier is there and the startup delay is running.
    Delaying { stream_sid: String },
    /// The synthesis backend is at work.
    Synthesizing { stream_sid: String },
    /// The pipeline has ended.
    Done,
}

/// The mathematical value of a [`SenderState`].
pub ghost enum SenderStateView {
    AwaitingSid,
    Delaying { stream_sid: Seq<char> },
    Synthesizing { stream_sid: Seq<char> },
    Done,
}

impl View for SenderState {
    type V = SenderStateView;

    open spec fn view(&self) -> SenderStateView {
        match self {
            SenderState::AwaitingSid => SenderStateView::AwaitingSid,
            SenderState::Delaying { stream_sid } => SenderStateView::Delaying {
                stream_sid: stream_sid@,
            },
            SenderState::Synthesizing { stream_sid } => SenderStateView::Synthesizing {
                stream_sid: stream_sid@,
            },
            SenderState::Done => SenderStateView::Done,
        }
    }
}

/// What happened outside the pipeline.
#[derive(Debug, Clone, PartialEq, Eq)]
pub enum SenderEvent {
    /// The handoff resolved: with the stream identifier, or with nothing
    /// where the classifier went away without handing one over.
    Handoff(Option<String>),
    /// The startup delay has passed.
    DelayElapsed,
    /// The synthesis backend answered: with the payload, the base64 text of
    /// a container, or with nothing where the call failed.
    Synthesized(Option<String>),
}

/// The mathematical value of a [`SenderEvent`].
pub ghost enum SenderEventView {
    Handoff(Option<Seq<char>>),
    DelayElapsed,
    Synthesized(Option<Seq<char>>),
}

impl View for SenderEvent {
    type V = SenderEventView;

    open spec fn view(&self) -> SenderEventView {
        match self {
            SenderEvent::Handoff(Some(sid)) => SenderEventView::Handoff(Some(sid@)),
            SenderEvent::Handoff(None) => SenderEventView::Handoff(None),
            SenderEvent::DelayElapsed => SenderEventView::DelayElapsed,
            SenderEvent::Synthesized(Some(payload)) => SenderEventView::Synthesized(Some(payload@)),
            SenderEvent::Synthesized(None) => SenderEventView::Synthesized(None),
        }
    }
}

/// Why the pipeline ended without sending.
#[derive(Debug, Clone, Copy, PartialEq, Eq, Structural)]
pub enum StopReason {
    /// The classifier went away without a stream identifier.
    HandoffDropped,
    /// The synthesis backend failed.
    SynthesisFailed,
    /// The synthesized payload could not be framed.
    Codec(CodecError),
}

/// What the caller is to do next.
#[derive(Debug, Clone, PartialEq, Eq)]
pub enum SenderAction {
    /// Sleep, then report that the delay has passed.
    Sleep { millis: u64 },
    /// Call the synthesis backend, then report its answer.
    Synthesize(SynthesisRequest),
    /// Send this text frame; the pipeline has ended.
    Send(String),
    /// Send nothing; the pipeline has ended.
    Stop(StopReason),
    /// The event was not awaited: go on as before.
    Ignore,
}

/// The mathematical value of a [`SenderAction`].
pub ghost enum SenderActionView {
    Sleep { millis: u64 },
    Synthesize(SynthesisRequestView),
    Send(Seq<char>),
    Stop(StopReason),
    Ignore,
}

impl View for SenderAction {
    type V = SenderActionView;

    open spec fn view(&self) -> SenderActionView {
        match self {
            SenderAction::Sleep { millis } => SenderActionView::Sleep { millis: *millis },
            SenderAction::Synthesize(request) => SenderActionView::Synthesize(request@),
            SenderAction::Send(frame) => SenderActionView::Send(frame@),
            SenderAction::Stop(reason) => SenderActionView::Stop(*reason),
            SenderAction::Ignore => SenderActionView::Ignore,
        }
    }
}

/// What a sender is set up with.
pub ghost struct SenderSetup {
    pub delay_millis: u64,
    pub utterance: Seq<char>,
}

/// The action that ends the pipeline once the synthesized payload has been
/// decoded.
pub open spec fn closing_action(decoded: Option<Seq<u8>>, stream_sid: Seq<char>) -> SenderActionView {
    match frame_of_decoded(decoded, stream_sid) {
        Ok(frame) => SenderActionView::Send(frame),
        Err(e) => SenderActionView::Stop(StopReason::Codec(e)),
    }
}

/// The state after `event` has come in `state`.
pub open spec fn next_state(state: SenderStateView, event: SenderEventView) -> SenderStateView {
    match (state, event) {
        (SenderStateView::AwaitingSid, SenderEventView::Handoff(Some(stream_sid))) => {
            SenderStateView::Delaying { stream_sid }
        },
        (SenderStateView::AwaitingSid, SenderEventView::Handoff(None)) => SenderStateView::Done,
        (SenderStateView::Delaying { stream_sid }, SenderEventView::DelayElapsed) => {
            SenderStateView::Synthesizing { stream_sid }
        },
        (SenderStateView::Synthesizing { .. }, SenderEventView::Synthesized(_)) => {
            SenderStateView::Done
        },
        _ => state,
    }
}

/// What is to be done when `event` comes in `state`.
pub open spec fn action_of(
    setup: SenderSetup,
    state: SenderStateView,
    event: SenderEventView,
) -> SenderActionView {
    match (state, event) {
        (SenderStateView::AwaitingSid, SenderEventView::Handoff(Some(_))) => {
            SenderActionView::Sleep { millis: setup.delay_millis }
        },
        (SenderStateView::AwaitingSid, SenderEventView::Handoff(None)) => SenderActionView::Stop(
            StopReason::HandoffDropped,
        ),
        (SenderStateView::Delaying { .. }, SenderEventView::DelayElapsed) => {
            SenderActionView::Synthesize(telephony_request(setup.utterance))
        },
        (SenderStateView::Synthesizing { stream_sid }, SenderEventView::Synthesized(Some(payload))) => {
            closing_action(base64_bytes(payload), stream_sid)
        },
        (SenderStateView::Synthesizing { .. }, SenderEventView::Synthesized(None)) => {
            SenderActionView::Stop(StopReason::SynthesisFailed)
        },
        _ => SenderActionView::Ignore,
    }
}

/// The state after the events have come one after the other to a new
/// sender.
pub open spec fn state_after(events: Seq<SenderEventView>) -> SenderStateView
    decreases events.len(),
{
    if events.len() == 0 {
        SenderStateView::AwaitingSid
    } else {
        next_state(state_after(events.drop_last()), events.last())
    }
}

/// The answer of a new sender to the event at place `i` of `events`.
pub open spec fn action_at(setup: SenderSetup, events: Seq<SenderEventView>, i: int) -> SenderActionView {
    action_of(setup, state_after(events.take(i)), events[i])
}

/// The stream identifier that a state holds.
pub open spec fn held_sid(state: SenderStateView) -> Option<Seq<char>> {
    match state {
        SenderStateView::Delaying { stream_sid } => Some(stream_sid),
        SenderStateView::Synthesizing { stream_sid } => Some(stream_sid),
        _ => None,
    }
}

/// The send pipeline of one session.
#[derive(Debug, Clone, PartialEq, Eq)]
pub struct Sender {
    state: SenderState,
    delay_millis: u64,
    utterance: String,
}

impl Sender {
    /// Where the pipeline stands.
    pub closed spec fn state_view(&self) -> SenderStateView {
        self.state@
    }

    /// What the sender was set up with.
    pub closed spec fn setup(&self) -> SenderSetup {
        SenderSetup { delay_millis: self.delay_millis, utterance: self.utterance@ }
    }

    /// A sender that waits for the stream identifier. It will let
    /// `delay_millis` pass before it asks for `utterance` to be synthesized.
    pub fn new(delay_millis: u64, utterance: &str) -> (sender: Sender)
        ensures
            sender.state_view() == SenderStateView::AwaitingSid,
            sender.setup() == (SenderSetup { delay_millis, utterance: utterance@ }),
    {
        Sender { state: SenderState::AwaitingSid, delay_millis, utterance: String::from_str(utterance) }
    }

    /// Where the pipeline stands.
    pub fn state(&self) -> (state: &SenderState)
        ensures
            state@ == self.state_view(),
    {
        &self.state
    }

    /// Whether the pipeline has ended.
    pub fn is_done(&self) -> (done: bool)
        ensures
            done == (self.state_view() is Done),
    {
        match self.state {
            SenderState::Done => true,
            _ => false,
        }
    }

    /// Takes what happened and answers with what to do next. An event that
    /// was not awaited changes nothing.
    pub fn on_event(&mut self, event: SenderEvent) -> (action: SenderAction)
        ensures
            final(self).setup() == old(self).setup(),
            final(self).state_view() == next_state(old(self).state_view(), event@),
            action@ == action_of(old(self).setup(), old(self).state_view(), event@),
    {
        let mut state = SenderState::Done;
        std::mem::swap(&mut self.state, &mut state);
        match (state, event) {
            (SenderState::AwaitingSid, SenderEvent::Handoff(Some(stream_sid))) => {
                self.state = SenderState::Delaying { stream_sid };
                SenderAction::Sleep { millis: self.delay_millis }
            },
            (SenderState::AwaitingSid, SenderEvent::Handoff(None)) => {
                SenderAction::Stop(StopReason::HandoffDropped)
            },
            (SenderState::Delaying { stream_sid }, SenderEvent::DelayElapsed) => {
                self.state = SenderState::Synthesizing { stream_sid };
                SenderAction::Synthesize(SynthesisRequest::telephony(self.utterance.as_str()))
            },
            (SenderState::Synthesizing { stream_sid }, SenderEvent::Synthesized(Some(payload))) => {
                match frame_payload(payload.as_str(), stream_sid.as_str()) {
                    Ok(frame) => SenderAction::Send(frame),
                    Err(e) => SenderAction::Stop(StopReason::Codec(e)),
                }
            },
            (SenderState::Synthesizing { .. }, SenderEvent::Synthesized(None)) => {
                SenderAction::Stop(StopReason::SynthesisFailed)
            },
            (state, _) => {
                self.state = state;
                SenderAction::Ignore
            },
        }
    }
}

// ---------------------------------------------------------------------------
// Laws of the pipeline
// ---------------------------------------------------------------------------

/// A frame is sent only from the state that holds a stream identifier, and
/// it is the frame of the synthesized payload for that identifier.
pub proof fn law_send_needs_sid(setup: SenderSetup, state: SenderStateView, event: SenderEventView)
    requires
        action_of(setup, state, event) is Send,
    ensures
        state matches SenderStateView::Synthesizing { stream_sid } && event
            matches SenderEventView::Synthesized(Some(payload)) && frame_of_decoded(
            base64_bytes(payload),
            stream_sid,
        ) == Ok::<Seq<char>, CodecError>(action_of(setup, state, event)->Send_0),
{
}

/// A stream identifier that a sender holds was handed to it before.
pub proof fn law_held_sid_was_handed(events: Seq<SenderEventView>)
    ensures
        held_sid(state_after(events)) matches Some(sid) ==> exists|j: int|
            0 <= j < events.len() && #[trigger] events[j] == SenderEventView::Handoff(Some(sid)),
    decreases events.len(),
{
    if events.len() > 0 {
        let earlier = events.drop_last();
        law_held_sid_was_handed(earlier);
        let before = state_after(earlier);
        if let Some(sid) = held_sid(state_after(events)) {
            if held_sid(before) == Some(sid) {
                let j = choose|j: int|
                    0 <= j < earlier.len() && #[trigger] earlier[j] == SenderEventView::Handoff(
                        Some(sid),
                    );
                assert(events[j] == earlier[j]);
            } else {
                assert(events[events.len() - 1] == SenderEventView::Handoff(Some(sid)));
            }
        }
    }
}

/// Nothing is sent before the stream identifier has come: whatever happens
/// to a new sender, in whatever order, a frame that it sends is the frame of
/// a synthesized payload for an identifier that was handed over earlier.
pub proof fn law_no_send_before_handoff(setup: SenderSetup, events: Seq<SenderEventView>, i: int)
    requires
        0 <= i < events.len(),
        action_at(setup, events, i) is Send,
    ensures
        ({
            &&& state_after(events.take(i)) matches SenderStateView::Synthesizing { stream_sid }
            &&& exists|j: int|
                0 <= j < i && #[trigger] events[j] == SenderEventView::Handoff(Some(stream_sid))
            &&& events[i] matches SenderEventView::Synthesized(Some(payload))
            &&& frame_of_decoded(base64_bytes(payload), stream_sid) == Ok::<Seq<char>, CodecError>(
                action_at(setup, events, i)->Send_0,
            )
        }),
{
    let earlier = events.take(i);
    let state = state_after(earlier);
    law_send_needs_sid(setup, state, events[i]);
    law_held_sid_was_handed(earlier);
    let sid = state->Synthesizing_stream_sid;
    let j = choose|j: int|
        0 <= j < earlier.len() && #[trigger] earlier[j] == SenderEventView::Handoff(Some(sid));
    assert(events[j] == earlier[j]);
}

/// Where the handoff resolves with nothing, the pipeline ends at once and
/// never sends: every answer after it is to go on as before.
pub proof fn law_dropped_handoff_sends_nothing(setup: SenderSetup, events: Seq<SenderEventView>, i: int)
    requires
        0 <= i < events.len(),
        events.len() > 0,
        events[0] == SenderEventView::Handoff(None),
    ensures
        !(action_at(setup, events, i) is Send),
        i > 0 ==> action_at(setup, events, i) is Ignore,
        i == 0 ==> action_at(setup, events, i) == SenderActionView::Stop(StopReason::HandoffDropped),
{
    if i == 0 {
        assert(events.take(0) =~= Seq::empty());
    } else {
        lemma_done_after_drop(events.take(i));
    }
}

/// After a handoff that resolved with nothing the sender is done, whatever
/// follows.
proof fn lemma_done_after_drop(events: Seq<SenderEventView>)
    requires
        events.len() > 0,
        events[0] == SenderEventView::Handoff(None),
    ensures
        state_after(events) is Done,
    decreases events.len(),
{
    let earlier = events.drop_last();
    if earlier.len() == 0 {
        assert(state_after(earlier) is AwaitingSid);
        assert(events.last() == events[0]);
    } else {
        lemma_done_after_drop(earlier);
    }
}

} // verus!
