//! The inbound message classifier: the session state machine that sequences
//! the events of one media stream.
//!
//! The classifier waits for the start event, hands the stream identifier
//! over once, and then keeps reading until the read side of the socket
//! closes or fails. It is permissive: a frame that is no event, a frame of
//! another kind or an event out of its phase is noted and changes nothing.
//!
//! The socket is read by the caller: each thing read is handed to
//! [`Classifier::accept`], which answers with a [`Reaction`].

use crate::inbound::{
    decode_frame, frame_message, lemma_tags_differ, message_of, start_of, tagged_of, text_member,
    DecodeError, EVENT, START, STREAM_SID,
};
use crate::json::JsonValue;
use crate::twilio_types::{TwilioMessage, TwilioMessageView};
use vstd::prelude::*;

verus! {

/// The phase of a session.
#[derive(Debug, Clone, Copy, PartialEq, Eq, Structural)]
pub enum Phase {
    /// No start event was seen yet.
    AwaitingStart,
    /// The start event was seen.
    Started,
    /// The read side of the socket has closed or failed.
    Closed,
}

/// What reading the socket once gave.
#[derive(Debug, Clone, PartialEq, Eq)]
pub enum Arrival {
    /// A text frame.
    Text(String),
    /// A frame of another kind.
    Unsupported,
    /// A read error.
    Failure,
    /// The end of the stream.
    End,
}

/// What an arrival means to the session.
#[derive(Debug, Clone, PartialEq, Eq)]
pub enum Event {
    /// A text frame that holds an event.
    Message(TwilioMessage),
    /// A text frame that holds none.
    Undecodable(DecodeError),
    /// A frame of another kind.
    Unsupported,
    /// A read error.
    Failure,
    /// The end of the stream.
    End,
}

/// The mathematical value of an [`Event`].
pub ghost enum EventView {
    Message(TwilioMessageView),
    Undecodable(DecodeError),
    Unsupported,
    Failure,
    End,
}

impl View for Event {
    type V = EventView;

    open spec fn view(&self) -> EventView {
        match self {
            Event::Message(message) => EventView::Message(message@),
            Event::Undecodable(e) => EventView::Undecodable(*e),
            Event::Unsupported => EventView::Unsupported,
            Event::Failure => EventView::Failure,
            Event::End => EventView::End,
        }
    }
}

/// What the classifier has to say about an arrival.
#[derive(Debug, Clone, Copy, PartialEq, Eq, Structural)]
pub enum Note {
    /// The platform announced its protocol.
    Connected,
    /// The stream has started.
    StreamStarted,
    /// A media, stop or mark event came before the start event.
    Premature,
    /// A text frame held no event.
    Undecodable(DecodeError),
    /// A frame was not a text frame.
    Unsupported,
    /// Reading the socket failed; nothing more is read.
    Failure,
    /// A media chunk came; inbound audio is not processed.
    Media,
    /// The platform stopped the stream.
    Stopped,
    /// The platform acknowledged a mark.
    Marked,
    /// A connected or start event came after the start event.
    Unexpected,
    /// The read side of the socket closed.
    Ended,
    /// Something came after the read side had closed or failed.
    Ignored,
}

/// The answer to one arrival.
#[derive(Debug, Clone, PartialEq, Eq)]
pub struct Reaction {
    /// What to log.
    pub note: Note,
    /// The stream identifier to hand to the sender, if this is the moment.
    pub handoff: Option<String>,
}

/// The mathematical value of a [`Reaction`].
pub ghost struct ReactionView {
    pub note: Note,
    pub handoff: Option<Seq<char>>,
}

impl View for Reaction {
    type V = ReactionView;

    open spec fn view(&self) -> ReactionView {
        ReactionView {
            note: self.note,
            handoff: match self.handoff {
                Some(sid) => Some(sid@),
                None => None,
            },
        }
    }
}

/// What a text frame means.
pub open spec fn event_of_outcome(outcome: Result<TwilioMessageView, DecodeError>) -> EventView {
    match outcome {
        Ok(message) => EventView::Message(message),
        Err(e) => EventView::Undecodable(e),
    }
}

/// What an arrival means.
pub open spec fn event_of(arrival: Arrival) -> EventView {
    match arrival {
        Arrival::Text(text) => event_of_outcome(frame_message(text@)),
        Arrival::Unsupported => EventView::Unsupported,
        Arrival::Failure => EventView::Failure,
        Arrival::End => EventView::End,
    }
}

/// The phase after `event` has come in `phase`.
pub open spec fn next_phase(phase: Phase, event: EventView) -> Phase {
    match phase {
        Phase::Closed => Phase::Closed,
        Phase::AwaitingStart => match event {
            EventView::End | EventView::Failure => Phase::Closed,
            EventView::Message(TwilioMessageView::Start { .. }) => Phase::Started,
            _ => Phase::AwaitingStart,
        },
        Phase::Started => match event {
            EventView::End | EventView::Failure => Phase::Closed,
            _ => Phase::Started,
        },
    }
}

/// The stream identifier that is handed over when `event` comes in `phase`:
/// that of the start event's own `streamSid` field, when the first start
/// event comes and the identifier is not empty.
pub open spec fn handoff_of(phase: Phase, event: EventView) -> Option<Seq<char>> {
    match (phase, event) {
        (Phase::AwaitingStart, EventView::Message(TwilioMessageView::Start { stream_sid, .. })) => {
            if stream_sid.len() > 0 {
                Some(stream_sid)
            } else {
                None
            }
        },
        _ => None,
    }
}

/// What there is to say when `event` comes in `phase`.
pub open spec fn note_of(phase: Phase, event: EventView) -> Note {
    match phase {
        Phase::Closed => Note::Ignored,
        _ => match event {
            EventView::End => Note::Ended,
            EventView::Failure => Note::Failure,
            EventView::Unsupported => Note::Unsupported,
            EventView::Undecodable(e) => Note::Undecodable(e),
            EventView::Message(message) => match phase {
                Phase::AwaitingStart => match message {
                    TwilioMessageView::Connected { .. } => Note::Connected,
                    TwilioMessageView::Start { .. } => Note::StreamStarted,
                    _ => Note::Premature,
                },
                _ => match message {
                    TwilioMessageView::Media { .. } => Note::Media,
                    TwilioMessageView::Stop { .. } => Note::Stopped,
                    TwilioMessageView::Mark { .. } => Note::Marked,
                    _ => Note::Unexpected,
                },
            },
        },
    }
}

/// The answer to `event` in `phase`.
pub open spec fn reaction_of(phase: Phase, event: EventView) -> ReactionView {
    ReactionView { note: note_of(phase, event), handoff: handoff_of(phase, event) }
}

/// Whether `event` is one that the classifier tolerates in `phase`: it is
/// noted and nothing else happens.
pub open spec fn tolerated(phase: Phase, event: EventView) -> bool {
    match event {
        EventView::Undecodable(_) | EventView::Unsupported => true,
        EventView::Message(message) => phase != Phase::AwaitingStart || !(message is Start),
        EventView::End | EventView::Failure => phase == Phase::Closed,
    }
}

/// The phase after the events have come one after the other.
pub open spec fn run(phase: Phase, events: Seq<EventView>) -> Phase
    decreases events.len(),
{
    if events.len() == 0 {
        phase
    } else {
        run(next_phase(phase, events[0]), events.drop_first())
    }
}

/// The stream identifiers handed over while the events come one after the
/// other.
pub open spec fn handoffs(phase: Phase, events: Seq<EventView>) -> Seq<Seq<char>>
    decreases events.len(),
{
    if events.len() == 0 {
        Seq::empty()
    } else {
        let rest = handoffs(next_phase(phase, events[0]), events.drop_first());
        match handoff_of(phase, events[0]) {
            Some(sid) => seq![sid] + rest,
            None => rest,
        }
    }
}

/// Says what an arrival means: a text frame is read as an event.
pub fn classify(arrival: Arrival) -> (event: Event)
    ensures
        event@ == event_of(arrival),
        event matches Event::Message(TwilioMessage::Start { start, .. }) ==> start.well_formed(),
{
    match arrival {
        Arrival::Text(text) => match decode_frame(text.as_str()) {
            Ok(message) => Event::Message(message),
            Err(e) => Event::Undecodable(e),
        },
        Arrival::Unsupported => Event::Unsupported,
        Arrival::Failure => Event::Failure,
        Arrival::End => Event::End,
    }
}

/// The state of one session's classifier.
#[derive(Debug, Clone, PartialEq, Eq)]
pub struct Classifier {
    phase: Phase,
}

impl View for Classifier {
    type V = Phase;

    closed spec fn view(&self) -> Phase {
        self.phase
    }
}

impl Classifier {
    /// The classifier of a new session: it awaits the start event.
    pub fn new() -> (classifier: Classifier)
        ensures
            classifier@ == Phase::AwaitingStart,
    {
        Classifier { phase: Phase::AwaitingStart }
    }

    /// The phase that the session is in.
    pub fn phase(&self) -> (phase: Phase)
        ensures
            phase == self@,
    {
        self.phase
    }

    /// Whether the read side of the socket has closed or failed, so that
    /// there is nothing more to read.
    pub fn is_closed(&self) -> (closed: bool)
        ensures
            closed == (self@ == Phase::Closed),
    {
        match self.phase {
            Phase::Closed => true,
            _ => false,
        }
    }

    /// Takes an event: moves to the next phase and answers with what to log
    /// and, once per session at most, the stream identifier to hand over.
    pub fn accept_event(&mut self, event: Event) -> (reaction: Reaction)
        ensures
            final(self)@ == next_phase(old(self)@, event@),
            reaction@ == reaction_of(old(self)@, event@),
    {
        let phase = self.phase;
        match phase {
            Phase::Closed => Reaction { note: Note::Ignored, handoff: None },
            Phase::AwaitingStart => match event {
                Event::End => {
                    self.phase = Phase::Closed;
                    Reaction { note: Note::Ended, handoff: None }
                },
                Event::Failure => {
                    self.phase = Phase::Closed;
                    Reaction { note: Note::Failure, handoff: None }
                },
                Event::Unsupported => Reaction { note: Note::Unsupported, handoff: None },
                Event::Undecodable(e) => Reaction { note: Note::Undecodable(e), handoff: None },
                Event::Message(TwilioMessage::Connected { .. }) => Reaction {
                    note: Note::Connected,
                    handoff: None,
                },
                Event::Message(TwilioMessage::Start { stream_sid, .. }) => {
                    self.phase = Phase::Started;
                    let handoff = if stream_sid.as_str().is_empty() {
                        None
                    } else {
                        Some(stream_sid)
                    };
                    Reaction { note: Note::StreamStarted, handoff }
                },
                Event::Message(_) => Reaction { note: Note::Premature, handoff: None },
            },
            Phase::Started => match event {
                Event::End => {
                    self.phase = Phase::Closed;
                    Reaction { note: Note::Ended, handoff: None }
                },
                Event::Failure => {
                    self.phase = Phase::Closed;
                    Reaction { note: Note::Failure, handoff: None }
                },
                Event::Unsupported => Reaction { note: Note::Unsupported, handoff: None },
                Event::Undecodable(e) => Reaction { note: Note::Undecodable(e), handoff: None },
                Event::Message(TwilioMessage::Media { .. }) => Reaction {
                    note: Note::Media,
                    handoff: None,
                },
                Event::Message(TwilioMessage::Stop { .. }) => Reaction {
                    note: Note::Stopped,
                    handoff: None,
                },
                Event::Message(TwilioMessage::Mark { .. }) => Reaction {
                    note: Note::Marked,
                    handoff: None,
                },
                Event::Message(_) => Reaction { note: Note::Unexpected, handoff: None },
            },
        }
    }

    /// Takes what reading the socket once gave.
    pub fn accept(&mut self, arrival: Arrival) -> (reaction: Reaction)
        ensures
            final(self)@ == next_phase(old(self)@, event_of(arrival)),
            reaction@ == reaction_of(old(self)@, event_of(arrival)),
    {
        let event = classify(arrival);
        self.accept_event(event)
    }
}

// ---------------------------------------------------------------------------
// Laws of the session
// ---------------------------------------------------------------------------

/// The stream identifier handed over for a start event is the one in the
/// document's own `streamSid` member, whatever the nested one says; an
/// empty identifier is not handed over.
pub proof fn law_handoff_is_top_level_sid(doc: JsonValue)
    requires
        message_of(doc) matches Ok(message) && message is Start,
    ensures
        text_member(doc, STREAM_SID@) matches Some(sid) && handoff_of(
            Phase::AwaitingStart,
            event_of_outcome(message_of(doc)),
        ) == (if sid.len() > 0 {
            Some(sid)
        } else {
            None
        }),
{
    let tag = text_member(doc, EVENT@)->Some_0;
    assert(tagged_of(doc, tag) == message_of(doc));
    lemma_tags_differ();
    assert(tag == START@);
    assert(start_of(doc) is Some);
}

/// A stream identifier is handed over only by the step that leaves the
/// wait for the start event.
pub proof fn law_handoff_only_on_start(phase: Phase, event: EventView)
    requires
        handoff_of(phase, event) is Some,
    ensures
        phase == Phase::AwaitingStart,
        next_phase(phase, event) == Phase::Started,
        event matches EventView::Message(TwilioMessageView::Start { stream_sid, .. })
            && handoff_of(phase, event) == Some(stream_sid) && stream_sid.len() > 0,
{
}

/// A tolerated event changes nothing: the phase stays and nothing is handed
/// over. Frames that hold no event, frames of another kind and events that
/// come before the start event are all tolerated.
pub proof fn law_tolerated_changes_nothing(phase: Phase, event: EventView)
    requires
        tolerated(phase, event),
    ensures
        next_phase(phase, event) == phase,
        handoff_of(phase, event) is None,
{
}

/// Once the start event was seen, or the socket has closed, nothing is
/// handed over any more.
pub proof fn law_no_handoff_after_start(phase: Phase, events: Seq<EventView>)
    requires
        phase != Phase::AwaitingStart,
    ensures
        handoffs(phase, events) == Seq::<Seq<char>>::empty(),
    decreases events.len(),
{
    if events.len() > 0 {
        law_no_handoff_after_start(next_phase(phase, events[0]), events.drop_first());
    }
}

/// Whatever comes, in whatever order, the stream identifier is handed over
/// once at most.
pub proof fn law_handoff_at_most_once(phase: Phase, events: Seq<EventView>)
    ensures
        handoffs(phase, events).len() <= 1,
    decreases events.len(),
{
    if events.len() > 0 {
        let next = next_phase(phase, events[0]);
        if next != Phase::AwaitingStart {
            law_no_handoff_after_start(next, events.drop_first());
        } else {
            law_handoff_at_most_once(next, events.drop_first());
        }
    }
}

/// A tolerated event in the middle of a run leaves no trace: the phase at
/// the end and the identifiers handed over are those of the run without it.
pub proof fn law_run_skips_tolerated(
    phase: Phase,
    before: Seq<EventView>,
    event: EventView,
    after: Seq<EventView>,
)
    requires
        tolerated(run(phase, before), event),
    ensures
        run(phase, before + seq![event] + after) == run(phase, before + after),
        handoffs(phase, before + seq![event] + after) == handoffs(phase, before + after),
    decreases before.len(),
{
    let with = before + seq![event] + after;
    let without = before + after;
    if before.len() == 0 {
        assert(with.drop_first() =~= after);
        assert(without =~= after);
        assert(with[0] == event);
    } else {
        let next = next_phase(phase, before[0]);
        assert(with[0] == before[0]);
        assert(without[0] == before[0]);
        assert(with.drop_first() =~= before.drop_first() + seq![event] + after);
        assert(without.drop_first() =~= before.drop_first() + after);
        law_run_skips_tolerated(next, before.drop_first(), event, after);
    }
}

} // verus!
