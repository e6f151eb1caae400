//! Laws of a whole session: what the classifier hands over is what the
//! sender frames.

use crate::classifier::{event_of_outcome, handoff_of, law_handoff_is_top_level_sid, Phase};
use crate::codec::{base64_bytes, samples_of_decoded};
use crate::inbound::{message_of, text_member, STREAM_SID};
use crate::json::JsonValue;
use crate::outbound::{frame_of_decoded, media_event_of, outbound_text};
use crate::sender::{
    action_at, closing_action, law_dropped_handoff_sends_nothing, state_after, SenderActionView,
    SenderEventView, SenderSetup, SenderStateView, StopReason,
};
use vstd::prelude::*;

verus! {

/// What happens to the sender in a session that runs to its end: the
/// handoff resolves, the delay passes, the backend answers with `payload`.
pub open spec fn full_run(handoff: Option<Seq<char>>, payload: Seq<char>) -> Seq<SenderEventView> {
    seq![
        SenderEventView::Handoff(handoff),
        SenderEventView::DelayElapsed,
        SenderEventView::Synthesized(Some(payload)),
    ]
}

/// In a session that starts with the start event `doc` and runs to its end,
/// the sender's last answer is the frame of the synthesized payload for the
/// stream identifier in the document's own `streamSid` member: where it is a
/// frame at all, it is the text of a media event that carries that
/// identifier and the base64 text of the payload's samples.
pub proof fn law_frame_carries_start_sid(setup: SenderSetup, doc: JsonValue, payload: Seq<char>)
    requires
        message_of(doc) matches Ok(message) && message is Start,
        text_member(doc, STREAM_SID@) matches Some(sid) && sid.len() > 0,
    ensures
        ({
            let sid = text_member(doc, STREAM_SID@)->Some_0;
            let handoff = handoff_of(Phase::AwaitingStart, event_of_outcome(message_of(doc)));
            let last = action_at(setup, full_run(handoff, payload), 2);
            &&& handoff == Some(sid)
            &&& last == closing_action(base64_bytes(payload), sid)
            &&& last matches SenderActionView::Send(frame) ==> samples_of_decoded(
                base64_bytes(payload),
            ) matches Ok(samples) && frame == outbound_text(media_event_of(samples, sid))
            &&& last matches SenderActionView::Stop(reason) ==> frame_of_decoded(
                base64_bytes(payload),
                sid,
            ) matches Err(e) && reason == StopReason::Codec(e)
        }),
{
    law_handoff_is_top_level_sid(doc);
    let sid = text_member(doc, STREAM_SID@)->Some_0;
    let events = full_run(Some(sid), payload);
    let none = Seq::<SenderEventView>::empty();
    assert(state_after(none) == SenderStateView::AwaitingSid);
    assert(events.take(0) =~= none);
    let one = events.take(1);
    assert(one.drop_last() =~= none);
    assert(one.last() == events[0]);
    assert(state_after(one) == SenderStateView::Delaying { stream_sid: sid });
    let two = events.take(2);
    assert(two.drop_last() =~= one);
    assert(two.last() == events[1]);
    assert(state_after(two) == SenderStateView::Synthesizing { stream_sid: sid });
}

/// In a session whose socket closes before any start event, the handoff
/// resolves with nothing and the sender ends without a frame.
pub proof fn law_no_start_no_frame(setup: SenderSetup, rest: Seq<SenderEventView>, i: int)
    requires
        0 <= i <= rest.len(),
    ensures
        !(action_at(setup, seq![SenderEventView::Handoff(None)] + rest, i) is Send),
{
    let events = seq![SenderEventView::Handoff(None)] + rest;
    law_dropped_handoff_sends_nothing(setup, events, i);
}

} // verus!
