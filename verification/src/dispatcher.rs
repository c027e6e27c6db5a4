//! The update stream dispatcher: one decision per channel event.
//!
//! The dispatcher keeps nothing between events but the phase of the
//! subscription. The caller owns the channel: it waits for the next item,
//! hands it over as a [`ChannelEvent`], and carries out the [`Action`] that
//! comes back.

use vstd::prelude::*;
use crate::event::{Action, ChannelEvent, Phase, StreamItem, UpdateEvent};

verus! {

/// The action that an update calls for: a slot update is reported, every
/// other kind is passed over.
pub open spec fn action_for_update(event: UpdateEvent) -> Action {
    match event {
        UpdateEvent::Slot { slot } => Action::ReportSlot { slot },
        _ => Action::NoOp,
    }
}

/// The action that a delivery calls for: that of the update it carries, and
/// none where it carries no update or could not be decoded.
pub open spec fn action_for_item(item: StreamItem) -> Action {
    match item {
        StreamItem::Update(event) => action_for_update(event),
        _ => Action::NoOp,
    }
}

/// Classifies one update. Total: every kind of update has its action.
pub fn dispatch(event: UpdateEvent) -> (action: Action)
    ensures
        action == action_for_update(event),
        event matches UpdateEvent::Slot { slot } ==> action == (Action::ReportSlot { slot }),
        !(event is Slot) ==> action == Action::NoOp,
{
    match event {
        UpdateEvent::Account => Action::NoOp,
        UpdateEvent::Slot { slot } => Action::ReportSlot { slot },
        UpdateEvent::Transaction => Action::NoOp,
        UpdateEvent::TransactionStatus => Action::NoOp,
        UpdateEvent::Block => Action::NoOp,
        UpdateEvent::Ping => Action::NoOp,
        UpdateEvent::Pong => Action::NoOp,
        UpdateEvent::BlockMeta => Action::NoOp,
        UpdateEvent::Entry => Action::NoOp,
    }
}

/// The action that a delivery calls for. An item that could not be decoded
/// is skipped: it calls for nothing, and it ends nothing.
pub fn handle_item(item: StreamItem) -> (action: Action)
    ensures
        action == action_for_item(item),
        item is Undecodable ==> action == Action::NoOp,
{
    match item {
        StreamItem::Update(event) => dispatch(event),
        StreamItem::Empty => Action::NoOp,
        StreamItem::Undecodable => Action::NoOp,
    }
}

/// The phase that follows `phase` on `event`.
///
/// A subscription is opened by submitting the descriptor, streams once the
/// responses are obtained, stays streaming on every item, and is closed by the
/// end of the stream or the failure of the channel. An event that the phase
/// does not expect changes nothing; in particular nothing leaves `Closed`.
pub open spec fn next_phase(phase: Phase, event: ChannelEvent) -> Phase {
    match (phase, event) {
        (Phase::Disconnected, ChannelEvent::DescriptorSubmitted) => Phase::Subscribing,
        (Phase::Subscribing, ChannelEvent::StreamObtained) => Phase::Streaming,
        (Phase::Streaming, ChannelEvent::EndOfStream) => Phase::Closed,
        (Phase::Streaming, ChannelEvent::ChannelFailed) => Phase::Closed,
        _ => phase,
    }
}

/// The action that `event` calls for in `phase`: items count only while the
/// subscription is streaming.
pub open spec fn action_in(phase: Phase, event: ChannelEvent) -> Action {
    match (phase, event) {
        (Phase::Streaming, ChannelEvent::Item(item)) => action_for_item(item),
        _ => Action::NoOp,
    }
}

/// The phase reached from `phase` after `events`, taken in order.
pub open spec fn phase_after(phase: Phase, events: Seq<ChannelEvent>) -> Phase
    decreases events.len(),
{
    if events.len() == 0 {
        phase
    } else {
        next_phase(phase_after(phase, events.drop_last()), events.last())
    }
}

/// The slot numbers reported while `events` are taken in order from `phase`:
/// one for each slot update that arrives while streaming, in the order of
/// arrival.
pub open spec fn reported(phase: Phase, events: Seq<ChannelEvent>) -> Seq<u64>
    decreases events.len(),
{
    if events.len() == 0 {
        Seq::empty()
    } else {
        let before = events.drop_last();
        match action_in(phase_after(phase, before), events.last()) {
            Action::ReportSlot { slot } => reported(phase, before).push(slot),
            Action::NoOp => reported(phase, before),
        }
    }
}

/// Takes one channel event: the phase that follows, and what the caller has to
/// do. Total over phases and events.
pub fn step(phase: Phase, event: ChannelEvent) -> (next: (Phase, Action))
    ensures
        next.0 == next_phase(phase, event),
        next.1 == action_in(phase, event),
{
    match phase {
        Phase::Disconnected => match event {
            ChannelEvent::DescriptorSubmitted => (Phase::Subscribing, Action::NoOp),
            _ => (phase, Action::NoOp),
        },
        Phase::Subscribing => match event {
            ChannelEvent::StreamObtained => (Phase::Streaming, Action::NoOp),
            _ => (phase, Action::NoOp),
        },
        Phase::Streaming => match event {
            ChannelEvent::Item(item) => (Phase::Streaming, handle_item(item)),
            ChannelEvent::EndOfStream => (Phase::Closed, Action::NoOp),
            ChannelEvent::ChannelFailed => (Phase::Closed, Action::NoOp),
            _ => (phase, Action::NoOp),
        },
        Phase::Closed => (Phase::Closed, Action::NoOp),
    }
}

/// Whether the subscription is over, so that the caller stops waiting for
/// items.
pub fn is_closed(phase: Phase) -> (closed: bool)
    ensures
        closed == (phase == Phase::Closed),
{
    match phase {
        Phase::Closed => true,
        _ => false,
    }
}

/// Takes a run of channel events that the caller already holds, in order: the
/// phase reached, and the slot numbers to report, in the order of arrival.
pub fn consume(phase: Phase, events: &[ChannelEvent]) -> (outcome: (Phase, Vec<u64>))
    ensures
        outcome.0 == phase_after(phase, events@),
        outcome.1@ == reported(phase, events@),
{
    let mut current = phase;
    let mut slots: Vec<u64> = Vec::new();
    let mut i: usize = 0;
    while i < events.len()
        invariant
            i <= events.len(),
            current == phase_after(phase, events@.take(i as int)),
            slots@ == reported(phase, events@.take(i as int)),
        decreases events.len() - i,
    {
        let (next, action) = step(current, events[i]);
        proof {
            let upto = events@.take(i + 1);
            assert(upto.drop_last() == events@.take(i as int));
            assert(upto.last() == events@[i as int]);
        }
        match action {
            Action::ReportSlot { slot } => {
                slots.push(slot);
            },
            Action::NoOp => {},
        }
        current = next;
        i = i + 1;
    }
    proof {
        assert(events@.take(events.len() as int) == events@);
    }
    (current, slots)
}

/// The channel events of a stream that delivers one slot update for each of
/// `slots`, in that order, and nothing else.
pub open spec fn slot_updates(slots: Seq<u64>) -> Seq<ChannelEvent> {
    Seq::new(
        slots.len(),
        |i: int| ChannelEvent::Item(StreamItem::Update(UpdateEvent::Slot { slot: slots[i] })),
    )
}

/// Whether `event` ends the stream.
pub open spec fn ends_stream(event: ChannelEvent) -> bool {
    event is EndOfStream || event is ChannelFailed
}

/// Taking a single event is one step of the dispatcher.
pub proof fn lemma_one_event(phase: Phase, event: ChannelEvent)
    ensures
        phase_after(phase, seq![event]) == next_phase(phase, event),
        reported(phase, seq![event]) == match action_in(phase, event) {
            Action::ReportSlot { slot } => seq![slot],
            Action::NoOp => Seq::<u64>::empty(),
        },
{
    let one = seq![event];
    assert(one.drop_last() == Seq::<ChannelEvent>::empty());
    assert(phase_after(phase, one.drop_last()) == phase);
    assert(reported(phase, one.drop_last()) == Seq::<u64>::empty());
}

/// Events are taken one after the other, and nothing but the phase is carried
/// from one to the next: taking `first` and then `rest` reaches the phase and
/// reports the slots of taking them as one run, in the same order.
pub proof fn lemma_run_in_sequence(phase: Phase, first: Seq<ChannelEvent>, rest: Seq<ChannelEvent>)
    ensures
        phase_after(phase, first + rest) == phase_after(phase_after(phase, first), rest),
        reported(phase, first + rest) == reported(phase, first) + reported(
            phase_after(phase, first),
            rest,
        ),
    decreases rest.len(),
{
    if rest.len() == 0 {
        assert(first + rest == first);
    } else {
        lemma_run_in_sequence(phase, first, rest.drop_last());
        assert((first + rest).drop_last() == first + rest.drop_last());
        assert((first + rest).last() == rest.last());
    }
}

/// Slot updates are reported in the order in which they arrive: a stream of
/// slot updates yields exactly their slot numbers, one report each, none
/// dropped, doubled or moved, and the subscription goes on streaming.
pub proof fn lemma_slots_reported_in_order(slots: Seq<u64>)
    ensures
        reported(Phase::Streaming, slot_updates(slots)) == slots,
        phase_after(Phase::Streaming, slot_updates(slots)) == Phase::Streaming,
    decreases slots.len(),
{
    if slots.len() > 0 {
        lemma_slots_reported_in_order(slots.drop_last());
        assert(slot_updates(slots).drop_last() == slot_updates(slots.drop_last()));
        assert(slots.drop_last().push(slots.last()) == slots);
    }
}

/// An item that calls for no action leaves no trace: a stream with such an
/// item in it reports the slots, and reaches the phase, of the stream without
/// it. This holds of every update but a slot update, of an item without an
/// update, and of an item that could not be decoded.
pub proof fn lemma_quiet_item_leaves_no_trace(
    phase: Phase,
    before: Seq<ChannelEvent>,
    item: StreamItem,
    after: Seq<ChannelEvent>,
)
    requires
        action_for_item(item) == Action::NoOp,
    ensures
        reported(phase, before + seq![ChannelEvent::Item(item)] + after) == reported(
            phase,
            before + after,
        ),
        phase_after(phase, before + seq![ChannelEvent::Item(item)] + after) == phase_after(
            phase,
            before + after,
        ),
{
    let quiet = seq![ChannelEvent::Item(item)];
    lemma_one_event(phase_after(phase, before), ChannelEvent::Item(item));
    lemma_run_in_sequence(phase, before, quiet);
    lemma_run_in_sequence(phase, before + quiet, after);
    lemma_run_in_sequence(phase, before, after);
    assert(reported(phase, before) + Seq::<u64>::empty() == reported(phase, before));
}

/// An item that could not be decoded is skipped and ends nothing: a stream
/// with such an item in it reports the slots, and reaches the phase, of the
/// stream without it. So the valid items on both sides of it are all handled.
pub proof fn lemma_undecodable_item_is_skipped(
    phase: Phase,
    before: Seq<ChannelEvent>,
    after: Seq<ChannelEvent>,
)
    ensures
        reported(phase, before + seq![ChannelEvent::Item(StreamItem::Undecodable)] + after)
            == reported(phase, before + after),
        phase_after(phase, before + seq![ChannelEvent::Item(StreamItem::Undecodable)] + after)
            == phase_after(phase, before + after),
        next_phase(phase, ChannelEvent::Item(StreamItem::Undecodable)) == phase,
{
    lemma_quiet_item_leaves_no_trace(phase, before, StreamItem::Undecodable, after);
}

/// A streaming subscription is closed by the end of the stream or the failure
/// of the channel, and by nothing else.
pub proof fn lemma_closed_only_by_channel_end(events: Seq<ChannelEvent>)
    ensures
        phase_after(Phase::Streaming, events) == Phase::Closed <==> exists|i: int|
            0 <= i < events.len() && ends_stream(#[trigger] events[i]),
        phase_after(Phase::Streaming, events) != Phase::Closed ==> phase_after(
            Phase::Streaming,
            events,
        ) == Phase::Streaming,
    decreases events.len(),
{
    if events.len() > 0 {
        let before = events.drop_last();
        lemma_closed_only_by_channel_end(before);
        if exists|i: int| 0 <= i < before.len() && ends_stream(#[trigger] before[i]) {
            let i: int = choose|i: int| 0 <= i < before.len() && ends_stream(#[trigger] before[i]);
            assert(ends_stream(events[i]));
        } else if ends_stream(events.last()) {
            assert(ends_stream(events[events.len() - 1]));
        } else {
            assert forall|i: int| 0 <= i < events.len() implies !ends_stream(
                #[trigger] events[i],
            ) by {
                if i < before.len() {
                    assert(events[i] == before[i]);
                }
            }
        }
    }
}

/// `Closed` is final: whatever arrives afterwards, the subscription stays
/// closed and nothing is reported.
pub proof fn lemma_closed_is_final(events: Seq<ChannelEvent>)
    ensures
        phase_after(Phase::Closed, events) == Phase::Closed,
        reported(Phase::Closed, events) == Seq::<u64>::empty(),
    decreases events.len(),
{
    if events.len() > 0 {
        lemma_closed_is_final(events.drop_last());
    }
}

/// The slot numbers of the slot updates among `items`, in their order.
pub open spec fn slot_numbers(items: Seq<StreamItem>) -> Seq<u64>
    decreases items.len(),
{
    if items.len() == 0 {
        Seq::empty()
    } else {
        match items.last() {
            StreamItem::Update(UpdateEvent::Slot { slot }) => slot_numbers(
                items.drop_last(),
            ).push(slot),
            _ => slot_numbers(items.drop_last()),
        }
    }
}

/// The channel events of a stream that delivers `items`, in that order.
pub open spec fn deliveries(items: Seq<StreamItem>) -> Seq<ChannelEvent> {
    Seq::new(items.len(), |i: int| ChannelEvent::Item(items[i]))
}

/// The channel events of a whole subscription: the descriptor is submitted,
/// the stream is obtained, it delivers `items`, and the server closes it.
pub open spec fn subscription(items: Seq<StreamItem>) -> Seq<ChannelEvent> {
    seq![ChannelEvent::DescriptorSubmitted, ChannelEvent::StreamObtained] + deliveries(items)
        + seq![ChannelEvent::EndOfStream]
}

/// While streaming, what is reported is the slot number of every slot update
/// that is delivered, in the order of delivery, and nothing else; and no
/// delivery ends the streaming.
pub proof fn lemma_streaming_reports_slot_numbers(items: Seq<StreamItem>)
    ensures
        reported(Phase::Streaming, deliveries(items)) == slot_numbers(items),
        phase_after(Phase::Streaming, deliveries(items)) == Phase::Streaming,
    decreases items.len(),
{
    if items.len() > 0 {
        lemma_streaming_reports_slot_numbers(items.drop_last());
        assert(deliveries(items).drop_last() == deliveries(items.drop_last()));
    }
}

/// A whole subscription, from the submission of the descriptor to the end of
/// the stream, reports the slot number of every slot update that was
/// delivered, once each and in the order of delivery, and ends closed.
pub proof fn lemma_whole_subscription(items: Seq<StreamItem>)
    ensures
        reported(Phase::Disconnected, subscription(items)) == slot_numbers(items),
        phase_after(Phase::Disconnected, subscription(items)) == Phase::Closed,
{
    let submitted = seq![ChannelEvent::DescriptorSubmitted];
    let obtained = seq![ChannelEvent::StreamObtained];
    let closing = seq![ChannelEvent::EndOfStream];
    let opening = submitted + obtained;
    assert(opening == seq![ChannelEvent::DescriptorSubmitted, ChannelEvent::StreamObtained]);
    lemma_one_event(Phase::Disconnected, ChannelEvent::DescriptorSubmitted);
    lemma_one_event(Phase::Subscribing, ChannelEvent::StreamObtained);
    lemma_one_event(Phase::Streaming, ChannelEvent::EndOfStream);
    lemma_run_in_sequence(Phase::Disconnected, submitted, obtained);
    lemma_streaming_reports_slot_numbers(items);
    lemma_run_in_sequence(Phase::Disconnected, opening, deliveries(items));
    lemma_run_in_sequence(Phase::Disconnected, opening + deliveries(items), closing);
    assert(Seq::<u64>::empty() + Seq::<u64>::empty() + slot_numbers(items) + Seq::<u64>::empty()
        == slot_numbers(items));
}

/// How far a subscription has come.
pub open spec fn progress(phase: Phase) -> nat {
    match phase {
        Phase::Disconnected => 0,
        Phase::Subscribing => 1,
        Phase::Streaming => 2,
        Phase::Closed => 3,
    }
}

/// A subscription only moves forward: whatever arrives, it never falls back
/// to an earlier phase. So a descriptor is accepted at most once, at the start.
pub proof fn lemma_phases_only_advance(phase: Phase, events: Seq<ChannelEvent>)
    ensures
        progress(phase) <= progress(phase_after(phase, events)) <= progress(phase) + events.len(),
    decreases events.len(),
{
    if events.len() > 0 {
        lemma_phases_only_advance(phase, events.drop_last());
    }
}

} // verus!
