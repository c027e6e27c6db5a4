use geyser_feed::dispatcher::{consume, dispatch, handle_item, is_closed, step};
use geyser_feed::event::{Action, ChannelEvent, Phase, StreamItem, UpdateEvent};

fn slot(number: u64) -> ChannelEvent {
    ChannelEvent::Item(StreamItem::Update(UpdateEvent::Slot { slot: number }))
}

fn update(event: UpdateEvent) -> ChannelEvent {
    ChannelEvent::Item(StreamItem::Update(event))
}

const UNDECODABLE: ChannelEvent = ChannelEvent::Item(StreamItem::Undecodable);

const PHASES: [Phase; 4] =
    [Phase::Disconnected, Phase::Subscribing, Phase::Streaming, Phase::Closed];

const QUIET_UPDATES: [UpdateEvent; 8] = [
    UpdateEvent::Account,
    UpdateEvent::Transaction,
    UpdateEvent::TransactionStatus,
    UpdateEvent::Block,
    UpdateEvent::Ping,
    UpdateEvent::Pong,
    UpdateEvent::BlockMeta,
    UpdateEvent::Entry,
];

fn all_events() -> Vec<ChannelEvent> {
    let mut events = vec![
        ChannelEvent::DescriptorSubmitted,
        ChannelEvent::StreamObtained,
        ChannelEvent::Item(StreamItem::Empty),
        UNDECODABLE,
        ChannelEvent::EndOfStream,
        ChannelEvent::ChannelFailed,
        slot(7),
    ];
    for quiet in QUIET_UPDATES {
        events.push(update(quiet));
    }
    events
}

#[test]
fn slot_update_is_reported() {
    assert_eq!(dispatch(UpdateEvent::Slot { slot: 42 }), Action::ReportSlot { slot: 42 });
    assert_eq!(dispatch(UpdateEvent::Slot { slot: 0 }), Action::ReportSlot { slot: 0 });
    assert_eq!(
        dispatch(UpdateEvent::Slot { slot: u64::MAX }),
        Action::ReportSlot { slot: u64::MAX }
    );
}

#[test]
fn every_other_update_is_a_no_op() {
    for quiet in QUIET_UPDATES {
        assert_eq!(dispatch(quiet), Action::NoOp);
    }
}

#[test]
fn every_update_kind_has_an_action() {
    let mut kinds = QUIET_UPDATES.to_vec();
    kinds.push(UpdateEvent::Slot { slot: 9 });
    assert_eq!(kinds.len(), 9);
    for kind in kinds {
        let action = dispatch(kind);
        match kind {
            UpdateEvent::Slot { slot } => assert_eq!(action, Action::ReportSlot { slot }),
            _ => assert_eq!(action, Action::NoOp),
        }
        assert_eq!(handle_item(StreamItem::Update(kind)), action);
        assert_eq!(step(Phase::Streaming, update(kind)), (Phase::Streaming, action));
    }
}

#[test]
fn item_without_update_is_a_no_op() {
    assert_eq!(handle_item(StreamItem::Empty), Action::NoOp);
    assert_eq!(
        step(Phase::Streaming, ChannelEvent::Item(StreamItem::Empty)),
        (Phase::Streaming, Action::NoOp)
    );
}

#[test]
fn undecodable_item_is_skipped() {
    assert_eq!(handle_item(StreamItem::Undecodable), Action::NoOp);
    assert_eq!(step(Phase::Streaming, UNDECODABLE), (Phase::Streaming, Action::NoOp));
}

#[test]
fn subscription_goes_through_its_phases() {
    let (phase, action) = step(Phase::Disconnected, ChannelEvent::DescriptorSubmitted);
    assert_eq!((phase, action), (Phase::Subscribing, Action::NoOp));
    let (phase, action) = step(phase, ChannelEvent::StreamObtained);
    assert_eq!((phase, action), (Phase::Streaming, Action::NoOp));
    let (phase, action) = step(phase, slot(1));
    assert_eq!((phase, action), (Phase::Streaming, Action::ReportSlot { slot: 1 }));
    let (phase, action) = step(phase, ChannelEvent::EndOfStream);
    assert_eq!((phase, action), (Phase::Closed, Action::NoOp));
}

#[test]
fn channel_failure_closes_a_streaming_subscription() {
    assert_eq!(
        step(Phase::Streaming, ChannelEvent::ChannelFailed),
        (Phase::Closed, Action::NoOp)
    );
}

#[test]
fn closed_is_final() {
    for event in all_events() {
        assert_eq!(step(Phase::Closed, event), (Phase::Closed, Action::NoOp));
    }
    let (phase, slots) = consume(Phase::Closed, &all_events());
    assert_eq!(phase, Phase::Closed);
    assert!(slots.is_empty());
}

#[test]
fn items_count_only_while_streaming() {
    for phase in [Phase::Disconnected, Phase::Subscribing, Phase::Closed] {
        assert_eq!(step(phase, slot(5)), (phase, Action::NoOp));
    }
}

#[test]
fn unexpected_event_changes_nothing() {
    assert_eq!(
        step(Phase::Disconnected, ChannelEvent::StreamObtained),
        (Phase::Disconnected, Action::NoOp)
    );
    assert_eq!(
        step(Phase::Disconnected, ChannelEvent::EndOfStream),
        (Phase::Disconnected, Action::NoOp)
    );
    assert_eq!(
        step(Phase::Subscribing, ChannelEvent::DescriptorSubmitted),
        (Phase::Subscribing, Action::NoOp)
    );
    assert_eq!(
        step(Phase::Subscribing, ChannelEvent::ChannelFailed),
        (Phase::Subscribing, Action::NoOp)
    );
    assert_eq!(
        step(Phase::Streaming, ChannelEvent::DescriptorSubmitted),
        (Phase::Streaming, Action::NoOp)
    );
    assert_eq!(
        step(Phase::Streaming, ChannelEvent::StreamObtained),
        (Phase::Streaming, Action::NoOp)
    );
}

#[test]
fn only_a_slot_update_while_streaming_is_reported() {
    for phase in PHASES {
        for event in all_events() {
            let (_, action) = step(phase, event);
            let expected = match (phase, event) {
                (
                    Phase::Streaming,
                    ChannelEvent::Item(StreamItem::Update(UpdateEvent::Slot { slot })),
                ) => Action::ReportSlot { slot },
                _ => Action::NoOp,
            };
            assert_eq!(action, expected);
        }
    }
}

#[test]
fn is_closed_tells_the_final_phase() {
    assert!(is_closed(Phase::Closed));
    assert!(!is_closed(Phase::Disconnected));
    assert!(!is_closed(Phase::Subscribing));
    assert!(!is_closed(Phase::Streaming));
}

#[test]
fn three_slots_are_reported_in_order() {
    let (phase, slots) = consume(Phase::Streaming, &vec![slot(100), slot(101), slot(102)]);
    assert_eq!(slots, vec![100, 101, 102]);
    assert_eq!(phase, Phase::Streaming);
}

#[test]
fn slots_are_not_sorted_or_deduplicated() {
    let (_, slots) = consume(Phase::Streaming, &vec![slot(3), slot(1), slot(3), slot(2)]);
    assert_eq!(slots, vec![3, 1, 3, 2]);
}

#[test]
fn undecodable_item_between_two_slots() {
    let (phase, slots) = consume(Phase::Streaming, &vec![slot(10), UNDECODABLE, slot(11)]);
    assert_eq!(slots, vec![10, 11]);
    assert_eq!(phase, Phase::Streaming);
}

#[test]
fn undecodable_item_changes_no_outcome() {
    let with = vec![slot(1), update(UpdateEvent::Block), UNDECODABLE, slot(2), ChannelEvent::EndOfStream];
    let without = vec![slot(1), update(UpdateEvent::Block), slot(2), ChannelEvent::EndOfStream];
    assert_eq!(consume(Phase::Streaming, &with), consume(Phase::Streaming, &without));
    assert_eq!(consume(Phase::Streaming, &with), (Phase::Closed, vec![1, 2]));
}

#[test]
fn other_updates_are_passed_over_in_a_stream() {
    let mut events = vec![slot(1)];
    for quiet in QUIET_UPDATES {
        events.push(update(quiet));
    }
    events.push(ChannelEvent::Item(StreamItem::Empty));
    events.push(slot(2));
    let (phase, slots) = consume(Phase::Streaming, &events);
    assert_eq!(slots, vec![1, 2]);
    assert_eq!(phase, Phase::Streaming);
}

#[test]
fn nothing_is_reported_after_the_stream_ended() {
    let events = vec![slot(1), ChannelEvent::EndOfStream, slot(2), ChannelEvent::StreamObtained];
    assert_eq!(consume(Phase::Streaming, &events), (Phase::Closed, vec![1]));
}

#[test]
fn nothing_is_reported_before_the_stream_is_obtained() {
    let events = vec![
        slot(1),
        ChannelEvent::DescriptorSubmitted,
        slot(2),
        ChannelEvent::StreamObtained,
        slot(3),
    ];
    assert_eq!(consume(Phase::Disconnected, &events), (Phase::Streaming, vec![3]));
}

#[test]
fn empty_run_changes_nothing() {
    for phase in PHASES {
        assert_eq!(consume(phase, &vec![]), (phase, vec![]));
    }
}

#[test]
fn two_runs_in_sequence_equal_one_run() {
    let first = vec![ChannelEvent::DescriptorSubmitted, ChannelEvent::StreamObtained, slot(4)];
    let rest = vec![UNDECODABLE, slot(5), ChannelEvent::ChannelFailed, slot(6)];
    let (middle, mut reported) = consume(Phase::Disconnected, &first);
    let (end, more) = consume(middle, &rest);
    reported.extend(more);
    let mut whole = first.clone();
    whole.extend(rest);
    assert_eq!(consume(Phase::Disconnected, &whole), (end, reported));
    assert_eq!(consume(Phase::Disconnected, &whole), (Phase::Closed, vec![4, 5]));
}

#[test]
fn consume_agrees_with_step() {
    let events = all_events();
    for start in PHASES {
        let mut phase = start;
        let mut slots = Vec::new();
        for event in &events {
            let (next, action) = step(phase, *event);
            if let Action::ReportSlot { slot } = action {
                slots.push(slot);
            }
            phase = next;
        }
        assert_eq!(consume(start, &events), (phase, slots));
    }
}
