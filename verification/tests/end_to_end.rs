use geyser_feed::descriptor::Category;
use geyser_feed::dispatcher::{consume, is_closed, step};
use geyser_feed::event::{Action, ChannelEvent, Phase, StreamItem, UpdateEvent};
use geyser_feed::request::{create_subscription_request, FilterSelection};

#[test]
fn blocks_subscription_with_one_slot_update() {
    let selection = FilterSelection { account: None, blocks: true, transactions: false };
    let descriptor = create_subscription_request(&selection);
    let mut categories: Vec<String> =
        descriptor.entries.iter().map(|e| e.criteria.category().name()).collect();
    categories.sort();
    assert_eq!(categories, vec!["blocks".to_string(), "slots".to_string()]);
    assert!(descriptor.has_category(Category::Blocks));
    assert!(descriptor.has_category(Category::Slots));
    assert!(!descriptor.has_category(Category::Accounts));
    assert!(!descriptor.has_category(Category::Transactions));

    let stream = vec![
        ChannelEvent::DescriptorSubmitted,
        ChannelEvent::StreamObtained,
        ChannelEvent::Item(StreamItem::Update(UpdateEvent::Slot { slot: 12345 })),
        ChannelEvent::EndOfStream,
    ];
    let (phase, slots) = consume(Phase::Disconnected, &stream);
    assert_eq!(slots, vec![12345]);
    assert_eq!(phase, Phase::Closed);
    assert!(is_closed(phase));
}

#[test]
fn caller_loop_reports_once_and_stops() {
    let mut deliveries = vec![
        Some(StreamItem::Update(UpdateEvent::Slot { slot: 12345 })),
        None,
    ]
    .into_iter();
    let (phase, _) = step(Phase::Disconnected, ChannelEvent::DescriptorSubmitted);
    let (mut phase, _) = step(phase, ChannelEvent::StreamObtained);
    let mut reports = Vec::new();
    while !is_closed(phase) {
        let event = match deliveries.next().expect("the loop stops at the end of the stream") {
            Some(item) => ChannelEvent::Item(item),
            None => ChannelEvent::EndOfStream,
        };
        let (next, action) = step(phase, event);
        match action {
            Action::ReportSlot { slot } => reports.push(format!("slot={}", slot)),
            Action::NoOp => {}
        }
        phase = next;
    }
    assert_eq!(reports, vec!["slot=12345".to_string()]);
    assert!(deliveries.next().is_none());
}
