//! What the update feed delivers, and what the dispatcher makes of it.

use vstd::prelude::*;

verus! {

/// One decoded update of the feed, tagged by its kind.
///
/// Only a slot update carries data that the dispatcher reads: the number of
/// the slot. An event is delivered once and thrown away after dispatch.
#[derive(Clone, Copy, Debug, PartialEq, Eq, Structural)]
pub enum UpdateEvent {
    Account,
    Slot { slot: u64 },
    Transaction,
    TransactionStatus,
    Block,
    Ping,
    Pong,
    BlockMeta,
    Entry,
}

/// One delivery of the event stream.
#[derive(Clone, Copy, Debug, PartialEq, Eq, Structural)]
pub enum StreamItem {
    /// A message that decoded and carries an update.
    Update(UpdateEvent),
    /// A message that decoded and carries no update.
    Empty,
    /// A delivery that failed at the transport or decoding layer.
    Undecodable,
}

/// What the channel tells the dispatcher.
#[derive(Clone, Copy, Debug, PartialEq, Eq, Structural)]
pub enum ChannelEvent {
    /// The subscription descriptor was submitted over an open channel.
    DescriptorSubmitted,
    /// The stream of responses was obtained.
    StreamObtained,
    /// The stream delivered an item.
    Item(StreamItem),
    /// The server closed the stream.
    EndOfStream,
    /// The channel broke down and will deliver nothing more.
    ChannelFailed,
}

/// Where a subscription stands. There is one per process, and `Closed` is
/// final: nothing reconnects.
#[derive(Clone, Copy, Debug, PartialEq, Eq, Structural)]
pub enum Phase {
    Disconnected,
    Subscribing,
    Streaming,
    Closed,
}

/// What the caller has to do after an event.
#[derive(Clone, Copy, Debug, PartialEq, Eq, Structural)]
pub enum Action {
    /// Nothing.
    NoOp,
    /// Report this slot number, together with the time of capture.
    ReportSlot { slot: u64 },
}

} // verus!
