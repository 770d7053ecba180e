//! The channels that log lines and stream events travel on.
//!
//! A channel is shared with tasks the library does not see, so whether a send
//! finds room or a listener is not determined here. What is determined is what
//! has passed through a handle: what was offered to its channel, what the
//! channel accepted, what was taken off it, and how many listeners it found when
//! it counted them.

use crate::log_line::{LineView, SandboxLogLine, SandboxStreamEvent, StreamEventView};
use tokio::sync::{broadcast, mpsc};
use vstd::prelude::*;

verus! {

/// The sending half of a broadcast channel.
#[verifier::external_type_specification]
#[verifier::external_body]
#[verifier::reject_recursive_types(T)]
pub struct ExBroadcastSender<T>(tokio::sync::broadcast::Sender<T>);

/// A listener on a broadcast channel.
#[verifier::external_type_specification]
#[verifier::external_body]
#[verifier::reject_recursive_types(T)]
pub struct ExBroadcastReceiver<T>(tokio::sync::broadcast::Receiver<T>);

/// The sending half of a bounded queue.
#[verifier::external_type_specification]
#[verifier::external_body]
#[verifier::reject_recursive_types(T)]
pub struct ExQueueSender<T>(tokio::sync::mpsc::Sender<T>);

/// The receiving half of a bounded queue.
#[verifier::external_type_specification]
#[verifier::external_body]
#[verifier::reject_recursive_types(T)]
pub struct ExQueueReceiver<T>(tokio::sync::mpsc::Receiver<T>);

/// The events that a handle has offered to its broadcast channel, oldest first.
pub uninterp spec fn broadcast_offers(
    sender: tokio::sync::broadcast::Sender<SandboxStreamEvent>,
) -> Seq<StreamEventView>;

/// The events that a handle has put on its broadcast channel, oldest first.
pub uninterp spec fn broadcasts(
    sender: tokio::sync::broadcast::Sender<SandboxStreamEvent>,
) -> Seq<StreamEventView>;

/// How many events a broadcast channel was made to hold for a slow listener.
pub uninterp spec fn broadcast_limit(
    sender: tokio::sync::broadcast::Sender<SandboxStreamEvent>,
) -> usize;

/// The numbers of listeners that a handle has found on its broadcast channel,
/// one for each time it counted them, oldest first.
pub uninterp spec fn listener_counts(
    sender: tokio::sync::broadcast::Sender<SandboxStreamEvent>,
) -> Seq<usize>;

/// The broadcast channel that a handle sends on.
pub uninterp spec fn fed_channel(
    sender: tokio::sync::broadcast::Sender<SandboxStreamEvent>,
) -> nat;

/// The broadcast channel that a listener listens on.
pub uninterp spec fn heard_channel(
    receiver: tokio::sync::broadcast::Receiver<SandboxStreamEvent>,
) -> nat;

/// The events that had been put on a channel when the listener joined it: it
/// hears what comes after them.
pub uninterp spec fn missed(
    receiver: tokio::sync::broadcast::Receiver<SandboxStreamEvent>,
) -> Seq<StreamEventView>;

/// The lines that a handle has offered to its queue, oldest first.
pub uninterp spec fn queue_offers(sender: tokio::sync::mpsc::Sender<SandboxLogLine>) -> Seq<
    LineView,
>;

/// The lines that a handle has put on its queue, oldest first.
pub uninterp spec fn enqueued(sender: tokio::sync::mpsc::Sender<SandboxLogLine>) -> Seq<LineView>;

/// How many lines a queue was made to hold.
pub uninterp spec fn queue_limit(sender: tokio::sync::mpsc::Sender<SandboxLogLine>) -> usize;

/// The lines that a handle has taken off its queue, oldest first.
pub uninterp spec fn taken(receiver: tokio::sync::mpsc::Receiver<SandboxLogLine>) -> Seq<LineView>;

/// The queue that a handle puts lines on.
pub uninterp spec fn fed_queue(sender: tokio::sync::mpsc::Sender<SandboxLogLine>) -> nat;

/// The queue that a handle takes lines off.
pub uninterp spec fn drained_queue(receiver: tokio::sync::mpsc::Receiver<SandboxLogLine>) -> nat;

/// Whether the last attempt of a handle to take a line found none.
pub uninterp spec fn ran_dry(receiver: tokio::sync::mpsc::Receiver<SandboxLogLine>) -> bool;

/// A new broadcast channel, from `broadcast::channel`; the first listener is
/// dropped.
///
/// Trusted: nothing has been put on it, nobody has counted its listeners, and it
/// holds what was asked for (rounded up to a power of two). A capacity of zero or
/// beyond half the address range makes the call panic.
#[verifier::external_body]
pub(crate) fn new_broadcast(capacity: usize) -> (sender: broadcast::Sender<SandboxStreamEvent>)
    requires
        0 < capacity <= usize::MAX / 2,
    ensures
        broadcast_offers(sender) == Seq::<StreamEventView>::empty(),
        broadcasts(sender) == Seq::<StreamEventView>::empty(),
        broadcast_limit(sender) == capacity,
        listener_counts(sender) == Seq::<usize>::empty(),
{
    let (sender, _) = broadcast::channel(capacity);
    sender
}

/// Join a broadcast channel, with `Sender::subscribe`.
///
/// Trusted: the listener listens on the handle's own channel, and hears what is
/// put on it after this call.
#[verifier::external_body]
pub(crate) fn join(sender: &broadcast::Sender<SandboxStreamEvent>) -> (receiver:
    broadcast::Receiver<SandboxStreamEvent>)
    ensures
        heard_channel(receiver) == fed_channel(*sender),
        missed(receiver) == broadcasts(*sender),
{
    sender.subscribe()
}

/// How many listeners a channel has at the moment, from
/// `Sender::receiver_count`.
///
/// Trusted: the number handed back is what this count found, and counting puts
/// nothing on the channel, which stays the same one. Listeners come and go on other tasks, so nothing is
/// promised of the size of the number.
#[verifier::external_body]
pub(crate) fn listeners(sender: &mut broadcast::Sender<SandboxStreamEvent>) -> (count: usize)
    ensures
        listener_counts(*final(sender)) == listener_counts(*old(sender)).push(count),
        broadcast_offers(*final(sender)) == broadcast_offers(*old(sender)),
        broadcasts(*final(sender)) == broadcasts(*old(sender)),
        broadcast_limit(*final(sender)) == broadcast_limit(*old(sender)),
        fed_channel(*final(sender)) == fed_channel(*old(sender)),
{
    sender.receiver_count()
}

/// Put an event on a broadcast channel, with `Sender::send`.
///
/// Trusted: the event is offered once; accepted, it goes behind those before it;
/// where it found no listener, nothing is put on the channel. It is the handle's
/// own channel, before and after.
#[verifier::external_body]
pub(crate) fn announce(
    sender: &mut broadcast::Sender<SandboxStreamEvent>,
    event: SandboxStreamEvent,
) -> (accepted: bool)
    ensures
        broadcast_offers(*final(sender)) == broadcast_offers(*old(sender)).push(event@),
        broadcasts(*final(sender)) == if accepted {
            broadcasts(*old(sender)).push(event@)
        } else {
            broadcasts(*old(sender))
        },
        broadcast_limit(*final(sender)) == broadcast_limit(*old(sender)),
        listener_counts(*final(sender)) == listener_counts(*old(sender)),
        fed_channel(*final(sender)) == fed_channel(*old(sender)),
{
    sender.send(event).is_ok()
}

/// What became of a line offered to a queue.
#[derive(Debug, Clone, Copy, PartialEq, Eq, Structural)]
pub enum SendOutcome {
    /// The queue took it.
    Accepted,
    /// The queue had no room.
    Full,
    /// Nobody reads the queue any more.
    Closed,
}

/// A new bounded queue, from `mpsc::channel`.
///
/// Trusted: the two ends belong to one queue, nothing has been put on it or taken
/// off it, and it holds as many lines as was asked for. A capacity of zero or
/// beyond an eighth of the address range makes the call panic.
#[verifier::external_body]
pub(crate) fn new_queue(capacity: usize) -> (ends: (
    mpsc::Sender<SandboxLogLine>,
    mpsc::Receiver<SandboxLogLine>,
))
    requires
        0 < capacity <= usize::MAX / 8,
    ensures
        queue_offers(ends.0) == Seq::<LineView>::empty(),
        enqueued(ends.0) == Seq::<LineView>::empty(),
        queue_limit(ends.0) == capacity,
        taken(ends.1) == Seq::<LineView>::empty(),
        fed_queue(ends.0) == drained_queue(ends.1),
{
    mpsc::channel(capacity)
}

/// Another handle on a queue, from `Clone` for `mpsc::Sender`.
///
/// Trusted: it feeds the same queue, and nothing has been offered through it.
#[verifier::external_body]
pub(crate) fn another_sender(sender: &mpsc::Sender<SandboxLogLine>) -> (copy: mpsc::Sender<
    SandboxLogLine,
>)
    ensures
        fed_queue(copy) == fed_queue(*sender),
        queue_offers(copy) == Seq::<LineView>::empty(),
        enqueued(copy) == Seq::<LineView>::empty(),
        queue_limit(copy) == queue_limit(*sender),
{
    sender.clone()
}

/// Offer a line to a queue without waiting, with `mpsc::Sender::try_send`.
///
/// Trusted: the line is offered once; accepted, it goes behind those before it;
/// refused, nothing is put on the queue. It is the handle's own queue, before and
/// after.
#[verifier::external_body]
pub(crate) fn offer(sender: &mut mpsc::Sender<SandboxLogLine>, line: SandboxLogLine) -> (outcome:
    SendOutcome)
    ensures
        queue_offers(*final(sender)) == queue_offers(*old(sender)).push(line@),
        enqueued(*final(sender)) == if outcome == SendOutcome::Accepted {
            enqueued(*old(sender)).push(line@)
        } else {
            enqueued(*old(sender))
        },
        queue_limit(*final(sender)) == queue_limit(*old(sender)),
        fed_queue(*final(sender)) == fed_queue(*old(sender)),
{
    match sender.try_send(line) {
        Ok(()) => SendOutcome::Accepted,
        Err(mpsc::error::TrySendError::Full(_)) => SendOutcome::Full,
        Err(mpsc::error::TrySendError::Closed(_)) => SendOutcome::Closed,
    }
}

/// Take the next line off a queue without waiting, with
/// `mpsc::Receiver::try_recv`.
///
/// Trusted: a line that comes back has left the handle's own queue; where none
/// does, nothing has.
#[verifier::external_body]
pub(crate) fn take(receiver: &mut mpsc::Receiver<SandboxLogLine>) -> (line: Option<SandboxLogLine>)
    ensures
        taken(*final(receiver)) == match line {
            Some(l) => taken(*old(receiver)).push(l@),
            None => taken(*old(receiver)),
        },
        ran_dry(*final(receiver)) == (line is None),
        drained_queue(*final(receiver)) == drained_queue(*old(receiver)),
{
    receiver.try_recv().ok()
}

} // verus!
