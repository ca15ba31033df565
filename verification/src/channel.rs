//! Trusted declarations of the crossbeam channel endpoints through which
//! the dispatcher and its callers communicate.

use vstd::prelude::*;

verus! {

#[verifier::external_type_specification]
#[verifier::external_body]
#[verifier::reject_recursive_types(T)]
pub struct ExSender<T>(crossbeam::channel::Sender<T>);

#[verifier::external_type_specification]
#[verifier::external_body]
#[verifier::reject_recursive_types(T)]
pub struct ExReceiver<T>(crossbeam::channel::Receiver<T>);

/// Relies on crossbeam's `Sender::send`: on a channel that is not both
/// bounded and full it returns `Ok` once the message is placed in the
/// channel, and `Err` when every receiver is gone. Which of the two happens
/// depends on the other side, so nothing more is promised here.
#[verifier::external_body]
pub(crate) fn channel_send<T>(s: &crossbeam::channel::Sender<T>, msg: T) -> (delivered: bool) {
    s.send(msg).is_ok()
}

/// Relies on crossbeam's `Receiver::recv`: it blocks until a message
/// arrives and returns `None` once the channel is empty with every sender
/// gone. Which message arrives depends on the other side, so nothing more
/// is promised here.
#[verifier::external_body]
pub(crate) fn channel_recv<T>(r: &crossbeam::channel::Receiver<T>) -> (m: Option<T>) {
    r.recv().ok()
}

} // verus!
