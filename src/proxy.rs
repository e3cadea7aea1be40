//! The handle through which any thread hands a user event to the loop.
use vstd::prelude::*;

verus! {

#[verifier::external_type_specification]
#[verifier::external_body]
#[verifier::reject_recursive_types(T)]
pub struct ExSender<T>(calloop::channel::Sender<T>);

/// Relies on `calloop::channel::Sender::send`, which forwards to
/// `std::sync::mpsc::Sender::send`: a message that cannot be delivered because
/// the receiving loop is gone comes back inside the error.
#[verifier::external_body]
fn send_on_channel<T>(sender: &calloop::channel::Sender<T>, message: T) -> (r: Result<(), T>)
    ensures
        r is Err ==> r->Err_0 == message,
{
    sender.send(message).map_err(|std::sync::mpsc::SendError(back)| back)
}

/// Relies on `calloop::channel::Sender::clone`: another sender on the same
/// channel.
#[verifier::external_body]
fn clone_sender<T>(sender: &calloop::channel::Sender<T>) -> calloop::channel::Sender<T> {
    sender.clone()
}

/// The event could not be delivered because the loop has been torn down; it
/// is handed back.
#[derive(Debug, Clone, PartialEq, Eq)]
pub struct EventLoopClosed<T>(pub T);

/// The outcome of a send: success, or the undelivered event handed back as
/// the error.
pub fn closed_on_failure<T>(sent: Result<(), T>) -> (r: Result<(), EventLoopClosed<T>>)
    ensures
        match sent {
            Ok(()) => r is Ok,
            Err(back) => r == Err::<(), EventLoopClosed<T>>(EventLoopClosed(back)),
        },
{
    match sent {
        Ok(()) => Ok(()),
        Err(back) => Err(EventLoopClosed(back)),
    }
}

/// A handle that can be sent across threads to queue user events.
#[verifier::reject_recursive_types(T)]
pub struct EventLoopProxy<T> {
    user_events_sender: calloop::channel::Sender<T>,
}

impl<T> EventLoopProxy<T> {
    pub fn new(user_events_sender: calloop::channel::Sender<T>) -> Self {
        EventLoopProxy { user_events_sender }
    }

    /// Queues `event` for the loop without blocking. Fails only when the loop
    /// has been torn down, and then returns the same event.
    pub fn send_event(&self, event: T) -> (r: Result<(), EventLoopClosed<T>>)
        ensures
            r is Err ==> r->Err_0.0 == event,
    {
        closed_on_failure(send_on_channel(&self.user_events_sender, event))
    }
}

impl<T> Clone for EventLoopProxy<T> {
    fn clone(&self) -> Self {
        EventLoopProxy { user_events_sender: clone_sender(&self.user_events_sender) }
    }
}

} // verus!
