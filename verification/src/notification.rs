use vstd::prelude::*;

verus! {

/// A message for a customer: where to send it, a title, and a body.
/// Fire-and-forget; a failure to deliver never fails the workflow that
/// produced it.
#[derive(Clone, Debug, PartialEq)]
pub struct NotificationMessage {
    pub recipient: String,
    pub title: String,
    pub body: String,
}

/// The interface of a notification provider. Implemented outside this
/// library by the provider adapters; the settlement workflow consumes
/// its outcome as a value.
pub trait NotificationGateway {
    fn send_notification(&self, message: NotificationMessage) -> Result<
        (),
        crate::errors::NotifyFault,
    >;
}

} // verus!
