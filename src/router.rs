//! Navigation commands and the cloneable handle that pages emit them through.
use vstd::prelude::*;

verus! {

/// Relies on tokio's `UnboundedSender`: the sending half of the command channel.
#[verifier::external_type_specification]
#[verifier::external_body]
#[verifier::reject_recursive_types(T)]
pub struct ExUnboundedSender<T>(tokio::sync::mpsc::UnboundedSender<T>);

/// Relies on tokio's `SendError`: the value handed back when the receiver is gone.
#[verifier::external_type_specification]
#[verifier::external_body]
#[verifier::reject_recursive_types(T)]
pub struct ExSendError<T>(tokio::sync::mpsc::error::SendError<T>);

/// Relies on `UnboundedSender::send`: never blocks; fails only when the receiver is gone,
/// which the handle ignores, so nothing is stated of the outcome.
pub assume_specification<T>[ tokio::sync::mpsc::UnboundedSender::<T>::send ](
    sender: &tokio::sync::mpsc::UnboundedSender<T>,
    message: T,
) -> (r: Result<(), tokio::sync::mpsc::error::SendError<T>>);

/// Relies on `UnboundedSender::clone`: another handle on the same channel.
pub assume_specification<T>[ <tokio::sync::mpsc::UnboundedSender<T> as Clone>::clone ](
    sender: &tokio::sync::mpsc::UnboundedSender<T>,
) -> (r: tokio::sync::mpsc::UnboundedSender<T>);

/// A command that changes the page stack or asks for a redraw.
#[allow(non_camel_case_types)]
#[derive(Clone, Copy, Debug, PartialEq, Eq)]
pub enum RouterAction<ID> {
    PUSH(ID),
    REPLACE(ID),
    BACK,
    CLEAR,
    RESTART,
    EXIT,
    REDRAW,
}

/// Fire-and-forget handle through which a page emits navigation commands.
#[derive(Clone)]
#[verifier::reject_recursive_types(ID)]
pub struct Router<ID> {
    bus: tokio::sync::mpsc::UnboundedSender<RouterAction<ID>>,
}

impl<ID> Router<ID> {
    /// The channel that this handle sends on.
    pub closed spec fn channel(&self) -> tokio::sync::mpsc::UnboundedSender<RouterAction<ID>> {
        self.bus
    }

    pub fn new(bus: tokio::sync::mpsc::UnboundedSender<RouterAction<ID>>) -> (r: Self)
        ensures
            r.channel() == bus,
    {
        Router { bus }
    }

    fn emit(&self, action: RouterAction<ID>) {
        let _ = self.bus.send(action);
    }

    /// Asks for a page for `id` to be constructed and put on top of the stack.
    pub fn push(&self, id: ID) {
        self.emit(RouterAction::PUSH(id));
    }

    /// Asks for the current page to be swapped for a page for `id`.
    pub fn replace(&self, id: ID) {
        self.emit(RouterAction::REPLACE(id));
    }

    /// Asks for the current page to be removed, unless it is the only one.
    pub fn back(&self) {
        self.emit(RouterAction::BACK);
    }

    /// Asks for every page but the current one to be removed.
    pub fn clear(&self) {
        self.emit(RouterAction::CLEAR);
    }

    /// Asks for the stack to be replaced by one default page.
    pub fn restart(&self) {
        self.emit(RouterAction::RESTART);
    }

    /// Asks for every page to be removed and the loop to end.
    pub fn exit(&self) {
        self.emit(RouterAction::EXIT);
    }

    /// Asks for a draw before the next wait.
    pub fn redraw(&self) {
        self.emit(RouterAction::REDRAW);
    }
}

} // verus!
