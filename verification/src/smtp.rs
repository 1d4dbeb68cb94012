//! The sending side of an account.

pub mod send;

use vstd::prelude::*;

verus! {

/// What the sending side knows of itself: whether it has a transport to
/// the server, and when it last delivered a message.
pub struct Smtp {
    transport: bool,
    last_success: Option<u64>,
}

/// Mathematical value of an [`Smtp`].
pub struct SmtpView {
    pub transport: bool,
    pub last_success: Option<u64>,
}

impl View for Smtp {
    type V = SmtpView;

    closed spec fn view(&self) -> SmtpView {
        SmtpView { transport: self.transport, last_success: self.last_success }
    }
}

impl Smtp {
    /// A sending side without a transport that has delivered nothing yet.
    pub fn new() -> (res: Smtp)
        ensures
            res@ == (SmtpView { transport: false, last_success: None }),
    {
        Smtp { transport: false, last_success: None }
    }

    /// Notes that the transport was set up or was lost.
    pub fn set_transport(&mut self, transport: bool)
        ensures
            final(self)@ == (SmtpView { transport, ..old(self)@ }),
    {
        self.transport = transport;
    }

    /// Whether there is a transport.
    pub fn has_transport(&self) -> (res: bool)
        ensures
            res == self@.transport,
    {
        self.transport
    }

    /// Notes a delivery at the time `now`.
    pub(crate) fn noted(&mut self, now: u64)
        ensures
            final(self)@ == (SmtpView { last_success: Some(now), ..old(self)@ }),
    {
        self.last_success = Some(now);
    }

    /// When a message was last delivered, in seconds of the caller's clock.
    pub fn last_success(&self) -> (res: Option<u64>)
        ensures
            res == self@.last_success,
    {
        self.last_success
    }
}

} // verus!
