//! Sending a prepared message.
//!
//! The transport itself is not here. [`Smtp::send`] decides whether a
//! message can be handed to the transport and how long the transport may
//! take; [`Smtp::sent`] takes the transport's answer.

use crate::smtp::{Smtp, SmtpView};
use crate::text::{decimal, join, joined, to_decimal};
use vstd::prelude::*;
use vstd::string::*;

verus! {

/// Why a message was not sent.
#[derive(Debug)]
pub enum Error {
    /// No envelope could be made of sender and recipients.
    EnvelopeError(String),
    /// The transport failed.
    SendError(String),
    /// There is no transport.
    NoTransport,
}

/// Mathematical value of an [`Error`].
pub enum ErrorView {
    EnvelopeError(Seq<char>),
    SendError(Seq<char>),
    NoTransport,
}

impl View for Error {
    type V = ErrorView;

    open spec fn view(&self) -> ErrorView {
        match self {
            Error::EnvelopeError(reason) => ErrorView::EnvelopeError(reason@),
            Error::SendError(reason) => ErrorView::SendError(reason@),
            Error::NoTransport => ErrorView::NoTransport,
        }
    }
}

impl ErrorView {
    /// The error in words.
    pub open spec fn message(self) -> Seq<char> {
        match self {
            ErrorView::EnvelopeError(reason) => "Envelope error: "@ + reason,
            ErrorView::SendError(reason) => "Send error: "@ + reason,
            ErrorView::NoTransport => "SMTP has no transport"@,
        }
    }
}

impl Error {
    /// The error in words.
    pub fn message(&self) -> (res: String)
        ensures
            res@ == self@.message(),
    {
        match self {
            Error::EnvelopeError(reason) => String::from_str("Envelope error: ").concat(
                reason.as_str(),
            ),
            Error::SendError(reason) => String::from_str("Send error: ").concat(reason.as_str()),
            Error::NoTransport => String::from_str("SMTP has no transport"),
        }
    }
}

/// Seconds that the transport may take for a message of `len` bytes: one
/// minute and three minutes for each million bytes, rounded down to
/// seconds.
pub open spec fn timeout_secs(len: nat) -> nat {
    60 + 180 * len / 1_000_000
}

/// Seconds that the transport may take for a message of `len` bytes.
pub fn send_timeout(len: usize) -> (res: u64)
    ensures
        res == timeout_secs(len as nat),
{
    let scaled: u128 = 180 * (len as u128) / 1_000_000;
    60 + (scaled as u64)
}

/// A message that may be handed to the transport.
#[derive(Debug)]
pub struct Outgoing {
    /// Seconds that the transport may take.
    pub timeout: u64,
    /// Length of the message in bytes.
    pub message_len: usize,
    /// The recipients, separated by commas.
    pub recipients_display: String,
}

/// Mathematical value of an [`Outgoing`].
pub struct OutgoingView {
    pub timeout: u64,
    pub message_len: usize,
    pub recipients_display: Seq<char>,
}

impl View for Outgoing {
    type V = OutgoingView;

    open spec fn view(&self) -> OutgoingView {
        OutgoingView {
            timeout: self.timeout,
            message_len: self.message_len,
            recipients_display: self.recipients_display@,
        }
    }
}

/// What is to be done with a message: it goes out where the envelope could
/// be made and there is a transport. The envelope is looked at first.
pub open spec fn dispatch(
    smtp: SmtpView,
    envelope: Result<(), Seq<char>>,
    recipients: Seq<Seq<char>>,
    message_len: usize,
) -> Result<OutgoingView, ErrorView> {
    match envelope {
        Err(reason) => Err(ErrorView::EnvelopeError(reason)),
        Ok(_) => if smtp.transport {
            Ok(
                OutgoingView {
                    timeout: timeout_secs(message_len as nat) as u64,
                    message_len,
                    recipients_display: joined(recipients, ","@),
                },
            )
        } else {
            Err(ErrorView::NoTransport)
        },
    }
}

/// What is told of a message that went out.
pub open spec fn sent_notice(outgoing: OutgoingView) -> Seq<char> {
    "Message len="@ + decimal(outgoing.message_len as nat) + " was smtp-sent to "@
        + outgoing.recipients_display
}

impl Smtp {
    /// Prepares to send a message of `message_len` bytes to the recipients;
    /// see [`dispatch`].
    ///
    /// `envelope` says whether an envelope could be made of the sender and
    /// the recipients, and why not if it could not.
    pub fn send(
        &self,
        envelope: Result<(), String>,
        recipients: &Vec<String>,
        message_len: usize,
    ) -> (res: Result<Outgoing, Error>)
        ensures
            match res {
                Ok(outgoing) => Ok(outgoing@),
                Err(error) => Err(error@),
            } == dispatch(
                self@,
                match envelope {
                    Ok(_) => Ok(()),
                    Err(reason) => Err(reason@),
                },
                recipients.deep_view(),
                message_len,
            ),
    {
        match envelope {
            Err(reason) => Err(Error::EnvelopeError(reason)),
            Ok(_) => if self.has_transport() {
                Ok(
                    Outgoing {
                        timeout: send_timeout(message_len),
                        message_len,
                        recipients_display: join(recipients, ","),
                    },
                )
            } else {
                Err(Error::NoTransport)
            },
        }
    }

    /// Takes the transport's answer for a message that was handed to it at
    /// the time `now`.
    ///
    /// A delivery is noted with its time, and what is to be told of it is
    /// returned. A failure changes nothing and is returned with its reason.
    pub fn sent(&mut self, outgoing: &Outgoing, outcome: Result<(), String>, now: u64) -> (res:
        Result<String, Error>)
        ensures
            match outcome {
                Ok(_) => {
                    &&& res matches Ok(notice)
                    &&& notice@ == sent_notice(outgoing@)
                    &&& final(self)@ == (SmtpView { last_success: Some(now), ..old(self)@ })
                },
                Err(reason) => {
                    &&& res matches Err(error)
                    &&& error@ == ErrorView::SendError(reason@)
                    &&& final(self)@ == old(self)@
                },
            },
    {
        match outcome {
            Ok(_) => {
                self.noted(now);
                Ok(
                    String::from_str("Message len=").concat(
                        to_decimal(outgoing.message_len as u64).as_str(),
                    ).concat(" was smtp-sent to ").concat(outgoing.recipients_display.as_str()),
                )
            },
            Err(reason) => Err(Error::SendError(reason)),
        }
    }
}

} // verus!
