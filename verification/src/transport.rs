//! The boundary between the client and whoever owns the connection. The
//! client asks for one thing at a time with an [`Action`]; the owner of the
//! connection does it and answers with an [`Event`].

use vstd::prelude::*;
use crate::error::FtpError;

verus! {

/// What the connection answered to the last thing asked of it.
#[derive(Debug, PartialEq, Eq)]
pub enum Event {
    /// The text was written to the stream and the stream was flushed.
    Sent,
    /// A read of one line returned this text: the line with its line feed,
    /// or what had come before the stream closed, which may be nothing.
    Line(String),
    /// The transport reported an error.
    Failed,
}

/// An [`Event`] as a mathematical value.
pub enum EventView {
    Sent,
    Line(Seq<char>),
    Failed,
}

impl View for Event {
    type V = EventView;

    open spec fn view(&self) -> EventView {
        match self {
            Event::Sent => EventView::Sent,
            Event::Line(text) => EventView::Line(text@),
            Event::Failed => EventView::Failed,
        }
    }
}

/// What the owner of the connection is to do next.
#[derive(Debug, PartialEq, Eq)]
pub enum Action {
    /// Write exactly this text to the stream and flush it, then answer
    /// [`Event::Sent`], or [`Event::Failed`] where either step failed.
    Send(String),
    /// Read one line from the stream, then answer [`Event::Line`] with what
    /// was read, or [`Event::Failed`] where the read failed.
    Receive,
    /// Nothing more: the exchange is over, with this result.
    Finish(Result<(), FtpError>),
}

/// An [`Action`] as a mathematical value.
pub enum ActionView {
    Send(Seq<char>),
    Receive,
    Finish(Result<(), FtpError>),
}

impl View for Action {
    type V = ActionView;

    open spec fn view(&self) -> ActionView {
        match self {
            Action::Send(text) => ActionView::Send(text@),
            Action::Receive => ActionView::Receive,
            Action::Finish(result) => ActionView::Finish(*result),
        }
    }
}

/// What the answer to a [`Action::Send`] means: success where the text was
/// sent, and a transport failure on any other answer.
pub open spec fn sent_outcome(event: EventView) -> Result<(), FtpError> {
    match event {
        EventView::Sent => Ok(()),
        _ => Err(FtpError::Io),
    }
}

/// Reads the answer to a [`Action::Send`].
pub fn confirm_sent(event: &Event) -> (result: Result<(), FtpError>)
    ensures
        result == sent_outcome(event@),
{
    match event {
        Event::Sent => Ok(()),
        _ => Err(FtpError::Io),
    }
}

} // verus!
