//! The decisions of the command server.
//!
//! The server listens on a loopback port and serves one connection at a
//! time. The listening and the sleeping are done by the caller: at the
//! top of each turn of the accept loop it reads the running flag and, if
//! the flag is set, tries to accept a connection. `CommandServer::step`
//! says what follows from what it met.

use crate::command::{parse, parse_command, Command, CommandView};
use vstd::prelude::*;

verus! {

/// The port on the loopback address that the server listens on.
pub const COMMAND_PORT: u16 = 7878;

/// How long the server sleeps when no connection is pending, in
/// milliseconds.
pub const IDLE_DELAY_MILLIS: u64 = 100;

/// How long the server sleeps after a failed accept, in milliseconds.
pub const ERROR_DELAY_MILLIS: u64 = 1000;

/// What one turn of the accept loop met.
#[derive(Debug, PartialEq, Eq)]
pub enum AcceptEvent {
    /// The process-wide running flag was found cleared at the top of the
    /// turn.
    ShutdownRequested,
    /// The port could not be bound.
    BindFailed,
    /// A connection came in and this line was read from it.
    Line(String),
    /// A connection came in and no line could be read from it.
    Unreadable,
    /// No connection is pending.
    WouldBlock,
    /// Accepting failed for another reason.
    AcceptFailed,
}

/// What the accept loop has to do next.
#[derive(Debug, PartialEq, Eq)]
pub enum ServerAction {
    /// Leave the accept loop.
    Stop,
    /// Reload the payload from this path, log the outcome, and go on.
    Reload(String),
    /// Log this command word as unknown, and go on.
    ReportUnrecognized(String),
    /// Log that an empty command came in, and go on.
    ReportEmpty,
    /// Go on with the next turn at once.
    Continue,
    /// Sleep for so many milliseconds, then go on.
    Sleep(u64),
}

/// What a `ServerAction` holds.
pub enum ServerActionView {
    Stop,
    Reload(Seq<char>),
    ReportUnrecognized(Seq<char>),
    ReportEmpty,
    Continue,
    Sleep(u64),
}

impl View for ServerAction {
    type V = ServerActionView;

    open spec fn view(&self) -> ServerActionView {
        match self {
            ServerAction::Stop => ServerActionView::Stop,
            ServerAction::Reload(path) => ServerActionView::Reload(path@),
            ServerAction::ReportUnrecognized(word) => ServerActionView::ReportUnrecognized(word@),
            ServerAction::ReportEmpty => ServerActionView::ReportEmpty,
            ServerAction::Continue => ServerActionView::Continue,
            ServerAction::Sleep(millis) => ServerActionView::Sleep(*millis),
        }
    }
}

/// What a command asks the server to do.
pub open spec fn dispatch(command: CommandView) -> ServerActionView {
    match command {
        CommandView::Reload(path) => ServerActionView::Reload(path),
        CommandView::Unrecognized(word) => ServerActionView::ReportUnrecognized(word),
        CommandView::Empty => ServerActionView::ReportEmpty,
    }
}

/// What an `AcceptEvent` holds.
pub enum AcceptEventView {
    ShutdownRequested,
    BindFailed,
    Line(Seq<char>),
    Unreadable,
    WouldBlock,
    AcceptFailed,
}

impl View for AcceptEvent {
    type V = AcceptEventView;

    open spec fn view(&self) -> AcceptEventView {
        match self {
            AcceptEvent::ShutdownRequested => AcceptEventView::ShutdownRequested,
            AcceptEvent::BindFailed => AcceptEventView::BindFailed,
            AcceptEvent::Line(line) => AcceptEventView::Line(line@),
            AcceptEvent::Unreadable => AcceptEventView::Unreadable,
            AcceptEvent::WouldBlock => AcceptEventView::WouldBlock,
            AcceptEvent::AcceptFailed => AcceptEventView::AcceptFailed,
        }
    }
}

/// The action that follows from one turn of the accept loop.
///
/// The loop ends when shutdown was requested and when the port cannot be
/// bound. A line is parsed and dispatched. Nothing else ends the loop: a
/// connection without a line is dropped, and the server sleeps briefly
/// when nothing is pending and longer after an error.
pub open spec fn server_action(event: AcceptEventView) -> ServerActionView {
    match event {
        AcceptEventView::ShutdownRequested => ServerActionView::Stop,
        AcceptEventView::BindFailed => ServerActionView::Stop,
        AcceptEventView::Line(line) => dispatch(parse(line)),
        AcceptEventView::Unreadable => ServerActionView::Continue,
        AcceptEventView::WouldBlock => ServerActionView::Sleep(IDLE_DELAY_MILLIS),
        AcceptEventView::AcceptFailed => ServerActionView::Sleep(ERROR_DELAY_MILLIS),
    }
}

/// The command server. It keeps no state between turns.
#[derive(Debug, Clone, Copy, PartialEq, Eq)]
pub struct CommandServer {}

impl CommandServer {
    /// Decides one turn of the accept loop.
    pub fn step(event: AcceptEvent) -> (action: ServerAction)
        ensures
            action@ == server_action(event@),
    {
        match event {
            AcceptEvent::ShutdownRequested => ServerAction::Stop,
            AcceptEvent::BindFailed => ServerAction::Stop,
            AcceptEvent::Line(line) => match parse_command(line.as_str()) {
                Command::Reload(path) => ServerAction::Reload(path),
                Command::Unrecognized(word) => ServerAction::ReportUnrecognized(word),
                Command::Empty => ServerAction::ReportEmpty,
            },
            AcceptEvent::Unreadable => ServerAction::Continue,
            AcceptEvent::WouldBlock => ServerAction::Sleep(IDLE_DELAY_MILLIS),
            AcceptEvent::AcceptFailed => ServerAction::Sleep(ERROR_DELAY_MILLIS),
        }
    }
}

} // verus!
