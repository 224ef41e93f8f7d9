//! One miner's connection: from the buffered bytes to the next thing to do.

use crate::framing::{after_head, head_frame, Frame, FrameView, LineBuffer};
use crate::job::Job;
use crate::message::{parse_message, parse_of, Command, CommandView};
use crate::scheduler::Lane;
use vstd::prelude::*;

verus! {

/// The answer to a line that is no command.
pub open spec fn bad_command_text() -> Seq<char> {
    "BAD COMMAND\n"@
}

/// The answer to a line that is no command.
pub fn bad_command() -> (r: &'static str)
    ensures
        r@ == bad_command_text(),
{
    "BAD COMMAND\n"
}

/// What the connection does next.
#[derive(Debug)]
pub enum Action {
    /// Read from the socket: the buffer holds no complete line.
    Read,
    /// Go on to the next line: this one was blank.
    Skip,
    /// Answer `BAD COMMAND` and go on.
    Reject,
    /// Send the job to the scheduler on the given queue.
    Dispatch(Job, Lane),
    /// End the connection: the line is no text.
    Abort,
}

/// An action as plain values.
pub enum ActionView {
    Read,
    Skip,
    Reject,
    Dispatch(CommandView, Lane),
    Abort,
}

impl View for Action {
    type V = ActionView;

    open spec fn view(&self) -> ActionView {
        match self {
            Action::Read => ActionView::Read,
            Action::Skip => ActionView::Skip,
            Action::Reject => ActionView::Reject,
            Action::Dispatch(job, lane) => ActionView::Dispatch(job@, *lane),
            Action::Abort => ActionView::Abort,
        }
    }
}

/// The action for a command: a ping travels on the normal queue, the mining
/// methods on the high one, and anything else is rejected.
pub open spec fn action_of_command(c: CommandView) -> ActionView {
    match c {
        CommandView::Unknown => ActionView::Reject,
        CommandView::Ping => ActionView::Dispatch(c, Lane::Norm),
        _ => ActionView::Dispatch(c, Lane::High),
    }
}

/// The action for a frame.
pub open spec fn action_of_frame(f: FrameView) -> ActionView {
    match f {
        FrameView::Incomplete => ActionView::Read,
        FrameView::Blank => ActionView::Skip,
        FrameView::Invalid => ActionView::Abort,
        FrameView::Line(text) => action_of_command(parse_of(text)),
    }
}

/// Turns a command into the job that carries it, with its queue.
pub fn route(command: Command) -> (a: Action)
    ensures
        a@ == action_of_command(command@),
{
    match command {
        Command::Ping => Action::Dispatch(Job::Ping, Lane::Norm),
        Command::CSubmit(p) => Action::Dispatch(Job::MiningSubmit(p), Lane::High),
        Command::CAuthorize(p) => Action::Dispatch(Job::MiningAuthorize(p), Lane::High),
        Command::CSubscribe(p) => Action::Dispatch(Job::MiningSubscribe(p), Lane::High),
        Command::Unknown => Action::Reject,
    }
}

/// Decides on a frame.
pub fn on_frame(frame: Frame) -> (a: Action)
    ensures
        a@ == action_of_frame(frame@),
{
    match frame {
        Frame::Incomplete => Action::Read,
        Frame::Blank => Action::Skip,
        Frame::Invalid => Action::Abort,
        Frame::Line(text) => route(parse_message(text.as_str())),
    }
}

/// One step of a connection: takes the next line off the buffer, if it holds
/// one, and says what to do with it.
pub fn handle_connection(buffer: &mut LineBuffer) -> (a: Action)
    ensures
        a@ == action_of_frame(head_frame(old(buffer)@)),
        final(buffer)@ == after_head(old(buffer)@),
{
    on_frame(buffer.next_frame())
}

} // verus!
