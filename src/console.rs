//! The decisions of the interactive console: what each typed line means,
//! and when the loop ends. The caller reads the lines, runs the commands on
//! the session and prints what comes back.

use crate::text::{eq_ignore_ascii_case, same_ignoring_ascii_case, trim_of, trim_str};
use vstd::prelude::*;

verus! {

/// The word that leaves the console.
pub open spec fn quit_word() -> Seq<char> {
    seq!['Q']
}

/// The command after which the console ends.
pub open spec fn stop_word() -> Seq<char> {
    seq!['s', 't', 'o', 'p']
}

/// Where the console loop stands.
#[derive(Debug, Clone, Copy, PartialEq, Eq, Structural)]
pub enum ConsoleState {
    /// Waiting for a line.
    Prompting,
    /// A command was handed out; `stop_after` ends the loop once its reply
    /// (or error) has been handled.
    AwaitingReply { stop_after: bool },
    /// The loop has ended.
    Finished,
}

/// What the caller does with a line.
#[derive(Debug)]
pub enum ConsoleAction {
    /// No more input: print the exit notice and leave.
    EndOfInput,
    /// An empty line: prompt again.
    Reprompt,
    /// The user asked to leave: nothing more is sent.
    Quit,
    /// Run this command on the session and print its reply.
    Execute(String),
}

/// The console loop, as a state machine over the lines it reads.
pub struct ConsoleLoop {
    state: ConsoleState,
}

impl ConsoleLoop {
    pub closed spec fn state_spec(&self) -> ConsoleState {
        self.state
    }

    /// A loop that waits for its first line.
    pub fn new() -> (r: ConsoleLoop)
        ensures
            r.state_spec() == ConsoleState::Prompting,
    {
        ConsoleLoop { state: ConsoleState::Prompting }
    }

    /// The current state.
    pub fn state(&self) -> (r: ConsoleState)
        ensures
            r == self.state_spec(),
    {
        self.state
    }

    /// Whether the loop has ended.
    pub fn is_finished(&self) -> (r: bool)
        ensures
            r == (self.state_spec() == ConsoleState::Finished),
    {
        self.state == ConsoleState::Finished
    }

    /// Takes the next line of input, `None` at the end of input. The line
    /// is trimmed; an empty one is ignored, `Q` in either case ends the loop,
    /// and anything else is a command to run.
    pub fn on_line(&mut self, line: Option<&str>) -> (r: ConsoleAction)
        requires
            old(self).state_spec() == ConsoleState::Prompting,
        ensures
            match line {
                None => r is EndOfInput && final(self).state_spec() == ConsoleState::Finished,
                Some(l) => {
                    let cmd = trim_of(l@);
                    if cmd.len() == 0 {
                        r is Reprompt && final(self).state_spec() == ConsoleState::Prompting
                    } else if eq_ignore_ascii_case(cmd, quit_word()) {
                        r is Quit && final(self).state_spec() == ConsoleState::Finished
                    } else {
                        &&& (r matches ConsoleAction::Execute(c) && c@ == cmd)
                        &&& final(self).state_spec() == (ConsoleState::AwaitingReply {
                            stop_after: eq_ignore_ascii_case(cmd, stop_word()),
                        })
                    }
                },
            },
    {
        match line {
            None => {
                self.state = ConsoleState::Finished;
                ConsoleAction::EndOfInput
            },
            Some(l) => {
                let cmd = trim_str(l);
                if cmd.is_empty() {
                    return ConsoleAction::Reprompt;
                }
                proof {
                    reveal_strlit("Q");
                    reveal_strlit("stop");
                }
                assert("Q"@ =~= quit_word());
                assert("stop"@ =~= stop_word());
                if same_ignoring_ascii_case(cmd, "Q") {
                    self.state = ConsoleState::Finished;
                    return ConsoleAction::Quit;
                }
                let stop_after = same_ignoring_ascii_case(cmd, "stop");
                self.state = ConsoleState::AwaitingReply { stop_after };
                ConsoleAction::Execute(cmd.to_owned())
            },
        }
    }

    /// The reply to the command (or its error) has been printed. After
    /// `stop` the loop ends, since the server may close the connection.
    pub fn on_reply(&mut self)
        requires
            old(self).state_spec() is AwaitingReply,
        ensures
            old(self).state_spec() matches ConsoleState::AwaitingReply { stop_after } && stop_after
                ==> final(self).state_spec() == ConsoleState::Finished,
            old(self).state_spec() matches ConsoleState::AwaitingReply { stop_after } && !stop_after
                ==> final(self).state_spec() == ConsoleState::Prompting,
    {
        if let ConsoleState::AwaitingReply { stop_after } = self.state {
            if stop_after {
                self.state = ConsoleState::Finished;
            } else {
                self.state = ConsoleState::Prompting;
            }
        }
    }

    /// The connection was lost: the loop ends.
    pub fn on_connection_lost(&mut self)
        ensures
            final(self).state_spec() == ConsoleState::Finished,
    {
        self.state = ConsoleState::Finished;
    }
}

} // verus!
