//! Commands for the operating system, and what comes of running them.
//!
//! The library never starts a program. It says which command an operation
//! needs, as a `Command`, and it reads what came of the command from a
//! `CommandOutcome` that its caller hands back.

use vstd::prelude::*;
use vstd::string::StringExecFns;
use vstd::utf8::{encode_utf8, valid_utf8};

verus! {

/// A program and the arguments to start it with.
#[derive(Debug, Clone)]
pub struct Command {
    pub program: String,
    pub args: Vec<String>,
}

/// A command as contracts speak of it.
pub struct CommandView {
    pub program: Seq<char>,
    pub args: Seq<Seq<char>>,
}

impl View for Command {
    type V = CommandView;

    open spec fn view(&self) -> CommandView {
        CommandView { program: self.program@, args: self.args.deep_view() }
    }
}

impl DeepView for Command {
    type V = CommandView;

    open spec fn deep_view(&self) -> CommandView {
        self@
    }
}

/// What came of a command that was to run to its end.
#[derive(Debug, Clone)]
pub enum CommandOutcome {
    /// The program could not be started; the text is the system's reason.
    LaunchFailed(String),
    /// The program ran and ended.
    Exited {
        /// Whether it ended with exit status zero.
        success: bool,
        /// What it wrote to its standard output.
        stdout: Vec<u8>,
        /// What it wrote to its standard error.
        stderr: Vec<u8>,
    },
}

/// An outcome as contracts speak of it.
pub enum OutcomeView {
    LaunchFailed(Seq<char>),
    Exited { success: bool, stdout: Seq<u8>, stderr: Seq<u8> },
}

impl View for CommandOutcome {
    type V = OutcomeView;

    open spec fn view(&self) -> OutcomeView {
        match self {
            CommandOutcome::LaunchFailed(reason) => OutcomeView::LaunchFailed(reason@),
            CommandOutcome::Exited { success, stdout, stderr } => OutcomeView::Exited {
                success: *success,
                stdout: stdout@,
                stderr: stderr@,
            },
        }
    }
}

impl OutcomeView {
    /// The program ran and ended with exit status zero.
    pub open spec fn succeeded(self) -> bool {
        self matches OutcomeView::Exited { success, .. } && success
    }
}

impl CommandOutcome {
    /// Whether the program ran and ended with exit status zero.
    pub fn succeeded(&self) -> (yes: bool)
        ensures
            yes == self@.succeeded(),
    {
        match self {
            CommandOutcome::LaunchFailed(_) => false,
            CommandOutcome::Exited { success, .. } => *success,
        }
    }
}

/// The text that a program's output is read as: its bytes decoded as UTF-8,
/// each run of bytes that is no UTF-8 replaced by U+FFFD.
pub uninterp spec fn lossy_text(bytes: Seq<u8>) -> Seq<char>;

/// `String::from_utf8_lossy` of std, made into an owned string. The contract
/// gives the result its name, and says what the documentation says of input
/// that is valid UTF-8: the result is the text that the bytes encode.
#[verifier::external_body]
pub(crate) fn decode_lossy(bytes: &[u8]) -> (out: String)
    ensures
        out@ == lossy_text(bytes@),
        valid_utf8(bytes@) ==> encode_utf8(out@) == bytes@,
{
    String::from_utf8_lossy(bytes).into_owned()
}

/// The two texts, one after the other.
pub fn joined(head: &str, tail: &str) -> (out: String)
    ensures
        out@ == head@ + tail@,
{
    let mut out = String::new();
    out.append(head);
    out.append(tail);
    proof {
        assert(Seq::<char>::empty() + head@ == head@);
    }
    out
}

/// The command that starts `program` with the given arguments.
pub fn command(program: &str, args: &[&str]) -> (out: Command)
    ensures
        out@.program == program@,
        out@.args == args@.map_values(|arg: &str| arg@),
{
    let mut list: Vec<String> = Vec::new();
    let mut i: usize = 0;
    while i < args.len()
        invariant
            i <= args.len(),
            list.deep_view() == args@.take(i as int).map_values(|arg: &str| arg@),
        decreases args.len() - i,
    {
        let ghost before = list.deep_view();
        list.push(args[i].to_owned());
        proof {
            assert(list.deep_view() == before.push(args@[i as int]@));
            assert(args@.take(i + 1).map_values(|arg: &str| arg@) == before.push(
                args@[i as int]@,
            ));
        }
        i += 1;
    }
    proof {
        assert(args@.take(i as int) == args@);
    }
    Command { program: program.to_owned(), args: list }
}

} // verus!
