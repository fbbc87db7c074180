//! Commands whose execution is logged: how a command line is shown, and
//! what is written to the log of its execution.

use crate::text::{decimal, decimal_text};
use vstd::prelude::*;

verus! {

/// Seconds between asking a command to stop and killing it.
pub const OPERATION_TIMEOUT_SECS: u64 = 2;

/// What is appended to the error output of a command that was stopped for
/// taking too long.
pub const TIMEOUT_NOTICE: &'static str = "operation failed due to timeout";

/// How `std` shows a text for debugging: in double quotes, with its
/// escapes.
pub uninterp spec fn debug_quoted(text: Seq<char>) -> Seq<char>;

/// Shows a text with the `Debug` implementation of `str`. The result is
/// named by `debug_quoted`.
#[verifier::external_body]
fn quote_for_debug(text: &str) -> (r: String)
    ensures
        r@ == debug_quoted(text@),
{
    format!("{:?}", text)
}

/// The command line of a program and its arguments: the program, and each
/// argument behind a space, quoted.
pub open spec fn command_line_of(program: Seq<char>, args: Seq<Seq<char>>) -> Seq<char>
    decreases args.len(),
{
    if args.len() == 0 {
        program
    } else {
        command_line_of(program, args.drop_last()) + " "@ + debug_quoted(args.last())
    }
}

/// The texts of a list of arguments.
pub open spec fn args_model(args: Seq<String>) -> Seq<Seq<char>> {
    Seq::new(args.len(), |i: int| args[i]@)
}

/// A command whose execution is logged: a program and its arguments.
#[derive(Debug)]
pub struct LoggedCommand {
    pub program: String,
    pub args: Vec<String>,
}

impl LoggedCommand {
    /// The command of a program without arguments.
    pub fn new(program: &str) -> (r: LoggedCommand)
        ensures
            r.program@ == program@,
            args_model(r.args@) == Seq::<Seq<char>>::empty(),
    {
        let r = LoggedCommand { program: String::from_str(program), args: Vec::new() };
        assert(args_model(r.args@) =~= Seq::<Seq<char>>::empty());
        r
    }

    /// Adds an argument.
    pub fn arg(&mut self, arg: &str)
        ensures
            final(self).program@ == old(self).program@,
            args_model(final(self).args@) == args_model(old(self).args@).push(arg@),
    {
        self.args.push(String::from_str(arg));
        assert(args_model(self.args@) =~= args_model(old(self).args@).push(arg@));
    }

    /// The command line as it is shown in the log.
    pub fn command_line(&self) -> (r: String)
        ensures
            r@ == command_line_of(self.program@, args_model(self.args@)),
    {
        let mut line = self.program.clone();
        let n: usize = self.args.len();
        let mut i: usize = 0;
        assert(args_model(self.args@).take(0) =~= Seq::<Seq<char>>::empty());
        while i < n
            invariant
                n == self.args@.len(),
                i <= n,
                line@ == command_line_of(self.program@, args_model(self.args@).take(i as int)),
            decreases n - i,
        {
            let quoted = quote_for_debug(self.args[i].as_str());
            proof {
                let upto = args_model(self.args@).take(i + 1);
                assert(upto.drop_last() =~= args_model(self.args@).take(i as int));
                assert(upto.last() == self.args@[i as int]@);
            }
            line.append(" ");
            line.append(quoted.as_str());
            i = i + 1;
        }
        assert(args_model(self.args@).take(n as int) =~= args_model(self.args@));
        line
    }
}

/// How a command ended.
#[derive(Debug)]
pub enum Outcome {
    /// It ran: its exit code, if it has one, and what it wrote.
    Ran { code: Option<i32>, stdout: Vec<u8>, stderr: Vec<u8> },
    /// It could not be run.
    NotRun { error: String },
}

/// An exit code in decimal digits.
pub open spec fn exit_code_text(code: i32) -> Seq<char> {
    if code < 0 {
        "-"@ + decimal((-code) as nat)
    } else {
        decimal(code as nat)
    }
}

/// What is written to the log for a command that ran.
pub open spec fn ran_log(
    command_line: Seq<char>,
    code: Option<i32>,
    stdout: Seq<u8>,
    stderr: Seq<u8>,
) -> Seq<u8> {
    let status = match code {
        Some(code) => "exit status: "@ + exit_code_text(code) + "\n\n"@,
        None => "exit status: unknown\n\n"@,
    };
    vstd::utf8::encode_utf8("----- $ "@ + command_line + "\n"@) + vstd::utf8::encode_utf8(status)
        + vstd::utf8::encode_utf8("stdout <<EOF\n"@) + stdout + vstd::utf8::encode_utf8(
        "EOF\n\n"@,
    ) + vstd::utf8::encode_utf8("stderr <<EOF\n"@) + stderr + vstd::utf8::encode_utf8("EOF\n"@)
}

/// What is written to the log for a command that could not be run.
pub open spec fn not_run_log(command_line: Seq<char>, error: Seq<char>) -> Seq<u8> {
    vstd::utf8::encode_utf8("----- $ "@ + command_line + "\n"@) + vstd::utf8::encode_utf8(
        "error: "@ + error + "\n"@,
    )
}

fn append_text(log: &mut Vec<u8>, text: &str)
    ensures
        final(log)@ == old(log)@ + vstd::utf8::encode_utf8(text@),
{
    let bytes = text.as_bytes_vec();
    log.extend_from_slice(bytes.as_slice());
}

fn exit_code(code: i32) -> (r: String)
    ensures
        r@ == exit_code_text(code),
{
    if code < 0 {
        let mut text = String::from_str("-");
        let magnitude: u64 = (-(code as i64)) as u64;
        text.append(decimal_text(magnitude).as_str());
        text
    } else {
        decimal_text(code as u64)
    }
}

/// What is written to the log of a command: its command line, and how it
/// ended.
pub fn log_outcome(command_line: &str, outcome: &Outcome) -> (r: Vec<u8>)
    ensures
        r@ == match outcome {
            Outcome::Ran { code, stdout, stderr } => ran_log(
                command_line@,
                *code,
                stdout@,
                stderr@,
            ),
            Outcome::NotRun { error } => not_run_log(command_line@, error@),
        },
{
    let mut log: Vec<u8> = Vec::new();
    let mut head = String::from_str("----- $ ");
    head.append(command_line);
    head.append("\n");
    append_text(&mut log, head.as_str());
    assert(log@ =~= vstd::utf8::encode_utf8("----- $ "@ + command_line@ + "\n"@));
    match outcome {
        Outcome::Ran { code, stdout, stderr } => {
            let status = match code {
                Some(code) => {
                    let mut status = String::from_str("exit status: ");
                    status.append(exit_code(*code).as_str());
                    status.append("\n\n");
                    status
                },
                None => String::from_str("exit status: unknown\n\n"),
            };
            append_text(&mut log, status.as_str());
            append_text(&mut log, "stdout <<EOF\n");
            log.extend_from_slice(stdout.as_slice());
            append_text(&mut log, "EOF\n\n");
            append_text(&mut log, "stderr <<EOF\n");
            log.extend_from_slice(stderr.as_slice());
            append_text(&mut log, "EOF\n");
        },
        Outcome::NotRun { error } => {
            let mut line = String::from_str("error: ");
            line.append(error.as_str());
            line.append("\n");
            append_text(&mut log, line.as_str());
        },
    }
    log
}

/// The error output of a command that was stopped for taking too long: what
/// it wrote, and the notice of the timeout.
pub fn stderr_after_timeout(stderr: Vec<u8>) -> (r: Vec<u8>)
    ensures
        r@ == stderr@ + vstd::utf8::encode_utf8("operation failed due to timeout"@),
{
    let mut all = stderr;
    append_text(&mut all, TIMEOUT_NOTICE);
    all
}

/// What is done to a command that takes too long.
#[derive(Debug, Clone, Copy, PartialEq, Eq, Structural)]
pub enum TimeoutStep {
    /// Ask the command to stop.
    Terminate,
    /// Wait for so many seconds.
    Wait { seconds: u64 },
    /// Kill the command.
    Kill,
    /// Take what the command wrote, with the notice of the timeout behind
    /// its error output.
    CollectOutput,
}

/// What is done to a command that takes too long: it is asked to stop,
/// given two seconds, and killed; then its output is taken.
pub fn timeout_operation() -> (r: Vec<TimeoutStep>)
    ensures
        r@ == seq![
            TimeoutStep::Terminate,
            TimeoutStep::Wait { seconds: OPERATION_TIMEOUT_SECS },
            TimeoutStep::Kill,
            TimeoutStep::CollectOutput,
        ],
{
    let mut steps: Vec<TimeoutStep> = Vec::new();
    steps.push(TimeoutStep::Terminate);
    steps.push(TimeoutStep::Wait { seconds: OPERATION_TIMEOUT_SECS });
    steps.push(TimeoutStep::Kill);
    steps.push(TimeoutStep::CollectOutput);
    assert(steps@ =~= seq![
        TimeoutStep::Terminate,
        TimeoutStep::Wait { seconds: OPERATION_TIMEOUT_SECS },
        TimeoutStep::Kill,
        TimeoutStep::CollectOutput,
    ]);
    steps
}

} // verus!
