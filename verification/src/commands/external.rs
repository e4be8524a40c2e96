//! Any other subcommand: its words go to the control program as they are.

use vstd::prelude::*;
use vstd::string::StringExecFns;
use crate::commands::LineColor;
use crate::config::{Config, ConfigView};
use crate::text::{copy_texts, join, joined};

verus! {

/// The exit code that stands for a program that ended without one.
pub const NO_EXIT_CODE: i32 = -1;

/// A call of the control program.
#[derive(Debug, PartialEq, Eq)]
pub struct ExternalCall {
    /// The program to run.
    pub program: String,
    /// Its arguments.
    pub args: Vec<String>,
    /// The arguments on one line, with a blank between each two.
    pub args_line: String,
}

/// Why a subcommand could not be handed on, or failed when it was.
#[derive(Debug, PartialEq, Eq)]
pub enum ExternalError {
    /// The subcommand came without an argument.
    ArgumentExpected { program: String, command: String },
    /// The control program ended with a code other than 0, or with none.
    CallFailed { program: String },
}

/// An `ExternalCall` with its texts as characters.
pub struct ExternalCallView {
    pub program: Seq<char>,
    pub args: Seq<Seq<char>>,
    pub args_line: Seq<char>,
}

/// An `ExternalError` with its texts as characters.
pub enum ExternalErrorView {
    ArgumentExpected { program: Seq<char>, command: Seq<char> },
    CallFailed { program: Seq<char> },
}

impl View for ExternalCall {
    type V = ExternalCallView;

    open spec fn view(&self) -> ExternalCallView {
        ExternalCallView {
            program: self.program@,
            args: self.args.deep_view(),
            args_line: self.args_line@,
        }
    }
}

impl View for ExternalError {
    type V = ExternalErrorView;

    open spec fn view(&self) -> ExternalErrorView {
        match self {
            ExternalError::ArgumentExpected { program, command } => {
                ExternalErrorView::ArgumentExpected { program: program@, command: command@ }
            },
            ExternalError::CallFailed { program } => ExternalErrorView::CallFailed {
                program: program@,
            },
        }
    }
}

impl ExternalErrorView {
    /// What `message` says of this error.
    pub open spec fn message(self) -> Seq<char> {
        match self {
            ExternalErrorView::ArgumentExpected { program, command } => "argument expected for '"@
                + program + " "@ + command + "'"@,
            ExternalErrorView::CallFailed { program } => "call to "@ + program + " failed"@,
        }
    }
}

impl ExternalError {
    /// A line of text that says what went wrong.
    pub fn message(&self) -> (text: String)
        ensures
            text@ == self@.message(),
    {
        match self {
            ExternalError::ArgumentExpected { program, command } => String::from_str(
                "argument expected for '",
            ).concat(program.as_str()).concat(" ").concat(command.as_str()).concat("'"),
            ExternalError::CallFailed { program } => String::from_str("call to ").concat(
                program.as_str(),
            ).concat(" failed"),
        }
    }
}

/// The call that the operands of `cfg` ask for: the control program with
/// the operands as its arguments. A subcommand alone, with no argument
/// after it, is refused.
pub open spec fn external_call(cfg: ConfigView) -> Result<ExternalCallView, ExternalErrorView> {
    if cfg.operands.len() >= 2 {
        Ok(
            ExternalCallView {
                program: cfg.sv_prog,
                args: cfg.operands,
                args_line: joined(cfg.operands, " "@),
            },
        )
    } else {
        Err(
            ExternalErrorView::ArgumentExpected {
                program: cfg.sv_prog,
                command: cfg.operands[0],
            },
        )
    }
}

/// The exit code to show for a program that ended with `code`.
pub open spec fn shown_code(code: Option<i32>) -> i32 {
    match code {
        Some(c) => c,
        None => NO_EXIT_CODE,
    }
}

/// Prepares the call of the control program for a subcommand that is not
/// one of this program's own.
///
/// The operands are the subcommand and what follows it. Fails with
/// `ArgumentExpected` exactly where nothing follows it.
pub fn do_external(cfg: &Config) -> (result: Result<ExternalCall, ExternalError>)
    requires
        cfg.operands@.len() > 0,
    ensures
        (match result {
            Ok(call) => Ok(call@),
            Err(e) => Err(e@),
        }) == external_call(cfg@),
{
    let program = cfg.sv_prog.clone();
    if cfg.operands.len() < 2 {
        return Err(
            ExternalError::ArgumentExpected { program, command: cfg.operands[0].clone() },
        );
    }
    let args_line = join(&cfg.operands, " ");
    Ok(ExternalCall { program, args: copy_texts(&cfg.operands), args_line })
}

/// The exit code to show: that of the program, or -1 where it ended
/// without one.
pub fn exit_code(code: Option<i32>) -> (shown: i32)
    ensures
        shown == shown_code(code),
{
    match code {
        Some(c) => c,
        None => NO_EXIT_CODE,
    }
}

/// The colour in which the end of the call is shown: green for code 0, red
/// for any other code and for none.
pub fn exit_color(code: Option<i32>) -> (color: LineColor)
    ensures
        color == (if shown_code(code) == 0 {
            LineColor::Green
        } else {
            LineColor::Red
        }),
{
    if exit_code(code) == 0 {
        LineColor::Green
    } else {
        LineColor::Red
    }
}

/// What the call came to: success exactly where the program ended with
/// code 0, else `CallFailed` with the program's name.
pub fn external_outcome(program: &str, code: Option<i32>) -> (result: Result<(), ExternalError>)
    ensures
        result is Ok <==> shown_code(code) == 0,
        result matches Err(e) ==> e@ == (ExternalErrorView::CallFailed { program: program@ }),
{
    if exit_code(code) == 0 {
        Ok(())
    } else {
        Err(ExternalError::CallFailed { program: String::from_str(program) })
    }
}

} // verus!
