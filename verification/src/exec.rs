//! The outcome of one command run inside a sandbox.

use vstd::prelude::*;

use crate::decimal::{push_i64, signed_decimal};

verus! {

/// How a command ended.
#[derive(Clone, Copy, Debug, PartialEq, Eq, Structural)]
pub enum CommandTermination {
    /// The command ran to its end and reported an exit code.
    Exited,
    /// The time allowed for it ran out first.
    TimedOut,
    /// The caller gave it up first.
    Cancelled,
}

/// What a command left behind.
#[derive(Debug)]
pub struct ExecResult {
    pub stdout: String,
    pub stderr: String,
    pub exit_code: Option<i32>,
    pub termination: CommandTermination,
    pub duration_ms: u64,
}

/// The model of an [`ExecResult`].
#[verifier::ext_equal]
pub ghost struct ExecView {
    pub stdout: Seq<char>,
    pub stderr: Seq<char>,
    pub exit_code: Option<i32>,
    pub termination: CommandTermination,
    pub duration_ms: u64,
}

impl View for ExecResult {
    type V = ExecView;

    open spec fn view(&self) -> ExecView {
        ExecView {
            stdout: self.stdout@,
            stderr: self.stderr@,
            exit_code: self.exit_code,
            termination: self.termination,
            duration_ms: self.duration_ms,
        }
    }
}

impl ExecView {
    /// A command succeeded when it ran to its end and exited with zero.
    pub open spec fn succeeded(self) -> bool {
        self.termination == CommandTermination::Exited && self.exit_code == Some(0i32)
    }
}

/// The exit code as text: its numeral, or `none` where the command reported none.
pub open spec fn exit_code_text(code: Option<i32>) -> Seq<char> {
    match code {
        Some(n) => signed_decimal(n as int),
        None => "none"@,
    }
}

impl ExecResult {
    /// Whether the command ran to its end and exited with zero.
    pub fn is_success(&self) -> (r: bool)
        ensures
            r == self@.succeeded(),
    {
        match self.termination {
            CommandTermination::Exited => match self.exit_code {
                Some(code) => code == 0,
                None => false,
            },
            _ => false,
        }
    }

    /// The exit code for a message.
    pub fn display_exit_code(&self) -> (r: String)
        ensures
            r@ == exit_code_text(self.exit_code),
    {
        match self.exit_code {
            Some(code) => {
                let mut out = String::new();
                push_i64(&mut out, code as i64);
                proof {
                    assert(out@ =~= signed_decimal(code as int));
                }
                out
            },
            None => "none".to_owned(),
        }
    }
}

} // verus!
