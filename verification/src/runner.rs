//! What one finished invocation of an external program left behind, and
//! what is said and checked about it.

use crate::text::{decode_lossy, lossy_text};
use crate::verify::{texts_agree, verify, verify_empty, Mismatch};
use vstd::prelude::*;

verus! {

/// A finished invocation: what was run and what it produced.
#[derive(Debug, PartialEq, Eq)]
pub struct Invocation {
    pub program: String,
    pub args: Vec<String>,
    /// Everything the program wrote to standard output.
    pub stdout: Vec<u8>,
    /// Everything the program wrote to standard error.
    pub stderr: Vec<u8>,
    /// The exit code, if the program exited rather than being killed.
    pub exit_code: Option<i32>,
}

/// An [`Invocation`] as contracts see it.
pub struct InvocationView {
    pub program: Seq<char>,
    pub args: Seq<Seq<char>>,
    pub stdout: Seq<u8>,
    pub stderr: Seq<u8>,
    pub exit_code: Option<i32>,
}

/// The views of a list of strings, in order.
pub open spec fn string_views(items: Seq<String>) -> Seq<Seq<char>> {
    Seq::new(items.len(), |i: int| items[i]@)
}

impl View for Invocation {
    type V = InvocationView;

    open spec fn view(&self) -> InvocationView {
        InvocationView {
            program: self.program@,
            args: string_views(self.args@),
            stdout: self.stdout@,
            stderr: self.stderr@,
            exit_code: self.exit_code,
        }
    }
}

/// `parts` with one space between neighbours.
pub open spec fn joined(parts: Seq<Seq<char>>) -> Seq<char>
    decreases parts.len(),
{
    if parts.len() == 0 {
        Seq::empty()
    } else if parts.len() == 1 {
        parts[0]
    } else {
        joined(parts.drop_last()) + seq![' '] + parts.last()
    }
}

impl InvocationView {
    /// The program exited with code zero.
    pub open spec fn succeeded(self) -> bool {
        self.exit_code == Some(0i32)
    }

    /// The program and its arguments on one line.
    pub open spec fn command_line(self) -> Seq<char> {
        self.program + seq![' '] + joined(self.args)
    }

    /// What is logged about a failed invocation: the command line, then
    /// each output stream that is not empty. Nothing for a successful one.
    pub open spec fn failure_summary(self) -> Seq<Seq<char>> {
        if self.succeeded() {
            Seq::empty()
        } else {
            seq!["Failed command: "@ + self.command_line()] + (if self.stdout.len() > 0 {
                seq!["stdout: "@ + lossy_text(self.stdout)]
            } else {
                Seq::empty()
            }) + (if self.stderr.len() > 0 {
                seq!["stderr: "@ + lossy_text(self.stderr)]
            } else {
                Seq::empty()
            })
        }
    }

    /// Standard output agrees with `expected` and standard error is empty.
    pub open spec fn meets(self, expected: Seq<char>) -> bool {
        texts_agree(lossy_text(self.stdout), expected) && lossy_text(self.stderr).len() == 0
    }
}

/// Joins `parts` with single spaces.
pub fn join_with_spaces(parts: &Vec<String>) -> (line: String)
    ensures
        line@ == joined(string_views(parts@)),
{
    let ghost views = string_views(parts@);
    let mut line = String::new();
    let mut i: usize = 0;
    proof {
        reveal_strlit(" ");
        assert(views.take(0) =~= Seq::<Seq<char>>::empty());
    }
    while i < parts.len()
        invariant
            i <= parts.len(),
            views == string_views(parts@),
            " "@ == seq![' '],
            line@ == joined(views.take(i as int)),
        decreases parts.len() - i,
    {
        proof {
            let next = views.take(i + 1);
            assert(next.drop_last() =~= views.take(i as int));
            assert(next.last() == parts[i as int]@);
            if i == 0 {
                assert(line@ + parts[i as int]@ =~= parts[i as int]@);
            }
        }
        if i > 0 {
            line.append(" ");
        }
        line.append(parts[i].as_str());
        i += 1;
    }
    assert(views.take(parts.len() as int) =~= views);
    line
}

/// Which output stream failed its check.
#[derive(Clone, Copy, Debug, PartialEq, Eq, Structural)]
pub enum Stream {
    Stdout,
    Stderr,
}

/// An invocation whose output is not what was expected.
#[derive(Debug, PartialEq, Eq)]
pub struct OutputFailure {
    /// The stream that disagreed; standard output is checked first.
    pub stream: Stream,
    pub mismatch: Mismatch,
}

impl Invocation {
    /// Whether the program exited with code zero.
    pub fn succeeded(&self) -> (ok: bool)
        ensures
            ok == self@.succeeded(),
    {
        match self.exit_code {
            Some(code) => code == 0,
            None => false,
        }
    }

    /// The program and its arguments on one line, separated by spaces.
    pub fn command_line(&self) -> (line: String)
        ensures
            line@ == self@.command_line(),
    {
        proof {
            reveal_strlit(" ");
        }
        let mut line = self.program.clone();
        line.append(" ");
        let args = join_with_spaces(&self.args);
        line.append(args.as_str());
        line
    }

    /// The lines to log about this invocation: none if it succeeded, else
    /// the command line and each stream that is not empty. A failed
    /// invocation is reported, never refused: its output is still there to
    /// be verified.
    pub fn failure_summary(&self) -> (lines: Vec<String>)
        ensures
            string_views(lines@) == self@.failure_summary(),
    {
        let mut lines: Vec<String> = Vec::new();
        if self.succeeded() {
            assert(string_views(lines@) =~= self@.failure_summary());
            return lines;
        }
        let mut head = String::from_str("Failed command: ");
        let command = self.command_line();
        head.append(command.as_str());
        lines.push(head);
        if self.stdout.len() > 0 {
            let mut line = String::from_str("stdout: ");
            let text = decode_lossy(self.stdout.as_slice());
            line.append(text.as_str());
            lines.push(line);
        }
        if self.stderr.len() > 0 {
            let mut line = String::from_str("stderr: ");
            let text = decode_lossy(self.stderr.as_slice());
            line.append(text.as_str());
            lines.push(line);
        }
        assert(string_views(lines@) =~= self@.failure_summary());
        lines
    }

    /// Checks what the invocation produced: standard output against
    /// `expected`, then standard error against nothing. The exit code plays
    /// no part.
    pub fn check_output(&self, expected: &str) -> (r: Result<(), OutputFailure>)
        ensures
            r is Ok <==> self@.meets(expected@),
            match r {
                Ok(_) => true,
                Err(failure) => {
                    &&& failure.stream == Stream::Stdout <==> !texts_agree(
                        lossy_text(self@.stdout),
                        expected@,
                    )
                    &&& failure.stream == Stream::Stdout ==> failure.mismatch.actual@
                        == lossy_text(self@.stdout)
                    &&& failure.stream == Stream::Stderr ==> failure.mismatch.actual@
                        == lossy_text(self@.stderr)
                },
            },
    {
        match verify(self.stdout.as_slice(), expected) {
            Err(mismatch) => Err(OutputFailure { stream: Stream::Stdout, mismatch }),
            Ok(_) => match verify_empty(self.stderr.as_slice()) {
                Err(mismatch) => Err(OutputFailure { stream: Stream::Stderr, mismatch }),
                Ok(_) => Ok(()),
            },
        }
    }
}

} // verus!
