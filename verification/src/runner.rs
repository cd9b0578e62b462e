//! Running a spell's command: how the shell is invoked, and what is made of
//! the bytes a child process wrote.
//!
//! The process itself is started and waited for by the caller. This module
//! says which program and arguments to start it with, and turns what was
//! captured from it into text.

use crate::error::{SpellError, SpellErrorView};
use vstd::prelude::*;
use vstd::slice::slice_subrange;
use vstd::utf8::{decode_utf8, valid_utf8};

verus! {

/// The text that lossy UTF-8 decoding makes of `bytes`: the decoded
/// characters, with every invalid sequence replaced by U+FFFD.
pub uninterp spec fn utf8_lossy(bytes: Seq<u8>) -> Seq<char>;

/// `s` without the run of `c` at its end.
pub open spec fn without_trailing(s: Seq<char>, c: char) -> Seq<char>
    decreases s.len(),
{
    if s.len() > 0 && s.last() == c {
        without_trailing(s.drop_last(), c)
    } else {
        s
    }
}

/// Calls `String::from_utf8_lossy`. Trusted: the result is the lossy decoding
/// of the bytes, which for valid UTF-8 is the text they encode.
#[verifier::external_body]
fn decode_lossy(bytes: &[u8]) -> (text: String)
    ensures
        text@ == utf8_lossy(bytes@),
        valid_utf8(bytes@) ==> text@ == decode_utf8(bytes@),
{
    String::from_utf8_lossy(bytes).into_owned()
}

/// Calls `str::trim_end_matches` with the pattern `'\n'`. Trusted: the result
/// is the text with every line feed at its end removed.
#[verifier::external_body]
pub(crate) fn trim_line_feeds(text: &str) -> (trimmed: &str)
    ensures
        trimmed@ == without_trailing(text@, '\n'),
{
    text.trim_end_matches('\n')
}

/// The family of shell that runs a spell's command.
#[derive(Clone, Copy, Debug, PartialEq, Eq, Structural)]
pub enum ShellFamily {
    /// `sh -c <command>`
    Posix,
    /// `cmd /C <command>`
    Windows,
}

/// Everything needed to start a spell's process. The command is the single
/// script argument of the shell; `input` is written to the child's standard
/// input, which is then closed; standard output is captured and standard
/// error discarded.
#[derive(Clone, Debug, PartialEq, Eq)]
pub struct ShellInvocation {
    pub program: String,
    pub flag: String,
    pub script: String,
    pub working_directory: String,
    pub input: String,
}

pub struct ShellInvocationView {
    pub program: Seq<char>,
    pub flag: Seq<char>,
    pub script: Seq<char>,
    pub working_directory: Seq<char>,
    pub input: Seq<char>,
}

impl View for ShellInvocation {
    type V = ShellInvocationView;

    open spec fn view(&self) -> ShellInvocationView {
        ShellInvocationView {
            program: self.program@,
            flag: self.flag@,
            script: self.script@,
            working_directory: self.working_directory@,
            input: self.input@,
        }
    }
}

/// The shell program of a family.
pub open spec fn shell_program(family: ShellFamily) -> Seq<char> {
    match family {
        ShellFamily::Posix => "sh"@,
        ShellFamily::Windows => "cmd"@,
    }
}

/// The flag that makes the shell of a family run its next argument as a script.
pub open spec fn shell_flag(family: ShellFamily) -> Seq<char> {
    match family {
        ShellFamily::Posix => "-c"@,
        ShellFamily::Windows => "/C"@,
    }
}

/// How to start `entry_cmd` in `collection_dir` with `input` on its standard
/// input: the family's shell, its script flag, and the command as one argument.
pub fn spawn_entry(family: ShellFamily, entry_cmd: &str, collection_dir: &str, input: &str) -> (invocation:
    ShellInvocation)
    ensures
        invocation@ == (ShellInvocationView {
            program: shell_program(family),
            flag: shell_flag(family),
            script: entry_cmd@,
            working_directory: collection_dir@,
            input: input@,
        }),
{
    let (program, flag) = match family {
        ShellFamily::Posix => ("sh", "-c"),
        ShellFamily::Windows => ("cmd", "/C"),
    };
    ShellInvocation {
        program: program.to_owned(),
        flag: flag.to_owned(),
        script: entry_cmd.to_owned(),
        working_directory: collection_dir.to_owned(),
        input: input.to_owned(),
    }
}

/// The outcome of running a spell to completion, made from what the caller
/// captured: the child's whole standard output, or the reason it could not be
/// started or waited for. Output is decoded lossily, so invalid bytes are
/// replaced and never rejected.
pub fn execute_spell(captured: Result<Vec<u8>, String>) -> (output: Result<String, SpellError>)
    ensures
        match captured {
            Ok(bytes) => {
                &&& output matches Ok(text)
                &&& text@ == utf8_lossy(bytes@)
                &&& valid_utf8(bytes@) ==> text@ == decode_utf8(bytes@)
            },
            Err(cause) => output matches Err(e) && e@ == (SpellErrorView::SpawnFailure {
                cause: cause@,
            }),
        },
{
    match captured {
        Ok(bytes) => Ok(decode_lossy(bytes.as_slice())),
        Err(cause) => Err(SpellError::SpawnFailure { cause }),
    }
}

/// What the reader of a child's output forwards after one read into `buffer`.
/// `read` is the number of bytes the read delivered, or `None` where it
/// failed. A read that delivered bytes is forwarded as one chunk, decoded
/// lossily; end of stream and failure alike forward nothing and end the reader.
pub fn chunk_of_read(read: Option<usize>, buffer: &[u8]) -> (chunk: Option<String>)
    requires
        read matches Some(n) ==> n <= buffer@.len(),
    ensures
        match read {
            Some(n) if n > 0 => chunk matches Some(text) && text@ == utf8_lossy(
                buffer@.subrange(0, n as int),
            ),
            _ => chunk is None,
        },
{
    match read {
        Some(n) => {
            if n > 0 {
                Some(decode_lossy(slice_subrange(buffer, 0, n)))
            } else {
                None
            }
        },
        None => None,
    }
}

/// What is left of a text without the run of `c` at its end is a prefix of
/// the text that does not end in `c`, and all that was removed is `c`.
pub proof fn lemma_without_trailing(s: Seq<char>, c: char)
    ensures
        without_trailing(s, c).len() <= s.len(),
        without_trailing(s, c) == s.take(without_trailing(s, c).len() as int),
        without_trailing(s, c).len() > 0 ==> without_trailing(s, c).last() != c,
        forall|i: int| without_trailing(s, c).len() <= i < s.len() ==> s[i] == c,
    decreases s.len(),
{
    if s.len() > 0 && s.last() == c {
        lemma_without_trailing(s.drop_last(), c);
        let kept = without_trailing(s, c);
        assert(kept == s.take(kept.len() as int));
    } else {
        assert(s == s.take(s.len() as int));
    }
}

} // verus!
