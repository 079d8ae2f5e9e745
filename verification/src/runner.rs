//! What a finished shell command means: success, or a failure that carries
//! the command and everything it printed.

use crate::error::Error;
use vstd::prelude::*;
use vstd::string::*;
use vstd::utf8::*;

verus! {

/// The bytes that a failed decoding was tried on, as the error keeps them
/// (`FromUtf8Error::as_bytes`).
pub uninterp spec fn rejected_bytes(e: std::string::FromUtf8Error) -> Seq<u8>;

/// `String::from_utf8`: the bytes become a string exactly when they are valid
/// UTF-8, and the string then holds the characters that they encode. Else the
/// error keeps the bytes that were handed in.
pub assume_specification[ String::from_utf8 ](vec: Vec<u8>) -> (res: Result<
    String,
    std::string::FromUtf8Error,
>)
    ensures
        res is Ok <==> valid_utf8(vec@),
        res matches Ok(text) ==> text@ == decode_utf8(vec@),
        res matches Err(e) ==> rejected_bytes(e) == vec@,
;

/// How a process ended, and what it wrote while it ran.
#[derive(Debug, Clone)]
pub struct ProcessOutput {
    /// The exit status was zero.
    pub success: bool,
    /// The bytes written to standard output.
    pub stdout: Vec<u8>,
    /// The bytes written to standard error.
    pub stderr: Vec<u8>,
}

/// A command line for a shell, and where to run it: the request that a
/// caller carries out by starting `program` with the two arguments `flag` and
/// `command`.
#[derive(Debug, Clone)]
pub struct Invocation {
    /// The shell to start.
    pub program: String,
    /// The flag under which the shell takes a command line.
    pub flag: String,
    /// The command line.
    pub command: String,
    /// The working directory; the caller's own where there is none.
    pub cwd: Option<String>,
}

/// The text of a directory that may be left out.
pub open spec fn dir_text(cwd: Option<String>) -> Option<Seq<char>> {
    match cwd {
        Some(dir) => Some(dir@),
        None => None,
    }
}

impl Invocation {
    /// The request runs `command` through `bash -lc`, a login shell, in `cwd`.
    pub open spec fn runs(&self, command: Seq<char>, cwd: Option<Seq<char>>) -> bool {
        &&& self.program@ == "bash"@
        &&& self.flag@ == "-lc"@
        &&& self.command@ == command
        &&& dir_text(self.cwd) == cwd
    }

    /// The request to run `command` through the shell, in `cwd` or, where
    /// there is none, in the caller's current directory.
    pub fn shell(command: String, cwd: Option<String>) -> (request: Invocation)
        ensures
            request.runs(command@, dir_text(cwd)),
    {
        Invocation { program: String::from_str("bash"), flag: String::from_str("-lc"), command, cwd }
    }
}

/// The diagnosis of a failed command: the command, then both streams.
pub open spec fn failure_text(cmd: Seq<char>, out: Seq<char>, err: Seq<char>) -> Seq<char> {
    "cmd failed: "@ + cmd + "\nstdout:\n"@ + out + "\nstderr:\n"@ + err
}

/// Both streams of `output` are valid UTF-8.
pub open spec fn valid_utf8_streams(output: ProcessOutput) -> bool {
    valid_utf8(output.stdout@) && valid_utf8(output.stderr@)
}

/// `res` is what `run` makes of `output` for the command `cmd`: success on a
/// zero exit status; else a script failure with the full diagnosis, or a
/// decoding failure for the first stream that is not UTF-8, the standard
/// output before the standard error.
pub open spec fn run_outcome(cmd: Seq<char>, output: ProcessOutput, res: Result<(), Error>) -> bool {
    if output.success {
        res is Ok
    } else if valid_utf8_streams(output) {
        res matches Err(Error::Script(text)) && text@ == failure_text(
            cmd,
            decode_utf8(output.stdout@),
            decode_utf8(output.stderr@),
        )
    } else {
        res matches Err(Error::Utf8(e)) && rejected_bytes(e) == if valid_utf8(output.stdout@) {
            output.stderr@
        } else {
            output.stdout@
        }
    }
}

/// `part` stands somewhere in `text`, unbroken.
pub open spec fn contains(text: Seq<char>, part: Seq<char>) -> bool {
    exists|i: int|
        0 <= i && i + part.len() <= text.len() && #[trigger] text.subrange(i, i + part.len())
            == part
}

/// Judges a command that has run. The exit status alone decides between
/// success and failure; the streams are only decoded for the diagnosis, the
/// standard output first.
pub fn run(cmd: &str, output: ProcessOutput) -> (res: Result<(), Error>)
    ensures
        run_outcome(cmd@, output, res),
{
    if output.success {
        return Ok(());
    }
    let out = match String::from_utf8(output.stdout) {
        Ok(text) => text,
        Err(e) => {
            return Err(Error::Utf8(e));
        },
    };
    let err = match String::from_utf8(output.stderr) {
        Ok(text) => text,
        Err(e) => {
            return Err(Error::Utf8(e));
        },
    };
    let mut text = String::from_str("cmd failed: ");
    text.append(cmd);
    text.append("\nstdout:\n");
    text.append(out.as_str());
    text.append("\nstderr:\n");
    text.append(err.as_str());
    Err(Error::Script(text))
}

/// The diagnosis of a failed command holds the command and both streams, each
/// whole and unchanged.
pub proof fn lemma_failure_text_holds_all(cmd: Seq<char>, out: Seq<char>, err: Seq<char>)
    ensures
        contains(failure_text(cmd, out, err), cmd),
        contains(failure_text(cmd, out, err), out),
        contains(failure_text(cmd, out, err), err),
{
    let text = failure_text(cmd, out, err);
    let a = "cmd failed: "@.len() as int;
    let b = a + cmd.len() + "\nstdout:\n"@.len();
    let c = b + out.len() + "\nstderr:\n"@.len();
    assert(text.subrange(a, a + cmd.len()) =~= cmd);
    assert(text.subrange(b, b + out.len()) =~= out);
    assert(text.subrange(c, c + err.len()) =~= err);
}

/// What stands in a text still stands in it after something is put in front.
pub proof fn lemma_contains_after_prefix(prefix: Seq<char>, text: Seq<char>, part: Seq<char>)
    requires
        contains(text, part),
    ensures
        contains(prefix + text, part),
{
    let i = choose|i: int|
        0 <= i && i + part.len() <= text.len() && #[trigger] text.subrange(i, i + part.len())
            == part;
    let j = prefix.len() + i;
    assert((prefix + text).subrange(j, j + part.len()) =~= part);
}

/// A command that exits with a non-zero status and whose streams are UTF-8
/// yields a script failure, never success and never another kind of failure.
/// The failure's text holds the exact command and both streams, and so does
/// its message, which puts `script failed: ` in front of the text.
pub proof fn lemma_nonzero_exit_is_script_failure(
    cmd: Seq<char>,
    output: ProcessOutput,
    res: Result<(), Error>,
)
    requires
        run_outcome(cmd, output, res),
        !output.success,
        valid_utf8_streams(output),
    ensures
        res matches Err(Error::Script(text)) && contains(text@, cmd) && contains(
            text@,
            decode_utf8(output.stdout@),
        ) && contains(text@, decode_utf8(output.stderr@)) && contains(
            "script failed: "@ + text@,
            cmd,
        ) && contains("script failed: "@ + text@, decode_utf8(output.stdout@)) && contains(
            "script failed: "@ + text@,
            decode_utf8(output.stderr@),
        ),
{
    let out = decode_utf8(output.stdout@);
    let err = decode_utf8(output.stderr@);
    let text = failure_text(cmd, out, err);
    lemma_failure_text_holds_all(cmd, out, err);
    lemma_contains_after_prefix("script failed: "@, text, cmd);
    lemma_contains_after_prefix("script failed: "@, text, out);
    lemma_contains_after_prefix("script failed: "@, text, err);
}

/// Whatever the streams hold, a command that exits with a non-zero status
/// fails, and one that exits with zero succeeds.
pub proof fn lemma_exit_status_decides(cmd: Seq<char>, output: ProcessOutput, res: Result<(), Error>)
    requires
        run_outcome(cmd, output, res),
    ensures
        res is Ok <==> output.success,
{
}

} // verus!
