//! The proving run, step by step: write the input file, run the toolchain,
//! name the artifacts.

use crate::error::Error;
use crate::input::PaillierDemoInput;
use crate::layout::{circuit_file, input_file, out_dir, ptau_file, Layout, ProveResult};
use crate::runner::{
    contains, lemma_failure_text_holds_all, run, run_outcome, valid_utf8_streams, Invocation,
    ProcessOutput,
};
use crate::shell::{
    all_plain, command_text, escaped, lemma_command_line_keeps_words, lemma_command_text_push,
    shell_words, tool_command, tool_command_text, tools_on_path, word_texts,
};
use serde_json::Error as JsonError;
use vstd::prelude::*;
use vstd::string::*;

verus! {

/// What has happened so far in a proving run.
#[derive(Debug)]
pub enum ProveEvent {
    /// Nothing yet.
    Begin,
    /// The input file has been written.
    InputWritten,
    /// The input record could not be serialized.
    InputNotSerialized(JsonError),
    /// The input file could not be written.
    InputNotWritten(std::io::Error),
    /// The toolchain has run and ended.
    ToolExited(ProcessOutput),
    /// The toolchain could not be started.
    ToolNotStarted(std::io::Error),
}

/// What to do next in a proving run.
#[derive(Debug)]
pub enum ProveAction {
    /// Serialize `input` and write it to `path`, over what is there; then
    /// report `InputWritten`, `InputNotSerialized` or `InputNotWritten`.
    WriteInput { path: String, input: PaillierDemoInput },
    /// Run the command; then report `ToolExited` or `ToolNotStarted`.
    RunTool(Invocation),
    /// The run has succeeded; these are its artifacts.
    Done(ProveResult),
    /// The run has failed.
    Failed(Error),
}

/// The words of the toolchain's command line for the project at `root`.
pub open spec fn prove_words(root: Seq<char>) -> Seq<Seq<char>> {
    seq![
        "node"@,
        "tools/scripts/compile.js"@,
        "--circuit"@,
        circuit_file(root),
        "--ptau"@,
        ptau_file(root),
        "--out"@,
        out_dir(root),
        "--input"@,
        input_file(root),
        "--prove"@,
        "--name"@,
        "VerifierPaillierDemo"@,
        "--copy"@,
        "contracts/src/generated/Verifier.sol"@,
        "--lib"@,
        "node_modules"@,
    ]
}

/// The command of a proving run: the search path is extended by the
/// project's own tool directories, then comes the toolchain's command line.
pub open spec fn prove_command_text(root: Seq<char>) -> Seq<char> {
    tool_command_text(prove_words(root))
}

/// `action` is the step that follows `event` in a proving run of `input` for
/// the project at `root`.
pub open spec fn prove_step(
    input: PaillierDemoInput,
    root: Seq<char>,
    event: ProveEvent,
    action: ProveAction,
) -> bool {
    match event {
        ProveEvent::Begin => action matches ProveAction::WriteInput { path, input: record }
            && path@ == input_file(root) && record == input,
        ProveEvent::InputWritten => action matches ProveAction::RunTool(request) && request.runs(
            prove_command_text(root),
            Some(root),
        ),
        ProveEvent::InputNotSerialized(e) => action == ProveAction::Failed(Error::Serde(e)),
        ProveEvent::InputNotWritten(e) => action == ProveAction::Failed(Error::Io(e)),
        ProveEvent::ToolNotStarted(e) => action == ProveAction::Failed(Error::Io(e)),
        ProveEvent::ToolExited(output) => match action {
            ProveAction::Done(result) => output.success && result.is_for(out_dir(root)),
            ProveAction::Failed(e) => !output.success && run_outcome(
                prove_command_text(root),
                output,
                Err(e),
            ),
            _ => false,
        },
    }
}

/// The command of a proving run for the project at `repo_root`.
pub fn prove_command(repo_root: &str) -> (command: String)
    ensures
        command@ == prove_command_text(repo_root@),
{
    let layout = Layout::under(repo_root);
    let mut words: Vec<String> = Vec::new();
    words.push(String::from_str("node"));
    words.push(String::from_str("tools/scripts/compile.js"));
    words.push(String::from_str("--circuit"));
    words.push(layout.circuit.clone());
    words.push(String::from_str("--ptau"));
    words.push(layout.ptau.clone());
    words.push(String::from_str("--out"));
    words.push(layout.out_dir.clone());
    words.push(String::from_str("--input"));
    words.push(layout.input.clone());
    words.push(String::from_str("--prove"));
    words.push(String::from_str("--name"));
    words.push(String::from_str("VerifierPaillierDemo"));
    words.push(String::from_str("--copy"));
    words.push(String::from_str("contracts/src/generated/Verifier.sol"));
    words.push(String::from_str("--lib"));
    words.push(String::from_str("node_modules"));
    assert(word_texts(words@) =~= prove_words(repo_root@));
    tool_command(&words)
}

/// One step of a proving run. The caller starts with `Begin`, does what the
/// action says, and comes back with the event that tells how it went, until
/// the action is `Done` or `Failed`.
///
/// The input is written first, to the input file of the project. Then the
/// toolchain runs in the project root. A failure of either ends the run at
/// once: a record that cannot be serialized as a serialization failure, a
/// file that cannot be written or a shell that cannot be started as an I/O
/// failure, and a toolchain that exits with a non-zero status as the runner
/// judges it. Once the toolchain has exited with status zero the artifacts
/// are named after the output directory; none is looked for.
pub fn prove_demo_with_tools(input: &PaillierDemoInput, repo_root: &str, event: ProveEvent) -> (action:
    ProveAction)
    ensures
        prove_step(*input, repo_root@, event, action),
{
    match event {
        ProveEvent::Begin => ProveAction::WriteInput {
            path: Layout::under(repo_root).input,
            input: input.copy(),
        },
        ProveEvent::InputWritten => ProveAction::RunTool(
            Invocation::shell(prove_command(repo_root), Some(String::from_str(repo_root))),
        ),
        ProveEvent::InputNotSerialized(e) => ProveAction::Failed(Error::Serde(e)),
        ProveEvent::InputNotWritten(e) => ProveAction::Failed(Error::Io(e)),
        ProveEvent::ToolNotStarted(e) => ProveAction::Failed(Error::Io(e)),
        ProveEvent::ToolExited(output) => {
            let command = prove_command(repo_root);
            match run(command.as_str(), output) {
                Ok(()) => ProveAction::Done(
                    ProveResult::in_dir(Layout::under(repo_root).out_dir.as_str()),
                ),
                Err(e) => ProveAction::Failed(e),
            }
        },
    }
}

/// The words before the first path stand as they are, after the search path.
proof fn lemma_head_written_out()
    ensures
        tools_on_path() + escaped("node"@) + seq![' ']
            + escaped("tools/scripts/compile.js"@) + seq![' '] + escaped("--circuit"@) + seq![' ']
            == "PATH=$PWD/tools/bin:$PWD/node_modules/.bin:$PATH node tools/scripts/compile.js --circuit "@,
{
    reveal_strlit("node");
    reveal_strlit("tools/scripts/compile.js");
    reveal_strlit("--circuit");
    reveal_strlit("PATH=$PWD/tools/bin:$PWD/node_modules/.bin:$PATH ");
    reveal_strlit(
        "PATH=$PWD/tools/bin:$PWD/node_modules/.bin:$PATH node tools/scripts/compile.js --circuit ",
    );
    assert(all_plain("node"@));
    assert(all_plain("tools/scripts/compile.js"@));
    assert(all_plain("--circuit"@));
    assert("PATH=$PWD/tools/bin:$PWD/node_modules/.bin:$PATH "@ + "node"@ + seq![' ']
        + "tools/scripts/compile.js"@ + seq![' '] + "--circuit"@ + seq![' ']
        =~= "PATH=$PWD/tools/bin:$PWD/node_modules/.bin:$PATH node tools/scripts/compile.js --circuit "@);
}

/// The flags between the paths stand as they are.
proof fn lemma_flags_written_out()
    ensures
        seq![' '] + escaped("--ptau"@) + seq![' '] == " --ptau "@,
        seq![' '] + escaped("--out"@) + seq![' '] == " --out "@,
        seq![' '] + escaped("--input"@) + seq![' '] == " --input "@,
{
    reveal_strlit("--ptau");
    reveal_strlit("--out");
    reveal_strlit("--input");
    reveal_strlit(" --ptau ");
    reveal_strlit(" --out ");
    reveal_strlit(" --input ");
    assert(all_plain("--ptau"@));
    assert(all_plain("--out"@));
    assert(all_plain("--input"@));
    assert(seq![' '] + "--ptau"@ + seq![' '] =~= " --ptau "@);
    assert(seq![' '] + "--out"@ + seq![' '] =~= " --out "@);
    assert(seq![' '] + "--input"@ + seq![' '] =~= " --input "@);
}

/// The first words after the last path stand as they are.
proof fn lemma_tail_start_written_out()
    ensures
        seq![' '] + escaped("--prove"@) + seq![' '] + escaped("--name"@) + seq![' '] + escaped(
            "VerifierPaillierDemo"@,
        ) + seq![' '] + escaped("--copy"@) == " --prove --name VerifierPaillierDemo --copy"@,
{
    reveal_strlit("--prove");
    reveal_strlit("--name");
    reveal_strlit("VerifierPaillierDemo");
    reveal_strlit("--copy");
    reveal_strlit(" --prove --name VerifierPaillierDemo --copy");
    assert(all_plain("--prove"@));
    assert(all_plain("--name"@));
    assert(all_plain("VerifierPaillierDemo"@));
    assert(all_plain("--copy"@));
    assert(seq![' '] + "--prove"@ + seq![' '] + "--name"@ + seq![' '] + "VerifierPaillierDemo"@
        + seq![' '] + "--copy"@ =~= " --prove --name VerifierPaillierDemo --copy"@);
}

/// The last words stand as they are.
proof fn lemma_tail_end_written_out()
    ensures
        seq![' '] + escaped("contracts/src/generated/Verifier.sol"@) + seq![' '] + escaped(
            "--lib"@,
        ) + seq![' '] + escaped("node_modules"@)
            == " contracts/src/generated/Verifier.sol --lib node_modules"@,
{
    reveal_strlit("contracts/src/generated/Verifier.sol");
    reveal_strlit("--lib");
    reveal_strlit("node_modules");
    reveal_strlit(" contracts/src/generated/Verifier.sol --lib node_modules");
    assert(all_plain("contracts/src/generated/Verifier.sol"@));
    assert(all_plain("--lib"@));
    assert(all_plain("node_modules"@));
    assert(seq![' '] + "contracts/src/generated/Verifier.sol"@ + seq![' '] + "--lib"@ + seq![' ']
        + "node_modules"@ =~= " contracts/src/generated/Verifier.sol --lib node_modules"@);
}

/// The two halves of what follows the last path, put together.
proof fn lemma_tail_written_out()
    ensures
        " --prove --name VerifierPaillierDemo --copy"@
            + " contracts/src/generated/Verifier.sol --lib node_modules"@
            == " --prove --name VerifierPaillierDemo --copy contracts/src/generated/Verifier.sol --lib node_modules"@,
{
    reveal_strlit(" --prove --name VerifierPaillierDemo --copy");
    reveal_strlit(" contracts/src/generated/Verifier.sol --lib node_modules");
    reveal_strlit(
        " --prove --name VerifierPaillierDemo --copy contracts/src/generated/Verifier.sol --lib node_modules",
    );
    assert(" --prove --name VerifierPaillierDemo --copy"@
        + " contracts/src/generated/Verifier.sol --lib node_modules"@
        =~= " --prove --name VerifierPaillierDemo --copy contracts/src/generated/Verifier.sol --lib node_modules"@);
}

/// The command line of the toolchain's words, word by word.
proof fn lemma_prove_words_laid_out(root: Seq<char>)
    ensures
        command_text(prove_words(root)) == escaped("node"@) + seq![' '] + escaped(
            "tools/scripts/compile.js"@,
        ) + seq![' '] + escaped("--circuit"@) + seq![' '] + escaped(circuit_file(root)) + seq![' ']
            + escaped("--ptau"@) + seq![' '] + escaped(ptau_file(root)) + seq![' '] + escaped(
            "--out"@,
        ) + seq![' '] + escaped(out_dir(root)) + seq![' '] + escaped("--input"@) + seq![' ']
            + escaped(input_file(root)) + seq![' '] + escaped("--prove"@) + seq![' '] + escaped(
            "--name"@,
        ) + seq![' '] + escaped("VerifierPaillierDemo"@) + seq![' '] + escaped("--copy"@) + seq![
            ' ',
        ] + escaped("contracts/src/generated/Verifier.sol"@) + seq![' '] + escaped("--lib"@) + seq![
            ' ',
        ] + escaped("node_modules"@),
{
    let w0 = Seq::<Seq<char>>::empty();
    let w1 = w0.push("node"@);
    let w2 = w1.push("tools/scripts/compile.js"@);
    let w3 = w2.push("--circuit"@);
    let w4 = w3.push(circuit_file(root));
    let w5 = w4.push("--ptau"@);
    let w6 = w5.push(ptau_file(root));
    let w7 = w6.push("--out"@);
    let w8 = w7.push(out_dir(root));
    let w9 = w8.push("--input"@);
    let w10 = w9.push(input_file(root));
    let w11 = w10.push("--prove"@);
    let w12 = w11.push("--name"@);
    let w13 = w12.push("VerifierPaillierDemo"@);
    let w14 = w13.push("--copy"@);
    let w15 = w14.push("contracts/src/generated/Verifier.sol"@);
    let w16 = w15.push("--lib"@);
    let w17 = w16.push("node_modules"@);
    lemma_command_text_push(w0, "node"@);
    lemma_command_text_push(w1, "tools/scripts/compile.js"@);
    lemma_command_text_push(w2, "--circuit"@);
    lemma_command_text_push(w3, circuit_file(root));
    lemma_command_text_push(w4, "--ptau"@);
    lemma_command_text_push(w5, ptau_file(root));
    lemma_command_text_push(w6, "--out"@);
    lemma_command_text_push(w7, out_dir(root));
    lemma_command_text_push(w8, "--input"@);
    lemma_command_text_push(w9, input_file(root));
    lemma_command_text_push(w10, "--prove"@);
    lemma_command_text_push(w11, "--name"@);
    lemma_command_text_push(w12, "VerifierPaillierDemo"@);
    lemma_command_text_push(w13, "--copy"@);
    lemma_command_text_push(w14, "contracts/src/generated/Verifier.sol"@);
    lemma_command_text_push(w15, "--lib"@);
    lemma_command_text_push(w16, "node_modules"@);
    assert(w17 =~= prove_words(root));
}

/// A prefix may be put together with the start of a line first.
proof fn lemma_group_head(
    pre: Seq<char>,
    sp: Seq<char>,
    e0: Seq<char>,
    e1: Seq<char>,
    e2: Seq<char>,
    e3: Seq<char>,
)
    ensures
        pre + (e0 + sp + e1 + sp + e2 + sp + e3) == (pre + e0 + sp + e1 + sp + e2 + sp) + e3,
{
    assert(pre + (e0 + sp + e1 + sp + e2 + sp + e3) =~= (pre + e0 + sp + e1 + sp + e2 + sp) + e3);
}

/// A flag may be put together with the spaces around it first.
proof fn lemma_group_flag(
    pre: Seq<char>,
    line: Seq<char>,
    sp: Seq<char>,
    flag: Seq<char>,
    value: Seq<char>,
)
    ensures
        pre + (line + sp + flag + sp + value) == (pre + line) + (sp + flag + sp) + value,
{
    assert(pre + (line + sp + flag + sp + value) =~= (pre + line) + (sp + flag + sp) + value);
}

/// The last seven words may be put together first, in two groups.
proof fn lemma_group_tail(
    pre: Seq<char>,
    line: Seq<char>,
    sp: Seq<char>,
    e0: Seq<char>,
    e1: Seq<char>,
    e2: Seq<char>,
    e3: Seq<char>,
    e4: Seq<char>,
    e5: Seq<char>,
    e6: Seq<char>,
)
    ensures
        pre + (line + sp + e0 + sp + e1 + sp + e2 + sp + e3 + sp + e4 + sp + e5 + sp + e6) == (pre
            + line) + ((sp + e0 + sp + e1 + sp + e2 + sp + e3) + (sp + e4 + sp + e5 + sp + e6)),
{
    let t1 = sp + e0 + sp + e1 + sp + e2 + sp + e3;
    let t2 = sp + e4 + sp + e5 + sp + e6;
    assert(line + sp + e0 + sp + e1 + sp + e2 + sp + e3 =~= line + t1);
    assert(line + t1 + sp + e4 + sp + e5 + sp + e6 =~= line + (t1 + t2));
    assert(pre + (line + (t1 + t2)) =~= (pre + line) + (t1 + t2));
}

/// Seventeen words and the spaces between them, after a prefix, give the same
/// text whether they are put together one by one or in groups.
proof fn lemma_grouping(
    pre: Seq<char>,
    sp: Seq<char>,
    e0: Seq<char>,
    e1: Seq<char>,
    e2: Seq<char>,
    e3: Seq<char>,
    e4: Seq<char>,
    e5: Seq<char>,
    e6: Seq<char>,
    e7: Seq<char>,
    e8: Seq<char>,
    e9: Seq<char>,
    e10: Seq<char>,
    e11: Seq<char>,
    e12: Seq<char>,
    e13: Seq<char>,
    e14: Seq<char>,
    e15: Seq<char>,
    e16: Seq<char>,
)
    ensures
        pre + (e0 + sp + e1 + sp + e2 + sp + e3 + sp + e4 + sp + e5 + sp + e6 + sp + e7 + sp + e8
            + sp + e9 + sp + e10 + sp + e11 + sp + e12 + sp + e13 + sp + e14 + sp + e15 + sp + e16)
            == (pre + e0 + sp + e1 + sp + e2 + sp) + e3 + (sp + e4 + sp) + e5 + (sp + e6 + sp) + e7
            + (sp + e8 + sp) + e9 + ((sp + e10 + sp + e11 + sp + e12 + sp + e13) + (sp + e14 + sp
            + e15 + sp + e16)),
{
    let c3 = e0 + sp + e1 + sp + e2 + sp + e3;
    let c5 = c3 + sp + e4 + sp + e5;
    let c7 = c5 + sp + e6 + sp + e7;
    let c9 = c7 + sp + e8 + sp + e9;
    lemma_group_head(pre, sp, e0, e1, e2, e3);
    lemma_group_flag(pre, c3, sp, e4, e5);
    lemma_group_flag(pre, c5, sp, e6, e7);
    lemma_group_flag(pre, c7, sp, e8, e9);
    lemma_group_tail(pre, c9, sp, e10, e11, e12, e13, e14, e15, e16);
}

/// The command of a proving run, written out: the fixed words stand as they
/// are, and only the four paths are quoted where they need it.
pub proof fn lemma_prove_command_written_out(root: Seq<char>)
    ensures
        prove_command_text(root)
            == "PATH=$PWD/tools/bin:$PWD/node_modules/.bin:$PATH node tools/scripts/compile.js --circuit "@
            + escaped(circuit_file(root)) + " --ptau "@ + escaped(ptau_file(root)) + " --out "@
            + escaped(out_dir(root)) + " --input "@ + escaped(input_file(root))
            + " --prove --name VerifierPaillierDemo --copy contracts/src/generated/Verifier.sol --lib node_modules"@,
{
    lemma_prove_words_laid_out(root);
    lemma_grouping(
        tools_on_path(),
        seq![' '],
        escaped("node"@),
        escaped("tools/scripts/compile.js"@),
        escaped("--circuit"@),
        escaped(circuit_file(root)),
        escaped("--ptau"@),
        escaped(ptau_file(root)),
        escaped("--out"@),
        escaped(out_dir(root)),
        escaped("--input"@),
        escaped(input_file(root)),
        escaped("--prove"@),
        escaped("--name"@),
        escaped("VerifierPaillierDemo"@),
        escaped("--copy"@),
        escaped("contracts/src/generated/Verifier.sol"@),
        escaped("--lib"@),
        escaped("node_modules"@),
    );
    lemma_head_written_out();
    lemma_flags_written_out();
    lemma_tail_start_written_out();
    lemma_tail_end_written_out();
    lemma_tail_written_out();
}

/// After the assignment of the search path, the shell reads the command of a
/// proving run back as the toolchain's words: each path is one word, whatever
/// characters it holds.
pub proof fn lemma_prove_command_keeps_paths(root: Seq<char>)
    ensures
        prove_command_text(root) == tools_on_path() + command_text(prove_words(root)),
        shell_words(command_text(prove_words(root))) == Some(prove_words(root)),
        prove_words(root)[3] == circuit_file(root),
        prove_words(root)[5] == ptau_file(root),
        prove_words(root)[7] == out_dir(root),
        prove_words(root)[9] == input_file(root),
{
    lemma_command_line_keeps_words(prove_words(root));
}

/// A proving run whose toolchain exits with a non-zero status fails, and
/// where both streams are UTF-8 the failure is a script failure whose text
/// holds the exact command and both streams.
pub proof fn lemma_failed_tool_fails_the_run(
    input: PaillierDemoInput,
    root: Seq<char>,
    output: ProcessOutput,
    action: ProveAction,
)
    requires
        prove_step(input, root, ProveEvent::ToolExited(output), action),
        !output.success,
    ensures
        action is Failed,
        valid_utf8_streams(output) ==> (action matches ProveAction::Failed(Error::Script(text))
            && contains(text@, prove_command_text(root)) && contains(
            text@,
            vstd::utf8::decode_utf8(output.stdout@),
        ) && contains(text@, vstd::utf8::decode_utf8(output.stderr@))),
{
    if valid_utf8_streams(output) {
        lemma_failure_text_holds_all(
            prove_command_text(root),
            vstd::utf8::decode_utf8(output.stdout@),
            vstd::utf8::decode_utf8(output.stderr@),
        );
    }
}

} // verus!
