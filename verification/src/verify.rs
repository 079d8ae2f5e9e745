//! The offline verification of a proof, step by step.

use crate::error::Error;
use crate::runner::{run, run_outcome, Invocation, ProcessOutput};
use crate::shell::{
    all_plain, command_text, escaped, lemma_command_line_keeps_words, lemma_command_text_push,
    shell_words, tool_command, tool_command_text, tools_on_path, word_texts,
};
use vstd::prelude::*;
use vstd::string::*;

verus! {

/// What has happened so far in a verification.
#[derive(Debug)]
pub enum VerifyEvent {
    /// Nothing yet.
    Begin,
    /// The verifier has run and ended.
    ToolExited(ProcessOutput),
    /// The verifier could not be started.
    ToolNotStarted(std::io::Error),
}

/// What to do next in a verification.
#[derive(Debug)]
pub enum VerifyAction {
    /// Run the command; then report `ToolExited` or `ToolNotStarted`.
    RunTool(Invocation),
    /// The verifier has accepted the proof.
    Done,
    /// The verification has failed.
    Failed(Error),
}

/// The words of the verifier's command line.
pub open spec fn verify_words(vkey: Seq<char>, proof: Seq<char>, public_json: Seq<char>) -> Seq<
    Seq<char>,
> {
    seq![
        "node"@,
        "tools/scripts/test_public_mutation.js"@,
        "--vkey"@,
        vkey,
        "--proof"@,
        proof,
        "--public"@,
        public_json,
    ]
}

/// The command of a verification: the search path is extended by the
/// project's own tool directories, then comes the verifier's command line.
pub open spec fn verify_command_text(
    vkey: Seq<char>,
    proof: Seq<char>,
    public_json: Seq<char>,
) -> Seq<char> {
    tool_command_text(verify_words(vkey, proof, public_json))
}

/// `action` is the step that follows `event` in the verification of `proof`
/// against `vkey` and `public_json`, for the project at `root`.
pub open spec fn verify_step(
    vkey: Seq<char>,
    proof: Seq<char>,
    public_json: Seq<char>,
    root: Seq<char>,
    event: VerifyEvent,
    action: VerifyAction,
) -> bool {
    match event {
        VerifyEvent::Begin => action matches VerifyAction::RunTool(request) && request.runs(
            verify_command_text(vkey, proof, public_json),
            Some(root),
        ),
        VerifyEvent::ToolNotStarted(e) => action == VerifyAction::Failed(Error::Io(e)),
        VerifyEvent::ToolExited(output) => match action {
            VerifyAction::Done => output.success,
            VerifyAction::Failed(e) => !output.success && run_outcome(
                verify_command_text(vkey, proof, public_json),
                output,
                Err(e),
            ),
            _ => false,
        },
    }
}

/// The command that verifies `proof` against `vkey` and `public_json`.
pub fn verify_command(vkey: &str, proof: &str, public_json: &str) -> (command: String)
    ensures
        command@ == verify_command_text(vkey@, proof@, public_json@),
{
    let mut words: Vec<String> = Vec::new();
    words.push(String::from_str("node"));
    words.push(String::from_str("tools/scripts/test_public_mutation.js"));
    words.push(String::from_str("--vkey"));
    words.push(String::from_str(vkey));
    words.push(String::from_str("--proof"));
    words.push(String::from_str(proof));
    words.push(String::from_str("--public"));
    words.push(String::from_str(public_json));
    assert(word_texts(words@) =~= verify_words(vkey@, proof@, public_json@));
    tool_command(&words)
}

/// One step of a verification. The caller starts with `Begin`, runs the
/// command in the project root, and comes back with `ToolExited` or
/// `ToolNotStarted`.
///
/// A shell that cannot be started is an I/O failure. The verifier's exit
/// status alone decides otherwise: zero is success, anything else a failure.
/// What the verifier printed is never read to decide, only kept in the
/// failure.
pub fn verify_offchain(
    vkey: &str,
    proof: &str,
    public_json: &str,
    repo_root: &str,
    event: VerifyEvent,
) -> (action: VerifyAction)
    ensures
        verify_step(vkey@, proof@, public_json@, repo_root@, event, action),
{
    match event {
        VerifyEvent::Begin => VerifyAction::RunTool(
            Invocation::shell(
                verify_command(vkey, proof, public_json),
                Some(String::from_str(repo_root)),
            ),
        ),
        VerifyEvent::ToolNotStarted(e) => VerifyAction::Failed(Error::Io(e)),
        VerifyEvent::ToolExited(output) => {
            let command = verify_command(vkey, proof, public_json);
            match run(command.as_str(), output) {
                Ok(()) => VerifyAction::Done,
                Err(e) => VerifyAction::Failed(e),
            }
        },
    }
}

/// The words before the first path stand as they are, after the search path.
proof fn lemma_head_written_out()
    ensures
        tools_on_path() + escaped("node"@) + seq![' '] + escaped(
            "tools/scripts/test_public_mutation.js"@,
        ) + seq![' '] + escaped("--vkey"@) + seq![' ']
            == "PATH=$PWD/tools/bin:$PWD/node_modules/.bin:$PATH node tools/scripts/test_public_mutation.js --vkey "@,
{
    reveal_strlit("node");
    reveal_strlit("tools/scripts/test_public_mutation.js");
    reveal_strlit("--vkey");
    reveal_strlit("PATH=$PWD/tools/bin:$PWD/node_modules/.bin:$PATH ");
    reveal_strlit(
        "PATH=$PWD/tools/bin:$PWD/node_modules/.bin:$PATH node tools/scripts/test_public_mutation.js --vkey ",
    );
    assert(all_plain("node"@));
    assert(all_plain("tools/scripts/test_public_mutation.js"@));
    assert(all_plain("--vkey"@));
    assert("PATH=$PWD/tools/bin:$PWD/node_modules/.bin:$PATH "@ + "node"@ + seq![' ']
        + "tools/scripts/test_public_mutation.js"@ + seq![' '] + "--vkey"@ + seq![' ']
        =~= "PATH=$PWD/tools/bin:$PWD/node_modules/.bin:$PATH node tools/scripts/test_public_mutation.js --vkey "@);
}

/// The flags between the paths stand as they are.
proof fn lemma_flags_written_out()
    ensures
        seq![' '] + escaped("--proof"@) + seq![' '] == " --proof "@,
        seq![' '] + escaped("--public"@) + seq![' '] == " --public "@,
{
    reveal_strlit("--proof");
    reveal_strlit("--public");
    reveal_strlit(" --proof ");
    reveal_strlit(" --public ");
    assert(all_plain("--proof"@));
    assert(all_plain("--public"@));
    assert(seq![' '] + "--proof"@ + seq![' '] =~= " --proof "@);
    assert(seq![' '] + "--public"@ + seq![' '] =~= " --public "@);
}

/// Eight words and the spaces between them, after a prefix, give the same
/// text whether they are put together one by one or in groups.
proof fn lemma_grouping(
    pre: Seq<char>,
    sp: Seq<char>,
    e0: Seq<char>,
    e1: Seq<char>,
    e2: Seq<char>,
    e3: Seq<char>,
    e4: Seq<char>,
    e5: Seq<char>,
    e6: Seq<char>,
    e7: Seq<char>,
)
    ensures
        pre + (e0 + sp + e1 + sp + e2 + sp + e3 + sp + e4 + sp + e5 + sp + e6 + sp + e7) == (pre
            + e0 + sp + e1 + sp + e2 + sp) + e3 + (sp + e4 + sp) + e5 + (sp + e6 + sp) + e7,
{
    let head = pre + e0 + sp + e1 + sp + e2 + sp;
    let c3 = e0 + sp + e1 + sp + e2 + sp + e3;
    let c5 = c3 + sp + e4 + sp + e5;
    assert(pre + c3 =~= head + e3);
    assert(pre + c5 =~= (pre + c3) + (sp + e4 + sp) + e5);
    assert(pre + (c5 + sp + e6 + sp + e7) =~= (pre + c5) + (sp + e6 + sp) + e7);
}

/// The command of a verification, written out: the fixed words stand as they
/// are, and only the three paths are quoted where they need it.
pub proof fn lemma_verify_command_written_out(
    vkey: Seq<char>,
    proof: Seq<char>,
    public_json: Seq<char>,
)
    ensures
        verify_command_text(vkey, proof, public_json)
            == "PATH=$PWD/tools/bin:$PWD/node_modules/.bin:$PATH node tools/scripts/test_public_mutation.js --vkey "@
            + escaped(vkey) + " --proof "@ + escaped(proof) + " --public "@ + escaped(
            public_json,
        ),
{
    let w0 = Seq::<Seq<char>>::empty();
    let w1 = w0.push("node"@);
    let w2 = w1.push("tools/scripts/test_public_mutation.js"@);
    let w3 = w2.push("--vkey"@);
    let w4 = w3.push(vkey);
    let w5 = w4.push("--proof"@);
    let w6 = w5.push(proof);
    let w7 = w6.push("--public"@);
    let w8 = w7.push(public_json);
    lemma_command_text_push(w0, "node"@);
    lemma_command_text_push(w1, "tools/scripts/test_public_mutation.js"@);
    lemma_command_text_push(w2, "--vkey"@);
    lemma_command_text_push(w3, vkey);
    lemma_command_text_push(w4, "--proof"@);
    lemma_command_text_push(w5, proof);
    lemma_command_text_push(w6, "--public"@);
    lemma_command_text_push(w7, public_json);
    assert(w8 =~= verify_words(vkey, proof, public_json));
    lemma_grouping(
        tools_on_path(),
        seq![' '],
        escaped("node"@),
        escaped("tools/scripts/test_public_mutation.js"@),
        escaped("--vkey"@),
        escaped(vkey),
        escaped("--proof"@),
        escaped(proof),
        escaped("--public"@),
        escaped(public_json),
    );
    lemma_head_written_out();
    lemma_flags_written_out();
}

/// After the assignment of the search path, the shell reads the command of a
/// verification back as the verifier's words: each of the three paths is one
/// word, whatever characters it holds.
pub proof fn lemma_verify_command_keeps_paths(
    vkey: Seq<char>,
    proof: Seq<char>,
    public_json: Seq<char>,
)
    ensures
        verify_command_text(vkey, proof, public_json) == tools_on_path() + command_text(
            verify_words(vkey, proof, public_json),
        ),
        shell_words(command_text(verify_words(vkey, proof, public_json))) == Some(
            seq![
                "node"@,
                "tools/scripts/test_public_mutation.js"@,
                "--vkey"@,
                vkey,
                "--proof"@,
                proof,
                "--public"@,
                public_json,
            ],
        ),
{
    lemma_command_line_keeps_words(verify_words(vkey, proof, public_json));
}

/// A verification never succeeds unless the verifier exited with status zero:
/// on any other status it fails, and the failure is the one that the runner
/// made of the verifier's output.
pub proof fn lemma_verify_fails_with_verifier(
    vkey: Seq<char>,
    proof: Seq<char>,
    public_json: Seq<char>,
    root: Seq<char>,
    output: ProcessOutput,
    action: VerifyAction,
)
    requires
        verify_step(vkey, proof, public_json, root, VerifyEvent::ToolExited(output), action),
    ensures
        action is Done <==> output.success,
        !output.success ==> (action matches VerifyAction::Failed(e) && run_outcome(
            verify_command_text(vkey, proof, public_json),
            output,
            Err(e),
        )),
{
}

} // verus!
