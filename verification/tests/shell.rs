use sddkm_lib::layout::{artifact_path, join, Artifact, Layout, ProveResult};
use sddkm_lib::shell::{command_line, tool_command};

fn line(words: &[&str]) -> String {
    command_line(&words.iter().map(|w| w.to_string()).collect())
}

#[test]
fn plain_words_stand_bare() {
    assert_eq!(line(&["node"]), "node");
    assert_eq!(line(&["--aaa=bbb-ccc"]), "--aaa=bbb-ccc");
    assert_eq!(
        line(&["abcdefghijklmnopqrstuvwxyzABCDEFGHIJKLMNOPQRSTUVWXYZ0123456789-_=/,.+"]),
        "abcdefghijklmnopqrstuvwxyzABCDEFGHIJKLMNOPQRSTUVWXYZ0123456789-_=/,.+"
    );
}

#[test]
fn words_with_blanks_are_quoted() {
    assert_eq!(line(&["a b"]), "'a b'");
    assert_eq!(line(&["linker=gcc -L/foo -Wl,bar"]), "'linker=gcc -L/foo -Wl,bar'");
    assert_eq!(line(&["tab\there"]), "'tab\there'");
    assert_eq!(line(&["two\nlines"]), "'two\nlines'");
}

#[test]
fn shell_metacharacters_are_quoted() {
    assert_eq!(line(&["--features=\"default\""]), "'--features=\"default\"'");
    assert_eq!(line(&["$HOME"]), "'$HOME'");
    assert_eq!(line(&["a;b"]), "'a;b'");
    assert_eq!(line(&["a|b&c"]), "'a|b&c'");
    assert_eq!(line(&["*.json"]), "'*.json'");
    assert_eq!(line(&["~/x"]), "'~/x'");
    assert_eq!(line(&["a:b"]), "'a:b'");
    assert_eq!(line(&["back\\slash"]), "'back\\slash'");
    assert_eq!(line(&["`id`"]), "'`id`'");
}

#[test]
fn quotes_and_bangs_leave_the_quotes() {
    assert_eq!(line(&["it's"]), "'it'\\''s'");
    assert_eq!(line(&["hey!"]), "'hey'\\!''");
    assert_eq!(line(&["'"]), "''\\'''");
    assert_eq!(line(&["'!\\$`\\\\\\n "]), "''\\'''\\!'\\$`\\\\\\n '");
}

#[test]
fn the_empty_word_is_a_pair_of_quotes() {
    assert_eq!(line(&[""]), "''");
    assert_eq!(line(&["a", "", "b"]), "a '' b");
}

#[test]
fn words_outside_ascii_are_quoted() {
    assert_eq!(line(&["回路"]), "'回路'");
    assert_eq!(line(&["né"]), "'né'");
}

#[test]
fn words_are_set_apart_by_one_space() {
    assert_eq!(line(&[]), "");
    assert_eq!(line(&["a", "b", "c"]), "a b c");
    assert_eq!(line(&["run", "my file", "--flag"]), "run 'my file' --flag");
}

#[test]
fn join_puts_one_slash_between() {
    assert_eq!(join("a", "b"), "a/b");
    assert_eq!(join("/srv/x", "build/demo"), "/srv/x/build/demo");
    assert_eq!(join("a/", "b"), "a/b");
    assert_eq!(join("/", "b"), "/b");
    assert_eq!(join("", "b"), "b");
    assert_eq!(join("a", ""), "a/");
    assert_eq!(join("", ""), "");
}

#[test]
fn join_lets_an_absolute_path_stand() {
    assert_eq!(join("a", "/b"), "/b");
    assert_eq!(join("/x/y", "/"), "/");
}

#[test]
fn join_agrees_with_the_path_type() {
    let bases = ["", "/", "a", "a/", "/srv/x", "dir with blank", "né/"];
    let rels = ["", "b", "b/c", "/abs", "x.json", "/"];
    for base in bases {
        for rel in rels {
            let expected = std::path::Path::new(base).join(rel);
            assert_eq!(join(base, rel), expected.to_string_lossy());
        }
    }
}

#[test]
fn layout_follows_the_convention() {
    let layout = Layout::under("/srv/sddkm");
    assert_eq!(layout.circuit, "/srv/sddkm/circuits/paillier_demo.circom");
    assert_eq!(layout.ptau, "/srv/sddkm/tools/ptau/powersOfTau28_hez_final_14.ptau");
    assert_eq!(layout.out_dir, "/srv/sddkm/circuits/build/demo");
    assert_eq!(layout.input, "/srv/sddkm/circuits/input.demo.json");
}

#[test]
fn layout_under_a_root_with_a_trailing_slash() {
    let layout = Layout::under("/srv/sddkm/");
    assert_eq!(layout.circuit, "/srv/sddkm/circuits/paillier_demo.circom");
    assert_eq!(layout.input, "/srv/sddkm/circuits/input.demo.json");
}

#[test]
fn artifacts_are_named_after_the_circuit() {
    assert_eq!(artifact_path("out", Artifact::Proof), "out/paillier_demo.proof.json");
    assert_eq!(artifact_path("out", Artifact::PublicSignals), "out/paillier_demo.public.json");
    assert_eq!(artifact_path("out", Artifact::VerificationKey), "out/paillier_demo.vkey.json");
    assert_eq!(artifact_path("out", Artifact::VerifierSource), "out/VerifierPaillierDemo.sol");
}

#[test]
fn prove_result_in_a_directory() {
    let res = ProveResult::in_dir("build dir");
    assert_eq!(res.out_dir, "build dir");
    assert_eq!(res.proof, "build dir/paillier_demo.proof.json");
    assert_eq!(res.public_json, "build dir/paillier_demo.public.json");
    assert_eq!(res.vkey_json, "build dir/paillier_demo.vkey.json");
    assert_eq!(res.verifier_sol, "build dir/VerifierPaillierDemo.sol");
}

#[test]
fn tool_command_puts_the_tools_on_the_search_path() {
    let words = vec!["node".to_string(), "my script.js".to_string()];
    assert_eq!(
        tool_command(&words),
        "PATH=$PWD/tools/bin:$PWD/node_modules/.bin:$PATH node 'my script.js'"
    );
    assert_eq!(tool_command(&Vec::new()), "PATH=$PWD/tools/bin:$PWD/node_modules/.bin:$PATH ");
}
