use sddkm_lib::mpc::{CoProver, SinglePartyProver};
use sddkm_lib::{run, Error, PaillierDemoInput, ProcessOutput};

fn exit(success: bool, stdout: &[u8], stderr: &[u8]) -> ProcessOutput {
    ProcessOutput { success, stdout: stdout.to_vec(), stderr: stderr.to_vec() }
}

fn input_with(h_m: &str) -> PaillierDemoInput {
    PaillierDemoInput {
        n: 7,
        g: 8,
        c: 22,
        h_m: h_m.to_string(),
        circuitVersion: 1,
        sessionID: 42,
        lambda: 1,
        mu: 1,
        m: 3,
        Lc_t: 3,
        Lg_t: 1,
        eqm_k: 0,
        eqk_k: 0,
    }
}

#[test]
fn run_succeeds_on_zero_exit() {
    assert!(run("true", exit(true, b"", b"")).is_ok());
    assert!(run("echo hi", exit(true, b"hi\n", b"warning\n")).is_ok());
}

#[test]
fn run_succeeds_on_zero_exit_whatever_was_printed() {
    assert!(run("cat blob", exit(true, &[0xff, 0x00, 0x80], &[0xfe])).is_ok());
}

#[test]
fn run_reports_command_and_both_streams() {
    match run("make proof", exit(false, b"step 1\n", b"boom\n")) {
        Err(Error::Script(text)) => {
            assert_eq!(text, "cmd failed: make proof\nstdout:\nstep 1\n\nstderr:\nboom\n")
        }
        other => panic!("unexpected result: {:?}", other),
    }
}

#[test]
fn run_reports_empty_streams() {
    match run("false", exit(false, b"", b"")) {
        Err(Error::Script(text)) => assert_eq!(text, "cmd failed: false\nstdout:\n\nstderr:\n"),
        other => panic!("unexpected result: {:?}", other),
    }
}

#[test]
fn run_decodes_multibyte_output() {
    let out = "証明に失敗 ✗\n";
    match run("node prove.js", exit(false, out.as_bytes(), "né\n".as_bytes())) {
        Err(Error::Script(text)) => assert_eq!(
            text,
            "cmd failed: node prove.js\nstdout:\n証明に失敗 ✗\n\nstderr:\nné\n"
        ),
        other => panic!("unexpected result: {:?}", other),
    }
}

#[test]
fn run_rejects_undecodable_stdout() {
    match run("x", exit(false, &[b'a', 0xff], b"fine")) {
        Err(Error::Utf8(e)) => assert_eq!(e.as_bytes(), &[b'a', 0xff]),
        other => panic!("unexpected result: {:?}", other),
    }
}

#[test]
fn run_rejects_undecodable_stderr() {
    match run("x", exit(false, b"fine", &[0xed, 0xa0, 0x80])) {
        Err(Error::Utf8(e)) => assert_eq!(e.as_bytes(), &[0xed, 0xa0, 0x80]),
        other => panic!("unexpected result: {:?}", other),
    }
}

#[test]
fn run_decodes_stdout_first() {
    match run("x", exit(false, &[0xff], &[0xfe])) {
        Err(Error::Utf8(e)) => assert_eq!(e.as_bytes(), &[0xff]),
        other => panic!("unexpected result: {:?}", other),
    }
}

#[test]
fn message_of_a_script_failure() {
    let e = run("false", exit(false, b"o", b"e")).unwrap_err();
    assert_eq!(e.message(), "script failed: cmd failed: false\nstdout:\no\nstderr:\ne");
}

#[test]
fn message_of_an_io_failure() {
    let e = Error::Io(std::io::Error::new(std::io::ErrorKind::Other, "disk full"));
    assert_eq!(e.message(), "io: disk full");
}

#[test]
fn message_of_a_decoding_failure() {
    let cause = String::from_utf8(vec![0xff]).unwrap_err();
    let expected = format!("utf8: {}", cause);
    assert_eq!(Error::Utf8(cause).message(), expected);
    assert!(expected.len() > "utf8: ".len());
}

#[test]
fn message_of_a_serialization_failure() {
    let cause = serde_json::from_str::<serde_json::Value>("{").unwrap_err();
    let expected = format!("serde: {}", cause);
    assert_eq!(Error::Serde(cause).message(), expected);
    assert!(expected.len() > "serde: ".len());
}

#[test]
fn single_party_prover_succeeds() {
    let prover = SinglePartyProver;
    assert!(prover.co_prove().is_ok());
    assert!(prover.co_prove().is_ok());
}

#[test]
fn single_party_prover_stands_in_for_any_co_prover() {
    let prover: Box<dyn CoProver> = Box::new(SinglePartyProver);
    assert!(prover.co_prove().is_ok());
}

#[test]
fn demo_input_is_well_formed() {
    let input =
        input_with("6018413527099068561047958932369318610297162528491556075919075208700178480084");
    assert!(input.is_well_formed());
}

#[test]
fn digits_alone_make_a_well_formed_input() {
    assert!(input_with("0").is_well_formed());
    assert!(input_with("007").is_well_formed());
    assert!(!input_with("").is_well_formed());
    assert!(!input_with("12a").is_well_formed());
    assert!(!input_with("-1").is_well_formed());
    assert!(!input_with("1.5").is_well_formed());
    assert!(!input_with(" 1").is_well_formed());
    assert!(!input_with("１２").is_well_formed());
    assert!(!input_with("12/").is_well_formed());
    assert!(!input_with("12:").is_well_formed());
}

#[test]
fn copy_keeps_every_field() {
    let input = PaillierDemoInput {
        n: 1,
        g: 2,
        c: 3,
        h_m: "340282366920938463463374607431768211456".to_string(),
        circuitVersion: 4,
        sessionID: 5,
        lambda: 6,
        mu: 7,
        m: 8,
        Lc_t: 9,
        Lg_t: 10,
        eqm_k: 11,
        eqk_k: u64::MAX,
    };
    let copy = input.copy();
    assert_eq!(
        (copy.n, copy.g, copy.c, copy.circuitVersion, copy.sessionID, copy.lambda),
        (1, 2, 3, 4, 5, 6)
    );
    assert_eq!((copy.mu, copy.m, copy.Lc_t, copy.Lg_t, copy.eqm_k), (7, 8, 9, 10, 11));
    assert_eq!(copy.eqk_k, u64::MAX);
    assert_eq!(copy.h_m, "340282366920938463463374607431768211456");
}

#[test]
fn outside_errors_become_their_own_kind() {
    let io = std::io::Error::new(std::io::ErrorKind::Other, "disk full");
    assert!(matches!(Error::from(io), Error::Io(_)));
    let utf8 = String::from_utf8(vec![0x80]).unwrap_err();
    assert!(matches!(Error::from(utf8), Error::Utf8(_)));
    let json = serde_json::from_str::<serde_json::Value>("[").unwrap_err();
    assert!(matches!(Error::from(json), Error::Serde(_)));
}
