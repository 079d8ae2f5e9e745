//! Where things lie: the files of a project, found from its root by
//! convention, and the artifacts of a proving run, found from its output
//! directory.

use vstd::prelude::*;
use vstd::string::*;

verus! {

/// `rel` adjoined to `base` as a path: an absolute `rel` replaces `base`; else
/// the two are put together, with a `/` between them unless `base` is empty or
/// already ends in one.
pub open spec fn joined(base: Seq<char>, rel: Seq<char>) -> Seq<char> {
    if rel.len() > 0 && rel[0] == '/' {
        rel
    } else if base.len() == 0 || base.last() == '/' {
        base + rel
    } else {
        base + seq!['/'] + rel
    }
}

/// The path of `rel` under `base`.
pub fn join(base: &str, rel: &str) -> (path: String)
    ensures
        path@ == joined(base@, rel@),
{
    let rel_len = rel.unicode_len();
    if rel_len > 0 && rel.get_char(0) == '/' {
        return String::from_str(rel);
    }
    let base_len = base.unicode_len();
    let mut path = String::from_str(base);
    if base_len > 0 && base.get_char(base_len - 1) != '/' {
        proof {
            reveal_strlit("/");
        }
        path.append("/");
        assert(path@ =~= base@ + seq!['/']);
    }
    path.append(rel);
    path
}

/// The directory of the circuits under the project root.
pub open spec fn circuits_dir(root: Seq<char>) -> Seq<char> {
    joined(root, "circuits"@)
}

/// The directory of the tools under the project root.
pub open spec fn tools_dir(root: Seq<char>) -> Seq<char> {
    joined(root, "tools"@)
}

/// The circuit's source file.
pub open spec fn circuit_file(root: Seq<char>) -> Seq<char> {
    joined(circuits_dir(root), "paillier_demo.circom"@)
}

/// The file of the trusted-setup parameters.
pub open spec fn ptau_file(root: Seq<char>) -> Seq<char> {
    joined(tools_dir(root), "ptau/powersOfTau28_hez_final_14.ptau"@)
}

/// The directory that a proving run writes its artifacts to.
pub open spec fn out_dir(root: Seq<char>) -> Seq<char> {
    joined(circuits_dir(root), "build/demo"@)
}

/// The file that the input record is written to before a proving run.
pub open spec fn input_file(root: Seq<char>) -> Seq<char> {
    joined(circuits_dir(root), "input.demo.json"@)
}

/// The files of a project that a proving run reads and writes.
#[derive(Debug, Clone)]
pub struct Layout {
    pub circuit: String,
    pub ptau: String,
    pub out_dir: String,
    pub input: String,
}

impl Layout {
    /// Every path is the one that the convention gives under `root`.
    pub open spec fn is_under(&self, root: Seq<char>) -> bool {
        &&& self.circuit@ == circuit_file(root)
        &&& self.ptau@ == ptau_file(root)
        &&& self.out_dir@ == out_dir(root)
        &&& self.input@ == input_file(root)
    }

    /// The layout of the project at `root`.
    pub fn under(root: &str) -> (layout: Layout)
        ensures
            layout.is_under(root@),
    {
        let circuits = join(root, "circuits");
        let tools = join(root, "tools");
        Layout {
            circuit: join(circuits.as_str(), "paillier_demo.circom"),
            ptau: join(tools.as_str(), "ptau/powersOfTau28_hez_final_14.ptau"),
            out_dir: join(circuits.as_str(), "build/demo"),
            input: join(circuits.as_str(), "input.demo.json"),
        }
    }
}

/// One of the files that a proving run leaves in its output directory.
#[derive(Debug, Clone, Copy, PartialEq, Eq, Structural)]
pub enum Artifact {
    /// The proof.
    Proof,
    /// The public signals that the proof speaks of.
    PublicSignals,
    /// The key that the proof is verified with.
    VerificationKey,
    /// The generated source of the on-chain verifier.
    VerifierSource,
}

/// The name of an artifact's file: the circuit's base name with the ending of
/// the artifact's kind, or the verifier contract's name with its ending.
pub open spec fn artifact_name(kind: Artifact) -> Seq<char> {
    match kind {
        Artifact::Proof => "paillier_demo.proof.json"@,
        Artifact::PublicSignals => "paillier_demo.public.json"@,
        Artifact::VerificationKey => "paillier_demo.vkey.json"@,
        Artifact::VerifierSource => "VerifierPaillierDemo.sol"@,
    }
}

/// The path of an artifact in the output directory `out_dir`.
pub fn artifact_path(out_dir: &str, kind: Artifact) -> (path: String)
    ensures
        path@ == joined(out_dir@, artifact_name(kind)),
{
    match kind {
        Artifact::Proof => join(out_dir, "paillier_demo.proof.json"),
        Artifact::PublicSignals => join(out_dir, "paillier_demo.public.json"),
        Artifact::VerificationKey => join(out_dir, "paillier_demo.vkey.json"),
        Artifact::VerifierSource => join(out_dir, "VerifierPaillierDemo.sol"),
    }
}

/// The artifacts of a successful proving run. The paths follow from the
/// output directory alone; that the files exist is the toolchain's part.
#[derive(Debug, Clone)]
pub struct ProveResult {
    pub out_dir: String,
    pub proof: String,
    pub public_json: String,
    pub vkey_json: String,
    pub verifier_sol: String,
}

impl ProveResult {
    /// The five paths are those of a run that wrote to `out_dir`.
    pub open spec fn is_for(&self, out_dir: Seq<char>) -> bool {
        &&& self.out_dir@ == out_dir
        &&& self.proof@ == joined(out_dir, artifact_name(Artifact::Proof))
        &&& self.public_json@ == joined(out_dir, artifact_name(Artifact::PublicSignals))
        &&& self.vkey_json@ == joined(out_dir, artifact_name(Artifact::VerificationKey))
        &&& self.verifier_sol@ == joined(out_dir, artifact_name(Artifact::VerifierSource))
    }

    /// The artifacts of a run that wrote to `out_dir`.
    pub fn in_dir(out_dir: &str) -> (result: ProveResult)
        ensures
            result.is_for(out_dir@),
    {
        ProveResult {
            out_dir: String::from_str(out_dir),
            proof: artifact_path(out_dir, Artifact::Proof),
            public_json: artifact_path(out_dir, Artifact::PublicSignals),
            vkey_json: artifact_path(out_dir, Artifact::VerificationKey),
            verifier_sol: artifact_path(out_dir, Artifact::VerifierSource),
        }
    }
}

} // verus!
