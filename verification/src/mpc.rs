//! Proving together with other parties. Today one party proves alone.

use anyhow::Error as AnyError;
use vstd::prelude::*;

verus! {

/// `anyhow::Error`, carried as it is.
#[verifier::external_type_specification]
#[verifier::external_body]
pub struct ExAnyError(AnyError);

/// A way to produce a proof jointly: the witness is split among the
/// participants, who contribute to one proof.
pub trait CoProver {
    /// Produces the proof, or says why it could not.
    fn co_prove(&self) -> Result<(), AnyError>;
}

/// One party that proves alone. It holds nothing and shares nothing.
pub struct SinglePartyProver;

impl CoProver for SinglePartyProver {
    /// Does nothing, and succeeds.
    fn co_prove(&self) -> (res: Result<(), AnyError>)
        ensures
            res is Ok,
    {
        Ok(())
    }
}

} // verus!
