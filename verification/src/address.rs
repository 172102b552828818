//! Chain-specific address derivation from output scripts.
//!
//! This is the one fallible lookup of the registry: a script that matches
//! no standard address pattern under the chosen network's encoding rules is
//! reported through a typed error, never a panic, and the underlying
//! encoding error is propagated to the caller.

use crate::chain::Chain;
use vstd::prelude::*;

verus! {

/// An output script; opaque here, built and inspected by the address library.
#[verifier::external_type_specification]
#[verifier::external_body]
pub struct ExScript(bitcoin::Script);

/// A derived address; opaque here.
#[verifier::external_type_specification]
#[verifier::external_body]
pub struct ExAddress(bitcoin::Address);

/// The address library's encoding error; opaque here, carried through.
#[verifier::external_type_specification]
#[verifier::external_body]
pub struct ExEncodingError(bitcoin::util::address::Error);

/// What `Address::from_script` returns for a script and a network: the
/// result depends on these two arguments alone.
pub uninterp spec fn address_derivation(
    script: bitcoin::Script,
    network: bitcoin::Network,
) -> Result<bitcoin::Address, bitcoin::util::address::Error>;

/// Relies on bitcoin's `Address::from_script`: it derives the network's
/// standard address encoding of an output script, and returns a typed
/// encoding error, never panicking, when the script matches no standard
/// address pattern.
pub assume_specification[ bitcoin::Address::from_script ](
    script: &bitcoin::Script,
    network: bitcoin::Network,
) -> (r: Result<bitcoin::Address, bitcoin::util::address::Error>)
    ensures
        r == address_derivation(*script, network),
;

/// Address derivation failed: the script cannot be represented as a
/// standard address under the chain's encoding rules.
#[derive(Debug)]
pub struct AddressError {
    /// The chain whose encoding rules rejected the script.
    pub chain: Chain,
    /// The address library's underlying encoding error.
    pub source: bitcoin::util::address::Error,
}

impl Chain {
    /// The chain-specific address encoding of an output script. Success,
    /// the derived address, and the reported reason are exactly those of
    /// the address library under this chain's consensus network.
    pub fn address_from_script(self, script: &bitcoin::Script) -> (r: Result<
        bitcoin::Address,
        AddressError,
    >)
        ensures
            r is Ok <==> address_derivation(*script, self.spec_network()) is Ok,
            r is Ok ==> r->Ok_0 == address_derivation(*script, self.spec_network())->Ok_0,
            r is Err ==> r->Err_0.chain == self && r->Err_0.source == address_derivation(
                *script,
                self.spec_network(),
            )->Err_0,
    {
        match bitcoin::Address::from_script(script, self.network()) {
            Ok(a) => Ok(a),
            Err(e) => Err(AddressError { chain: self, source: e }),
        }
    }
}

/// Address derivation is a function of the script and the variant alone:
/// two derivations of the same script on the same variant are identical.
pub proof fn lemma_address_derivation_deterministic(
    c: Chain,
    script: bitcoin::Script,
    r1: Result<bitcoin::Address, bitcoin::util::address::Error>,
    r2: Result<bitcoin::Address, bitcoin::util::address::Error>,
)
    requires
        r1 == address_derivation(script, c.spec_network()),
        r2 == address_derivation(script, c.spec_network()),
    ensures
        r1 == r2,
{
}

} // verus!
