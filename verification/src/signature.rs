//! Extraction of the funder's signature from a signed refund PSBT.

use crate::engine::{der_signature, signature_from_der};
use crate::error::ProposalError;
use crate::message::{PartialSig, Psbt, PsbtInput};
use vstd::prelude::*;
use vstd::slice::slice_subrange;

verus! {

/// Why a PSBT yields no signature.
pub enum SigFailure {
    /// There is no partial signature under the key.
    Unsigned,
    /// The partial signature under the key does not parse.
    Invalid,
}

/// The signature filed under `key` by the first entry that has this key.
pub open spec fn spec_find_sig(sigs: Seq<PartialSig>, key: Seq<u8>) -> Option<Seq<u8>>
    decreases sigs.len(),
{
    if sigs.len() == 0 {
        None
    } else if sigs[0].pubkey@ == key {
        Some(sigs[0].signature@)
    } else {
        spec_find_sig(sigs.drop_first(), key)
    }
}

/// No key is filed twice.
pub open spec fn keys_unique(sigs: Seq<PartialSig>) -> bool {
    forall|i: int, j: int| 0 <= i < j < sigs.len() ==> sigs[i].pubkey@ != sigs[j].pubkey@
}

/// Where no key is filed twice, the signature found under a key is the one of
/// the only entry with that key.
pub proof fn law_unique_key_lookup(sigs: Seq<PartialSig>, i: int)
    requires
        keys_unique(sigs),
        0 <= i < sigs.len(),
    ensures
        spec_find_sig(sigs, sigs[i].pubkey@) == Some(sigs[i].signature@),
    decreases sigs.len(),
{
    if i > 0 {
        let rest = sigs.drop_first();
        assert(rest[i - 1] == sigs[i]);
        assert(keys_unique(rest)) by {
            assert forall|a: int, b: int| 0 <= a < b < rest.len() implies rest[a].pubkey@
                != rest[b].pubkey@ by {
                assert(rest[a] == sigs[a + 1]);
                assert(rest[b] == sigs[b + 1]);
            }
        }
        law_unique_key_lookup(rest, i - 1);
    }
}

/// The compact signature that a stored partial signature stands for: the
/// stored bytes without their last one, the sighash flag, parsed as DER.
pub open spec fn spec_parse_partial_sig(stored: Seq<u8>) -> Option<Seq<u8>> {
    if stored.len() == 0 {
        None
    } else {
        der_signature(stored.drop_last())
    }
}

/// The signature of the funder in a refund PSBT: that of its first input
/// under the funding key.
pub open spec fn spec_refund_signature(inputs: Seq<PsbtInput>, key: Seq<u8>) -> Result<
    Seq<u8>,
    SigFailure,
> {
    if inputs.len() == 0 {
        Err(SigFailure::Unsigned)
    } else {
        match spec_find_sig(inputs[0].partial_sigs@, key) {
            None => Err(SigFailure::Unsigned),
            Some(stored) => match spec_parse_partial_sig(stored) {
                None => Err(SigFailure::Invalid),
                Some(signature) => Ok(signature),
            },
        }
    }
}

fn is_key(pubkey: &Vec<u8>, key: &[u8; 33]) -> (same: bool)
    ensures
        same == (pubkey@ == key@),
{
    if pubkey.len() != 33 {
        return false;
    }
    let mut i: usize = 0;
    while i < 33
        invariant
            i <= 33,
            pubkey@.len() == 33,
            forall|k: int| 0 <= k < i ==> pubkey@[k] == key@[k],
        decreases 33 - i,
    {
        if pubkey[i] != key[i] {
            return false;
        }
        i = i + 1;
    }
    assert(pubkey@ =~= key@);
    true
}

/// Looks up the partial signature filed under `key`.
pub fn find_partial_sig<'a>(sigs: &'a Vec<PartialSig>, key: &[u8; 33]) -> (found: Option<
    &'a Vec<u8>,
>)
    ensures
        match found {
            Some(stored) => spec_find_sig(sigs@, key@) == Some(stored@),
            None => spec_find_sig(sigs@, key@) is None,
        },
{
    let mut i: usize = 0;
    assert(sigs@.skip(0) =~= sigs@);
    while i < sigs.len()
        invariant
            i <= sigs.len(),
            spec_find_sig(sigs@, key@) == spec_find_sig(sigs@.skip(i as int), key@),
        decreases sigs.len() - i,
    {
        let ghost rest = sigs@.skip(i as int);
        assert(rest[0] == sigs@[i as int]);
        assert(rest.drop_first() =~= sigs@.skip(i + 1));
        if is_key(&sigs[i].pubkey, key) {
            return Some(&sigs[i].signature);
        }
        i = i + 1;
    }
    None
}

/// Parses a stored partial signature: strips the sighash flag, which is its
/// last byte, and reads the rest as DER.
pub fn parse_partial_sig(stored: &Vec<u8>) -> (res: Result<[u8; 64], ProposalError>)
    ensures
        match res {
            Ok(signature) => spec_parse_partial_sig(stored@) == Some(signature@),
            Err(e) => spec_parse_partial_sig(stored@) is None && e is InvalidSig,
        },
{
    let len = stored.len();
    let der = if len == 0 {
        stored.as_slice()
    } else {
        slice_subrange(stored.as_slice(), 0, len - 1)
    };
    assert(len > 0 ==> der@ =~= stored@.drop_last());
    match signature_from_der(der) {
        Ok(signature) => Ok(signature),
        Err(e) => Err(ProposalError::InvalidSig(e)),
    }
}

/// Extracts the funder's signature from a refund PSBT that came back from
/// the signer.
pub fn refund_signature(psbt: &Psbt, funding_pubkey: &[u8; 33]) -> (res: Result<[u8; 64], ProposalError>)
    ensures
        match res {
            Ok(signature) => spec_refund_signature(psbt.inputs@, funding_pubkey@) == Ok::<
                Seq<u8>,
                SigFailure,
            >(signature@),
            Err(e) => match spec_refund_signature(psbt.inputs@, funding_pubkey@) {
                Ok(_) => false,
                Err(SigFailure::Unsigned) => e == ProposalError::FundingPsbtUnsigned(*funding_pubkey),
                Err(SigFailure::Invalid) => e is InvalidSig,
            },
        },
{
    if psbt.inputs.len() == 0 {
        return Err(ProposalError::FundingPsbtUnsigned(*funding_pubkey));
    }
    match find_partial_sig(&psbt.inputs[0].partial_sigs, funding_pubkey) {
        None => Err(ProposalError::FundingPsbtUnsigned(*funding_pubkey)),
        Some(stored) => parse_partial_sig(stored),
    }
}

} // verus!
