//! The boundary to the channel engine and to the cryptographic primitives.
//!
//! Everything in this file is trusted: the types are declared so that values
//! of them can be carried through verified code, and each function makes one
//! call into an outside crate, with a contract that Verus takes on faith.
//! The rest of the crate is verified against these contracts.

use amplify::{Slice32, Wrapper};
use crate::channel::{workable, ChannelType, OpenChannelWith};
use crate::error::ChannelError;
use crate::message::pays_to_witness_script_hash;
use lnp::channel::bolt::CommonParams;
use lnp::p2p::legacy;
use vstd::prelude::*;

verus! {

/// Error of the secp256k1 library.
#[verifier::external_type_specification]
#[verifier::external_body]
pub struct ExSecpError(bitcoin::secp256k1::Error);

/// Error with which the channel engine rejects an operation.
#[verifier::external_type_specification]
#[verifier::external_body]
pub struct ExEngineError(lnp::channel::bolt::Error);

/// Policy against which the engine checks what the remote peer proposes.
#[verifier::external_type_specification]
#[verifier::external_body]
pub struct ExPolicy(lnp::channel::bolt::Policy);

/// Channel parameters that one peer asks of the other.
#[verifier::external_type_specification]
#[verifier::external_body]
pub struct ExPeerParams(lnp::channel::bolt::PeerParams);

/// Local key material of a channel.
#[verifier::external_type_specification]
#[verifier::external_body]
pub struct ExLocalKeyset(lnp::channel::bolt::LocalKeyset);

/// `open_channel` peer message.
#[verifier::external_type_specification]
#[verifier::external_body]
pub struct ExOpenChannel(lnp::p2p::legacy::OpenChannel);

/// `accept_channel` peer message.
#[verifier::external_type_specification]
#[verifier::external_body]
pub struct ExAcceptChannel(lnp::p2p::legacy::AcceptChannel);

/// `funding_signed` peer message.
#[verifier::external_type_specification]
#[verifier::external_body]
pub struct ExFundingSigned(lnp::p2p::legacy::FundingSigned);

/// `funding_locked` peer message, by which a peer says that the channel is
/// ready.
#[verifier::external_type_specification]
#[verifier::external_body]
pub struct ExFundingLocked(lnp::p2p::legacy::FundingLocked);

/// The channel engine: an `lnp::channel::Channel` of the BOLT kind.
///
/// The engine owns the key material and the negotiated parameters, checks
/// what the peer sends against the local policy and builds the channel
/// transactions.  Nothing of its contents is visible to Verus, which cannot
/// take the declaration of the outside type itself: its parameter is bound
/// by outside traits.
#[verifier::external_body]
pub struct Engine {
    inner: lnp::channel::Channel<lnp::channel::bolt::BoltExt>,
}

/// What `secp256k1::ecdsa::Signature::from_der` makes of a byte string: the
/// 64 bytes of the compact form of the signature that the bytes encode in
/// DER, or nothing where they encode none.
pub uninterp spec fn der_signature(der: Seq<u8>) -> Option<Seq<u8>>;

/// Calls `secp256k1::ecdsa::Signature::from_der` and, on the signature it
/// returns, `serialize_compact`.
///
/// Trusted: the outcome is a function of the bytes alone, the compact form
/// has 64 bytes, and an empty input is rejected.
#[verifier::external_body]
pub(crate) fn signature_from_der(der: &[u8]) -> (res: Result<[u8; 64], bitcoin::secp256k1::Error>)
    ensures
        match res {
            Ok(signature) => der_signature(der@) == Some(signature@),
            Err(_) => der_signature(der@) is None,
        },
        der@.len() == 0 ==> res is Err,
{
    match bitcoin::secp256k1::ecdsa::Signature::from_der(der) {
        Ok(signature) => Ok(signature.serialize_compact()),
        Err(e) => Err(e),
    }
}

/// What the `bitcoin` decoder and `Transaction::txid` make of a byte string:
/// the id of the unsigned transaction of the PSBT that the bytes encode, or
/// nothing where they encode none.
pub uninterp spec fn psbt_txid(raw: Seq<u8>) -> Option<Seq<u8>>;

/// Decodes a PSBT with `bitcoin::consensus::deserialize` and calls
/// `Transaction::txid` on its unsigned transaction.
///
/// Trusted: the outcome is a function of the bytes alone.
#[verifier::external_body]
pub(crate) fn decode_psbt_txid(raw: &Vec<u8>) -> (txid: Option<[u8; 32]>)
    ensures
        match txid {
            Some(txid) => psbt_txid(raw@) == Some(txid@),
            None => psbt_txid(raw@) is None,
        },
{
    match bitcoin::consensus::deserialize::<bitcoin::util::psbt::PartiallySignedTransaction>(raw) {
        Ok(psbt) => Some(bitcoin::hashes::Hash::into_inner(psbt.unsigned_tx.txid())),
        Err(_) => None,
    }
}

/// What the `bitcoin` decoder and `PsbtLnpFunding::channel_funding_output`
/// make of a byte string: the index of the first output of the PSBT that is
/// marked as the funding of a channel, or nothing where the bytes encode no
/// PSBT or no output of it is marked.
pub uninterp spec fn psbt_funding_output(raw: Seq<u8>) -> Option<usize>;

/// Decodes a PSBT with `bitcoin::consensus::deserialize` and calls
/// `PsbtLnpFunding::channel_funding_output` on it.
///
/// Trusted: the outcome is a function of the bytes alone.
#[verifier::external_body]
pub(crate) fn decode_psbt_funding_output(raw: &Vec<u8>) -> (output: Option<usize>)
    ensures
        output == psbt_funding_output(raw@),
{
    match bitcoin::consensus::deserialize::<bitcoin::util::psbt::PartiallySignedTransaction>(raw) {
        Ok(psbt) => lnp::channel::PsbtLnpFunding::channel_funding_output(&psbt),
        Err(_) => None,
    }
}

/// Whether `secp256k1::PublicKey::from_slice` takes a byte string for a
/// public key.
pub uninterp spec fn valid_pubkey(key: Seq<u8>) -> bool;

/// What `PubkeyScript::ln_funding` makes of an amount and of the serialized
/// funding keys of the two peers: the bytes of the script to which the
/// funding output pays, or nothing where one of the two is no public key.
pub uninterp spec fn funding_script(amount: u64, local_key: Seq<u8>, remote_key: Seq<u8>) -> Option<
    Seq<u8>,
>;

/// Parses the two keys and calls `ScriptGenerators::ln_funding` for a
/// `PubkeyScript`, which the channel engine calls on its own copies of the
/// same keys wherever it needs the script of the funding output.
///
/// Trusted: the outcome is a function of the arguments alone, and there is
/// one where both keys parse.  The script puts the two keys into a 2-of-2
/// multisig witness script and ends in `to_p2wsh`, which is
/// `Script::new_witness_program` for version 0 on the 32 bytes of the hash
/// of the witness script.
#[verifier::external_body]
pub(crate) fn ln_funding_script(amount: u64, local_key: &[u8; 33], remote_key: &[u8; 33]) -> (script:
    Option<Vec<u8>>)
    ensures
        match script {
            Some(script) => funding_script(amount, local_key@, remote_key@) == Some(script@)
                && pays_to_witness_script_hash(script@) && valid_pubkey(local_key@)
                && valid_pubkey(remote_key@),
            None => funding_script(amount, local_key@, remote_key@) is None && !(valid_pubkey(
                local_key@,
            ) && valid_pubkey(remote_key@)),
        },
{
    let local = bitcoin::secp256k1::PublicKey::from_slice(local_key).ok()?;
    let remote = bitcoin::secp256k1::PublicKey::from_slice(remote_key).ok()?;
    let local = lnp::channel::bolt::LocalPubkey { key: local, source: Default::default() };
    let script: wallet::scripts::PubkeyScript =
        lnp::channel::bolt::ScriptGenerators::ln_funding(amount, &local, remote);
    Some(amplify::Wrapper::into_inner(script).into_bytes())
}

/// The funding key of an `accept_channel` message, in compressed form.
pub uninterp spec fn accept_channel_key(message: legacy::AcceptChannel) -> Seq<u8>;

/// Picks the funding key from an `accept_channel` message and hands out its
/// 33 bytes in compressed form, with `PublicKey::serialize`.
///
/// Trusted: what `serialize` writes, `from_slice` takes.
#[verifier::external_body]
pub(crate) fn accept_channel_funding_pubkey(accept_channel: &legacy::AcceptChannel) -> (key: [u8; 33])
    ensures
        key@ == accept_channel_key(*accept_channel),
        valid_pubkey(key@),
{
    accept_channel.funding_pubkey.serialize()
}

/// The channel id of a `funding_signed` message.
pub uninterp spec fn funding_signed_channel_id(message: legacy::FundingSigned) -> Seq<u8>;

/// Picks the channel id from a `funding_signed` message and hands out its 32
/// bytes.
#[verifier::external_body]
pub(crate) fn funding_signed_id(funding_signed: &legacy::FundingSigned) -> (id: [u8; 32])
    ensures
        id@ == funding_signed_channel_id(*funding_signed),
{
    Wrapper::into_inner(Wrapper::into_inner(funding_signed.channel_id))
}

/// The channel id of a `funding_locked` message.
pub uninterp spec fn funding_locked_channel_id(message: legacy::FundingLocked) -> Seq<u8>;

/// Picks the channel id from a `funding_locked` message and hands out its 32
/// bytes.
#[verifier::external_body]
pub(crate) fn funding_locked_id(funding_locked: &legacy::FundingLocked) -> (id: [u8; 32])
    ensures
        id@ == funding_locked_channel_id(*funding_locked),
{
    Wrapper::into_inner(Wrapper::into_inner(funding_locked.channel_id))
}

/// The engine that `lnp::channel::Channel::with` makes of a temporary id, a
/// chain and the terms of a request.
pub uninterp spec fn made(temp_channel_id: Seq<u8>, chain_hash: Seq<u8>, request: OpenChannelWith) -> Engine;

/// What `Channel::compose_open_channel` makes of an engine and the terms of
/// a request: the `open_channel` message and the engine after the call, or
/// nothing where the engine refuses.
pub uninterp spec fn composed(engine: Engine, request: OpenChannelWith) -> Option<
    (legacy::OpenChannel, Engine),
>;

/// What `Extension::update_from_peer` makes of an engine and an
/// `accept_channel` message: the engine after the call, or nothing where the
/// engine refuses.
pub uninterp spec fn accepted(engine: Engine, message: legacy::AcceptChannel) -> Option<Engine>;

/// What `Channel::refund_tx` makes of an engine and the bytes of a funding
/// PSBT: the bytes of the refund PSBT and the engine after the call, or
/// nothing where the bytes do not decode or the engine refuses.
pub uninterp spec fn refunded(engine: Engine, funding_psbt: Seq<u8>) -> Option<(Seq<u8>, Engine)>;

/// The engine after `Extension::update_from_peer` with a `funding_signed`
/// message.
pub uninterp spec fn countersigned(engine: Engine, message: legacy::FundingSigned) -> Engine;

/// The engine after `Extension::update_from_peer` with a `funding_locked`
/// message.
pub uninterp spec fn readied(engine: Engine, message: legacy::FundingLocked) -> Engine;

/// What `Channel::channel_id` answers on an engine: its permanent channel
/// id, where it has one.
pub uninterp spec fn engine_id(engine: Engine) -> Option<Seq<u8>>;

/// The `funding_locked` message that `Channel::compose_funding_locked` makes
/// on an engine.
pub uninterp spec fn funding_locked_of(engine: Engine) -> legacy::FundingLocked;

/// What `Channel::funding_pubkey` answers on an engine, in compressed form.
pub uninterp spec fn engine_funding_key(engine: Engine) -> Seq<u8>;

/// Calls `lnp::channel::Channel::with`, which makes a channel of the given
/// temporary id, chain, policy, parameters and keys.  The ids and the common
/// parameters are copied into the engine's own types, the channel type
/// variant by variant.
///
/// For a channel type with anchor outputs the engine adds an extension that
/// is not implemented and panics as soon as a transaction is built; the
/// precondition, [`workable`], leaves that type out.
///
/// Trusted: the engine is a function of the arguments alone, and starts at
/// its initial lifecycle, at which it refuses no `compose_open_channel`.
#[verifier::external_body]
pub(crate) fn engine_with(
    temp_channel_id: &[u8; 32],
    chain_hash: &[u8; 32],
    request: &OpenChannelWith,
) -> (engine: Engine)
    requires
        workable(*request),
    ensures
        engine == made(temp_channel_id@, chain_hash@, *request),
        composed(engine, *request) is Some,
{
    let params = &request.common_params;
    let channel_type = match params.channel_type {
        ChannelType::Basic => legacy::ChannelType::Basic,
        ChannelType::StaticRemotekey => legacy::ChannelType::StaticRemotekey,
        ChannelType::AnchorOutputsStaticRemotekey => legacy::ChannelType::AnchorOutputsStaticRemotekey,
        ChannelType::AnchorsZeroFeeHtlcTxStaticRemotekey => legacy::ChannelType::AnchorsZeroFeeHtlcTxStaticRemotekey,
    };
    let (minimum_depth, feerate_per_kw) = (params.minimum_depth, params.feerate_per_kw);
    let common = CommonParams { minimum_depth, feerate_per_kw, announce_channel: params.announce_channel, channel_type };
    let (id, chain) = (Wrapper::from_inner(Slice32::from(*temp_channel_id)), Slice32::from(*chain_hash));
    let (policy, keys) = (request.policy.clone(), request.local_keys.clone());
    Engine { inner: lnp::channel::Channel::with(id, chain, policy, common, request.local_params, keys) }
}

/// Calls `Channel::compose_open_channel`, with the common parameters copied
/// into the engine's own type, the channel type variant by variant.
///
/// The engine computes the funder's balance as `funding_sat * 1000 -
/// push_msat` without a check, and later subtracts the commitment fee from
/// it without a check; the precondition, [`workable`], keeps both in range.
/// The engine refuses where the channel has left its initial lifecycle, and
/// else unwraps its temporary id, which an engine made by [`engine_with`]
/// holds until it has absorbed `funding_signed`.
///
/// Trusted: the outcome is a function of the engine and the request alone.
#[verifier::external_body]
pub(crate) fn engine_compose_open_channel(engine: &mut Engine, request: &OpenChannelWith) -> (res:
    Result<legacy::OpenChannel, lnp::channel::bolt::Error>)
    requires
        workable(*request),
    ensures
        match res {
            Ok(message) => composed(*old(engine), *request) == Some((message, *final(engine))),
            Err(_) => composed(*old(engine), *request) is None,
        },
{
    let params = &request.common_params;
    let channel_type = match params.channel_type {
        ChannelType::Basic => legacy::ChannelType::Basic,
        ChannelType::StaticRemotekey => legacy::ChannelType::StaticRemotekey,
        ChannelType::AnchorOutputsStaticRemotekey => legacy::ChannelType::AnchorOutputsStaticRemotekey,
        ChannelType::AnchorsZeroFeeHtlcTxStaticRemotekey => legacy::ChannelType::AnchorsZeroFeeHtlcTxStaticRemotekey,
    };
    let (minimum_depth, feerate_per_kw) = (params.minimum_depth, params.feerate_per_kw);
    let common = CommonParams { minimum_depth, feerate_per_kw, announce_channel: params.announce_channel, channel_type };
    let (policy, keys) = (request.policy.clone(), request.local_keys.clone());
    let (funding_sat, push_msat) = (request.funding_sat, request.push_msat);
    engine.inner.compose_open_channel(funding_sat, push_msat, policy, common, request.local_params, keys)
}

/// Calls `Extension::update_from_peer` with an `accept_channel` message: the
/// engine checks the peer's parameters against the policy and keeps its keys.
///
/// Trusted: the outcome is a function of the engine and the message alone.
#[verifier::external_body]
pub(crate) fn engine_accept_channel(
    engine: &mut Engine,
    accept_channel: &legacy::AcceptChannel,
) -> (res: Result<(), lnp::channel::bolt::Error>)
    ensures
        match res {
            Ok(_) => accepted(*old(engine), *accept_channel) == Some(*final(engine)),
            Err(_) => accepted(*old(engine), *accept_channel) is None,
        },
{
    let message = legacy::Messages::AcceptChannel(accept_channel.clone());
    lnp::Extension::update_from_peer(&mut engine.inner, &message)
}

/// Calls `Extension::update_from_peer` with a `funding_signed` message: the
/// engine keeps the peer's signature of the refund transaction, and takes
/// the channel id of the message for its permanent id.
///
/// Trusted: the engine and its extensions take this message without a check,
/// and the engine after it is a function of the engine and the message.
#[verifier::external_body]
pub(crate) fn engine_funding_signed(
    engine: &mut Engine,
    funding_signed: &legacy::FundingSigned,
) -> (res: Result<(), lnp::channel::bolt::Error>)
    ensures
        res is Ok,
        *final(engine) == countersigned(*old(engine), *funding_signed),
        engine_id(*final(engine)) == Some(funding_signed_channel_id(*funding_signed)),
{
    let message = legacy::Messages::FundingSigned(funding_signed.clone());
    lnp::Extension::update_from_peer(&mut engine.inner, &message)
}

/// Calls `Extension::update_from_peer` with a `funding_locked` message: the
/// engine keeps the peer's next per-commitment point.
///
/// Trusted: the engine and its extensions take this message without a check;
/// the engine after it is a function of the engine and the message, and has
/// the channel id that it had.
#[verifier::external_body]
pub(crate) fn engine_funding_locked(
    engine: &mut Engine,
    funding_locked: &legacy::FundingLocked,
) -> (res: Result<(), lnp::channel::bolt::Error>)
    ensures
        res is Ok,
        *final(engine) == readied(*old(engine), *funding_locked),
        engine_id(*final(engine)) == engine_id(*old(engine)),
{
    let message = legacy::Messages::FundingLocked(funding_locked.clone());
    lnp::Extension::update_from_peer(&mut engine.inner, &message)
}

/// Decodes the funding PSBT with `bitcoin::consensus::deserialize`, calls
/// `Channel::refund_tx(funding_psbt, true)` and encodes the PSBT that comes
/// back: the engine takes the funding outpoint from the funding PSBT and
/// builds the first commitment transaction, which refunds the funder.  The
/// two errors are told apart: bytes that the decoder refuses, which are the
/// bytes of which [`psbt_txid`] makes nothing, and a refusal of the engine.
///
/// A PSBT from the decoder has one map of fields for every output of its
/// transaction, which the engine relies on.  Where something is left to the
/// funder the engine subtracts the commitment fee from it without a check;
/// an engine is made and composed on [`workable`] terms only, which keeps
/// the difference in range.
///
/// Trusted: the outcome is a function of the engine and the bytes alone, and
/// the engine refuses a PSBT only where none of its outputs is marked as the
/// funding of a channel.
#[verifier::external_body]
pub(crate) fn engine_refund_tx(engine: &mut Engine, funding_psbt: &Vec<u8>) -> (res: Result<
    Vec<u8>,
    ChannelError,
>)
    ensures
        match res {
            Ok(refund) => refunded(*old(engine), funding_psbt@) == Some((refund@, *final(engine))),
            Err(e) => refunded(*old(engine), funding_psbt@) is None && (e is InvalidPsbt
                || e is Engine),
        },
        res matches Err(ChannelError::InvalidPsbt) ==> psbt_txid(funding_psbt@) is None,
        psbt_txid(funding_psbt@) is Some && psbt_funding_output(funding_psbt@) is Some ==> res
            is Ok,
{
    match bitcoin::consensus::deserialize(funding_psbt) {
        Ok(psbt) => match engine.inner.refund_tx(psbt, true) {
            Ok(refund) => Ok(bitcoin::consensus::serialize(&refund)),
            Err(e) => Err(ChannelError::Engine(e)),
        },
        Err(_) => Err(ChannelError::InvalidPsbt),
    }
}

/// Calls `Channel::funding_pubkey` and hands out the 33 bytes of the
/// compressed key, with `PublicKey::serialize`.
///
/// Trusted: what `serialize` writes, `from_slice` takes.
#[verifier::external_body]
pub(crate) fn engine_funding_pubkey(engine: &Engine) -> (key: [u8; 33])
    ensures
        key@ == engine_funding_key(*engine),
        valid_pubkey(key@),
{
    engine.inner.funding_pubkey().serialize()
}

/// Calls `Channel::compose_funding_locked`, which unwraps the permanent
/// channel id of the engine; the precondition asks that it has one.
///
/// Trusted: the message is a function of the engine alone and names its
/// permanent id, and the call leaves the engine as it is.
#[verifier::external_body]
pub(crate) fn engine_compose_funding_locked(engine: &mut Engine) -> (message: legacy::FundingLocked)
    requires
        engine_id(*old(engine)) is Some,
    ensures
        message == funding_locked_of(*old(engine)),
        funding_locked_channel_id(message) == engine_id(*old(engine))->0,
        *final(engine) == *old(engine),
{
    engine.inner.compose_funding_locked()
}

/// Calls `Rc::clone`, which makes another pointer to the same value.
#[verifier::external_body]
pub(crate) fn share<T>(value: &std::rc::Rc<T>) -> (copy: std::rc::Rc<T>)
    ensures
        copy == *value,
{
    std::rc::Rc::clone(value)
}

} // verus!
