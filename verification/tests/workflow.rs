use amplify::{Slice32, Wrapper};
use bitcoin::secp256k1::{PublicKey, Secp256k1, SecretKey};
use bitcoin::util::psbt::PartiallySignedTransaction;
use bitcoin::{Script, Transaction, TxIn, TxOut};
use channel_proposal::{
    complete_accepted, complete_funded, complete_locked, complete_signing, ActiveChannelId, BusMsg,
    Channel, ChannelError, ChannelParams, ChannelPropose, ChannelType, CtlMsg, Effect, Event,
    FundingCreated, Lifecycle, LnMsg, OpenChannelWith, Outbox, PartialSig, ProposalError, Psbt,
    PsbtInput, ServiceId,
};
use lnp::channel::bolt::{LocalKeyset, LocalPubkey, PeerParams, Policy};
use lnp::channel::PsbtLnpFunding;
use lnp::p2p::legacy::{AcceptChannel, ChannelId, FundingLocked, FundingSigned, TempChannelId};

const TEMP_ID: [u8; 32] = [7u8; 32];

fn key(n: u8) -> PublicKey {
    let mut secret = [0u8; 32];
    secret[31] = n;
    PublicKey::from_secret_key(&Secp256k1::new(), &SecretKey::from_slice(&secret).unwrap())
}

fn local(n: u8) -> LocalPubkey {
    LocalPubkey { key: key(n), source: Default::default() }
}

fn local_keys() -> LocalKeyset {
    LocalKeyset {
        funding_pubkey: local(1),
        revocation_basepoint: local(2),
        payment_basepoint: local(3),
        delayed_payment_basepoint: local(4),
        htlc_basepoint: local(5),
        first_per_commitment_point: local(6),
        shutdown_scriptpubkey: None,
        static_remotekey: false,
    }
}

fn params() -> ChannelParams {
    ChannelParams {
        minimum_depth: 3,
        feerate_per_kw: 256,
        announce_channel: true,
        channel_type: ChannelType::Basic,
    }
}

fn new_channel() -> Channel {
    Channel::new(TEMP_ID, [0u8; 32], Policy::default(), params(), PeerParams::default(), local_keys())
        .unwrap()
}

fn decode(raw: &[u8]) -> PartiallySignedTransaction {
    bitcoin::consensus::deserialize(raw).unwrap()
}

fn txid_of(psbt: &Psbt) -> [u8; 32] {
    bitcoin::hashes::Hash::into_inner(decode(&psbt.raw).unsigned_tx.txid())
}

fn request(funding_sat: u64, push_msat: u64) -> OpenChannelWith {
    OpenChannelWith {
        funding_sat,
        push_msat,
        policy: Policy::default(),
        common_params: params(),
        local_params: PeerParams::default(),
        local_keys: local_keys(),
    }
}

fn accept_channel() -> AcceptChannel {
    AcceptChannel {
        temporary_channel_id: TempChannelId::from_inner(Slice32::from_inner(TEMP_ID)),
        dust_limit_satoshis: 354,
        max_htlc_value_in_flight_msat: 1_000_000_000,
        channel_reserve_satoshis: 1000,
        htlc_minimum_msat: 1,
        minimum_depth: 3,
        to_self_delay: 6,
        max_accepted_htlcs: 483,
        funding_pubkey: key(11),
        revocation_basepoint: key(12),
        payment_point: key(13),
        delayed_payment_basepoint: key(14),
        htlc_basepoint: key(15),
        first_per_commitment_point: key(16),
        shutdown_scriptpubkey: None,
        channel_type: None,
        unknown_tlvs: Default::default(),
    }
}

fn peer(message: LnMsg) -> Event {
    Event { source: ServiceId::Peer, message: BusMsg::Ln(message) }
}

fn ctl(source: ServiceId, message: CtlMsg) -> Event {
    Event { source, message: BusMsg::Ctl(message) }
}

fn snapshot(raw: PartiallySignedTransaction) -> Psbt {
    let inputs = raw
        .inputs
        .iter()
        .map(|input| PsbtInput {
            partial_sigs: input
                .partial_sigs
                .iter()
                .map(|(key, sig)| PartialSig { pubkey: key.to_bytes(), signature: sig.to_vec() })
                .collect(),
        })
        .collect();
    Psbt { inputs, raw: bitcoin::consensus::serialize(&raw) }
}

fn funding_psbt(script_pubkey: &[u8], amount: u64) -> Psbt {
    let tx = Transaction {
        version: 2,
        lock_time: 0,
        input: vec![TxIn::default()],
        output: vec![
            TxOut { value: 5_000, script_pubkey: Script::new() },
            TxOut { value: amount, script_pubkey: Script::from(script_pubkey.to_vec()) },
        ],
    };
    let mut raw = PartiallySignedTransaction::from_unsigned_tx(tx).unwrap();
    raw.set_channel_funding_output(1).unwrap();
    snapshot(raw)
}

/// DER of the signature with r = 1 and s = 1, and its compact form.
fn der_one_one() -> (Vec<u8>, [u8; 64]) {
    let mut compact = [0u8; 64];
    compact[31] = 1;
    compact[63] = 1;
    (vec![0x30, 0x06, 0x02, 0x01, 0x01, 0x02, 0x01, 0x01], compact)
}

fn signed_psbt(refund: PartiallySignedTransaction, pubkey: Vec<u8>, signature: Vec<u8>) -> Psbt {
    let mut psbt = snapshot(refund);
    psbt.inputs[0].partial_sigs.push(PartialSig { pubkey, signature });
    psbt
}

fn funding_key() -> Vec<u8> {
    key(1).serialize().to_vec()
}

fn signature_with_flag() -> Vec<u8> {
    let (mut der, _) = der_one_one();
    der.push(0x01);
    der
}

/// Drives a fresh channel to the `Signing` stage and hands out the refund
/// PSBT that the signer is asked to sign, with the funding PSBT.
fn at_signing() -> (Channel, Outbox, PartiallySignedTransaction, [u8; 32]) {
    let mut channel = new_channel();
    let mut out = Outbox::new();
    let stage = ChannelPropose::with(&mut channel, &mut out, request(100_000, 0)).unwrap();
    let stage = stage.next(peer(LnMsg::AcceptChannel(accept_channel())), &mut channel, &mut out);
    assert_eq!(stage, Ok(Some(ChannelPropose::Accepted)));
    let script = match out.effects().last() {
        Some(Effect::Ctl(ServiceId::LnpBroker, CtlMsg::ConstructFunding(request))) => {
            request.script_pubkey.clone()
        }
        other => panic!("unexpected effect {:?}", other),
    };
    let funding = funding_psbt(&script, 100_000);
    let txid = txid_of(&funding);
    let stage = ChannelPropose::Accepted.next(
        ctl(ServiceId::LnpBroker, CtlMsg::FundingConstructed(funding)),
        &mut channel,
        &mut out,
    );
    assert_eq!(stage, Ok(Some(ChannelPropose::Signing)));
    let refund = match out.into_effects().pop() {
        Some(Effect::Ctl(ServiceId::Signer, CtlMsg::Sign(refund))) => decode(&refund),
        other => panic!("unexpected effect {:?}", other),
    };
    (channel, Outbox::new(), refund, txid)
}

/// Drives a fresh channel to the `Funded` stage.
fn at_funded() -> (Channel, [u8; 32]) {
    let (mut channel, mut out, refund, txid) = at_signing();
    let signed = signed_psbt(refund, funding_key(), signature_with_flag());
    let stage =
        ChannelPropose::Signing.next(ctl(ServiceId::Signer, CtlMsg::Signed(signed)), &mut channel, &mut out);
    assert_eq!(stage, Ok(Some(ChannelPropose::Funding)));
    let stage = ChannelPropose::Funding.next(
        peer(LnMsg::FundingSigned(funding_signed(txid))),
        &mut channel,
        &mut out,
    );
    assert_eq!(stage, Ok(Some(ChannelPropose::Signed)));
    let stage = ChannelPropose::Signed.next(
        ctl(ServiceId::LnpBroker, CtlMsg::FundingPublished),
        &mut channel,
        &mut out,
    );
    assert_eq!(stage, Ok(Some(ChannelPropose::Funded)));
    (channel, txid)
}

fn permanent_id(txid: [u8; 32]) -> [u8; 32] {
    let mut id = txid;
    id[31] ^= 1;
    id
}

fn funding_signed(txid: [u8; 32]) -> FundingSigned {
    let (_, compact) = der_one_one();
    FundingSigned {
        channel_id: ChannelId::from_inner(Slice32::from_inner(permanent_id(txid))),
        signature: bitcoin::secp256k1::ecdsa::Signature::from_compact(&compact).unwrap(),
    }
}

fn channel_ready(txid: [u8; 32]) -> FundingLocked {
    FundingLocked {
        channel_id: ChannelId::from_inner(Slice32::from_inner(permanent_id(txid))),
        next_per_commitment_point: key(17),
    }
}

#[test]
fn happy_path() {
    let mut channel = new_channel();
    let mut out = Outbox::new();
    assert_eq!(channel.funding_script_pubkey(), None);
    assert_eq!(channel.lifecycle(), Lifecycle::Initial);
    assert_eq!(channel.active_channel_id(), ActiveChannelId::Temporary(TEMP_ID));

    let stage = ChannelPropose::with(&mut channel, &mut out, request(100_000, 0)).unwrap();
    assert_eq!(stage, ChannelPropose::Proposed);
    assert_eq!(channel.lifecycle(), Lifecycle::Proposed);
    assert_eq!(channel.funding_amount(), 100_000);
    assert_eq!(channel.funding_pubkey(), key(1).serialize());
    assert_eq!(out.len(), 1);
    match &out.effects()[0] {
        Effect::Peer(LnMsg::OpenChannel(open_channel)) => {
            assert_eq!(open_channel.funding_satoshis, 100_000);
            assert_eq!(open_channel.push_msat, 0);
            assert_eq!(
                open_channel.temporary_channel_id,
                TempChannelId::from_inner(Slice32::from_inner(TEMP_ID))
            );
            assert_eq!(open_channel.funding_pubkey, key(1));
        }
        other => panic!("unexpected effect {:?}", other),
    }

    let stage = stage.next(peer(LnMsg::AcceptChannel(accept_channel())), &mut channel, &mut out);
    assert_eq!(stage, Ok(Some(ChannelPropose::Accepted)));
    assert_eq!(channel.lifecycle(), Lifecycle::Accepted);
    assert_eq!(out.len(), 2);
    let script = match &out.effects()[1] {
        Effect::Ctl(ServiceId::LnpBroker, CtlMsg::ConstructFunding(request)) => {
            assert_eq!(request.feerate_per_kw, None);
            assert_eq!(request.amount, 100_000);
            // pay-to-witness-script-hash: version 0 and a push of 32 bytes
            assert_eq!(request.script_pubkey.len(), 34);
            assert_eq!(&request.script_pubkey[..2], &[0x00, 0x20]);
            request.script_pubkey.clone()
        }
        other => panic!("unexpected effect {:?}", other),
    };

    assert_eq!(channel.funding_script_pubkey(), Some(script.clone()));
    let funding = funding_psbt(&script, 100_000);
    let txid = txid_of(&funding);
    let stage = ChannelPropose::Accepted.next(
        ctl(ServiceId::LnpBroker, CtlMsg::FundingConstructed(funding)),
        &mut channel,
        &mut out,
    );
    assert_eq!(stage, Ok(Some(ChannelPropose::Signing)));
    assert_eq!(channel.lifecycle(), Lifecycle::Signing);
    let funding = channel.funding().unwrap();
    assert_eq!(funding.txid, txid);
    assert_eq!(funding.output, 1);
    assert_eq!(channel.active_channel_id(), ActiveChannelId::Temporary(TEMP_ID));
    let mut effects = out.into_effects();
    assert_eq!(effects.len(), 3);
    let refund = match effects.pop() {
        Some(Effect::Ctl(ServiceId::Signer, CtlMsg::Sign(refund))) => decode(&refund),
        other => panic!("unexpected effect {:?}", other),
    };
    assert_eq!(refund.unsigned_tx.input.len(), 1);
    assert_eq!(
        bitcoin::hashes::Hash::into_inner(refund.unsigned_tx.input[0].previous_output.txid),
        txid
    );
    assert_eq!(refund.unsigned_tx.input[0].previous_output.vout, 1);

    let mut out = Outbox::new();
    let signed = signed_psbt(refund, funding_key(), signature_with_flag());
    let stage =
        ChannelPropose::Signing.next(ctl(ServiceId::Signer, CtlMsg::Signed(signed)), &mut channel, &mut out);
    assert_eq!(stage, Ok(Some(ChannelPropose::Funding)));
    assert_eq!(channel.lifecycle(), Lifecycle::Funding);
    let id = permanent_id(txid);
    assert_eq!(channel.active_channel_id(), ActiveChannelId::Static(id));
    let (_, compact) = der_one_one();
    assert_eq!(
        out.effects(),
        &vec![
            Effect::Identity(ServiceId::Channel(id)),
            Effect::Ctl(ServiceId::LnpBroker, CtlMsg::Hello),
            Effect::Peer(LnMsg::FundingCreated(FundingCreated {
                temporary_channel_id: TEMP_ID,
                funding_txid: txid,
                funding_output_index: 1,
                signature: compact,
            })),
        ]
    );

    let mut out = Outbox::new();
    let stage = ChannelPropose::Funding.next(
        peer(LnMsg::FundingSigned(funding_signed(txid))),
        &mut channel,
        &mut out,
    );
    assert_eq!(stage, Ok(Some(ChannelPropose::Signed)));
    assert_eq!(channel.lifecycle(), Lifecycle::Signed);
    assert_eq!(out.effects(), &vec![Effect::Ctl(ServiceId::LnpBroker, CtlMsg::PublishFunding)]);

    let mut out = Outbox::new();
    let stage = ChannelPropose::Signed.next(
        ctl(ServiceId::LnpBroker, CtlMsg::FundingPublished),
        &mut channel,
        &mut out,
    );
    assert_eq!(stage, Ok(Some(ChannelPropose::Funded)));
    assert_eq!(channel.lifecycle(), Lifecycle::Funded);
    assert_eq!(out.effects(), &vec![Effect::Ctl(ServiceId::Chain, CtlMsg::Track(txid))]);

    let mut out = Outbox::new();
    let stage =
        ChannelPropose::Funded.next(ctl(ServiceId::Chain, CtlMsg::FundingMined(6)), &mut channel, &mut out);
    assert_eq!(stage, Ok(Some(ChannelPropose::Locked)));
    assert_eq!(channel.lifecycle(), Lifecycle::Locked);
    assert_eq!(channel.state().funding_depth, 6);
    assert_eq!(out.len(), 1);
    match &out.effects()[0] {
        Effect::Peer(LnMsg::ChannelReady(message)) => {
            assert_eq!(message.channel_id, ChannelId::from_inner(Slice32::from_inner(id)));
        }
        other => panic!("unexpected effect {:?}", other),
    }

    let mut out = Outbox::new();
    let stage = ChannelPropose::Locked.next(
        peer(LnMsg::ChannelReady(channel_ready(txid))),
        &mut channel,
        &mut out,
    );
    assert_eq!(stage, Ok(None));
    assert_eq!(channel.lifecycle(), Lifecycle::Active);
    assert!(channel.remote_ready());
    assert_eq!(out.effects(), &vec![Effect::Ctl(ServiceId::LnpBroker, CtlMsg::Activate)]);
}

#[test]
fn funding_script_pays_to_the_hash_of_the_multisig() {
    let mut channel = new_channel();
    let mut out = Outbox::new();
    let stage = ChannelPropose::with(&mut channel, &mut out, request(100_000, 0)).unwrap();
    stage.next(peer(LnMsg::AcceptChannel(accept_channel())), &mut channel, &mut out).unwrap();
    let script = match out.effects().last() {
        Some(Effect::Ctl(ServiceId::LnpBroker, CtlMsg::ConstructFunding(request))) => {
            request.script_pubkey.clone()
        }
        other => panic!("unexpected effect {:?}", other),
    };
    // 2 <key> <key> 2 OP_CHECKMULTISIG, the keys in lexicographic order
    let mut keys = [key(1).serialize(), key(11).serialize()];
    keys.sort();
    let mut witness_script = vec![0x52, 0x21];
    witness_script.extend_from_slice(&keys[0]);
    witness_script.push(0x21);
    witness_script.extend_from_slice(&keys[1]);
    witness_script.extend_from_slice(&[0x52, 0xae]);
    let hash = <bitcoin::hashes::sha256::Hash as bitcoin::hashes::Hash>::hash(&witness_script);
    let mut expected = vec![0x00, 0x20];
    expected.extend_from_slice(&bitcoin::hashes::Hash::into_inner(hash));
    assert_eq!(script, expected);
    assert_eq!(script.len(), 34);
}

#[test]
fn misordered_peer() {
    let mut channel = new_channel();
    let mut out = Outbox::new();
    let stage = ChannelPropose::with(&mut channel, &mut out, request(100_000, 0)).unwrap();
    let before = channel.state();
    let res = stage.next(peer(LnMsg::FundingSigned(funding_signed([9u8; 32]))), &mut channel, &mut out);
    assert_eq!(
        res,
        Err(ProposalError::UnexpectedMessage(
            BusMsg::Ln(LnMsg::FundingSigned(funding_signed([9u8; 32]))),
            Lifecycle::Proposed,
            ServiceId::Peer,
        ))
    );
    assert_eq!(channel.state(), before);
    assert_eq!(channel.lifecycle(), Lifecycle::Proposed);
    assert_eq!(out.len(), 1);
    // the stage is what it was: the expected message is still taken
    let res = stage.next(peer(LnMsg::AcceptChannel(accept_channel())), &mut channel, &mut out);
    assert_eq!(res, Ok(Some(ChannelPropose::Accepted)));
}

#[test]
fn signer_returned_unsigned_psbt() {
    let (mut channel, mut out, refund, _) = at_signing();
    let before = channel.state();
    // a signature under another key does not count
    let signed = signed_psbt(refund, key(2).serialize().to_vec(), signature_with_flag());
    let res =
        ChannelPropose::Signing.next(ctl(ServiceId::Signer, CtlMsg::Signed(signed)), &mut channel, &mut out);
    assert_eq!(res, Err(ProposalError::FundingPsbtUnsigned(key(1).serialize())));
    assert_eq!(channel.state(), before);
    assert_eq!(out.len(), 0);
}

#[test]
fn signer_returned_psbt_without_signatures() {
    let (mut channel, mut out, refund, _) = at_signing();
    let res = ChannelPropose::Signing.next(
        ctl(ServiceId::Signer, CtlMsg::Signed(snapshot(refund))),
        &mut channel,
        &mut out,
    );
    assert_eq!(res, Err(ProposalError::FundingPsbtUnsigned(key(1).serialize())));
}

#[test]
fn signer_returned_psbt_without_inputs() {
    let (mut channel, mut out, refund, _) = at_signing();
    let mut signed = snapshot(refund);
    signed.inputs.clear();
    let res = complete_signing(ctl(ServiceId::Signer, CtlMsg::Signed(signed)), &mut channel, &mut out);
    assert_eq!(res, Err(ProposalError::FundingPsbtUnsigned(key(1).serialize())));
}

#[test]
fn uncompressed_key_is_another_key() {
    let (mut channel, mut out, refund, _) = at_signing();
    let signed = signed_psbt(refund, key(1).serialize_uncompressed().to_vec(), signature_with_flag());
    let res = complete_signing(ctl(ServiceId::Signer, CtlMsg::Signed(signed)), &mut channel, &mut out);
    assert_eq!(res, Err(ProposalError::FundingPsbtUnsigned(key(1).serialize())));
}

#[test]
fn malformed_signature() {
    let (mut channel, mut out, refund, _) = at_signing();
    let before = channel.state();
    let signed = signed_psbt(refund, funding_key(), vec![0xde, 0xad]);
    let res =
        ChannelPropose::Signing.next(ctl(ServiceId::Signer, CtlMsg::Signed(signed)), &mut channel, &mut out);
    assert!(matches!(res, Err(ProposalError::InvalidSig(_))));
    assert_eq!(channel.state(), before);
    assert_eq!(channel.lifecycle(), Lifecycle::Signing);
    assert_eq!(out.len(), 0);
}

#[test]
fn empty_signature_is_malformed() {
    let (mut channel, mut out, refund, _) = at_signing();
    let signed = signed_psbt(refund, funding_key(), vec![]);
    let res = complete_signing(ctl(ServiceId::Signer, CtlMsg::Signed(signed)), &mut channel, &mut out);
    assert!(matches!(res, Err(ProposalError::InvalidSig(_))));
}

#[test]
fn signature_without_sighash_flag_is_malformed() {
    // without the flag the last byte of the DER is stripped, and the rest does not parse
    let (mut channel, mut out, refund, _) = at_signing();
    let (der, _) = der_one_one();
    let signed = signed_psbt(refund, funding_key(), der);
    let res = complete_signing(ctl(ServiceId::Signer, CtlMsg::Signed(signed)), &mut channel, &mut out);
    assert!(matches!(res, Err(ProposalError::InvalidSig(_))));
}

#[test]
fn first_signature_under_the_key_is_taken() {
    let (mut channel, mut out, refund, txid) = at_signing();
    let mut signed = signed_psbt(refund, key(9).serialize().to_vec(), vec![0xde, 0xad]);
    signed.inputs[0]
        .partial_sigs
        .push(PartialSig { pubkey: funding_key(), signature: signature_with_flag() });
    let res = complete_signing(ctl(ServiceId::Signer, CtlMsg::Signed(signed)), &mut channel, &mut out);
    assert_eq!(res, Ok(ChannelPropose::Funding));
    let (_, compact) = der_one_one();
    match out.effects().last() {
        Some(Effect::Peer(LnMsg::FundingCreated(message))) => {
            assert_eq!(message.signature, compact);
            assert_eq!(message.funding_txid, txid);
        }
        other => panic!("unexpected effect {:?}", other),
    }
}

#[test]
fn identity_swap_failure() {
    let (mut channel, mut out, refund, _) = at_signing();
    let signed = signed_psbt(refund, funding_key(), signature_with_flag());
    let res =
        ChannelPropose::Signing.next(ctl(ServiceId::Signer, CtlMsg::Signed(signed)), &mut channel, &mut out);
    assert_eq!(res, Ok(Some(ChannelPropose::Funding)));
    // the bus rejects the registration, which is the first effect
    assert!(matches!(out.effects()[0], Effect::Identity(_)));
    assert_eq!(out.failure(0), Some(ProposalError::IdentitySwapFailed));
    // nothing before the refused effect is a message to the peer
    let delivered = &out.effects()[..0];
    assert!(delivered.iter().all(|effect| !matches!(effect, Effect::Peer(_))));
    // `funding_created` comes behind the registration and the greeting
    assert!(matches!(out.effects()[2], Effect::Peer(LnMsg::FundingCreated(_))));
}

#[test]
fn temporary_id_is_retired_at_funding() {
    let (mut channel, mut out, refund, txid) = at_signing();
    assert_eq!(channel.temp_channel_id(), Ok(TEMP_ID));
    assert_eq!(channel.active_channel_id().channel_id(), None);
    let signed = signed_psbt(refund, funding_key(), signature_with_flag());
    complete_signing(ctl(ServiceId::Signer, CtlMsg::Signed(signed)), &mut channel, &mut out).unwrap();
    assert_eq!(channel.temp_channel_id(), Err(ChannelError::NoTemporaryId));
    assert_eq!(channel.active_channel_id().channel_id(), Some(permanent_id(txid)));
    // the later steps keep the permanent id
    ChannelPropose::Funding
        .next(peer(LnMsg::FundingSigned(funding_signed(txid))), &mut channel, &mut out)
        .unwrap();
    ChannelPropose::Signed
        .next(ctl(ServiceId::LnpBroker, CtlMsg::FundingPublished), &mut channel, &mut out)
        .unwrap();
    assert_eq!(channel.active_channel_id(), ActiveChannelId::Static(permanent_id(txid)));
    // and a second signed PSBT does not bring the temporary id back
    let res = complete_signing(
        ctl(ServiceId::Signer, CtlMsg::Signed(funding_psbt(&[], 1))),
        &mut channel,
        &mut out,
    );
    assert_eq!(
        res,
        Err(ProposalError::Channel(ChannelError::LifecycleMismatch {
            current: Lifecycle::Funded,
            required: Lifecycle::Signing,
        }))
    );
    assert_eq!(channel.active_channel_id(), ActiveChannelId::Static(permanent_id(txid)));
}

#[test]
fn bus_send_failure() {
    let (mut channel, mut out, refund, _) = at_signing();
    let signed = signed_psbt(refund, funding_key(), signature_with_flag());
    let res = complete_signing(ctl(ServiceId::Signer, CtlMsg::Signed(signed)), &mut channel, &mut out);
    assert_eq!(res, Ok(ChannelPropose::Funding));
    assert_eq!(out.failure(1), Some(ProposalError::BusSend));
    assert_eq!(out.failure(2), Some(ProposalError::BusSend));
    assert_eq!(out.failure(3), None);
    assert_eq!(out.failure(usize::MAX), None);
}

#[test]
fn terminal_termination() {
    let (mut channel, txid) = at_funded();
    let mut out = Outbox::new();
    let stage =
        ChannelPropose::Funded.next(ctl(ServiceId::Chain, CtlMsg::FundingMined(3)), &mut channel, &mut out);
    assert_eq!(stage, Ok(Some(ChannelPropose::Locked)));
    let stage = ChannelPropose::Locked.next(
        peer(LnMsg::ChannelReady(channel_ready(txid))),
        &mut channel,
        &mut out,
    );
    assert_eq!(stage, Ok(None));
    // the workflow is over: the channel is active, and no stage takes it on
    let before = channel.state();
    let res = ChannelPropose::Locked.next(
        peer(LnMsg::ChannelReady(channel_ready(txid))),
        &mut channel,
        &mut out,
    );
    assert_eq!(
        res,
        Err(ProposalError::Channel(ChannelError::LifecycleMismatch {
            current: Lifecycle::Active,
            required: Lifecycle::Locked,
        }))
    );
    assert_eq!(channel.state(), before);
    assert_eq!(complete_locked(ctl(ServiceId::Chain, CtlMsg::Timeout), &mut channel, &mut out).is_err(), true);
}

#[test]
fn funding_below_minimum_depth_waits() {
    let (mut channel, _) = at_funded();
    let mut out = Outbox::new();
    let stage =
        ChannelPropose::Funded.next(ctl(ServiceId::Chain, CtlMsg::FundingMined(2)), &mut channel, &mut out);
    assert_eq!(stage, Ok(Some(ChannelPropose::Funded)));
    assert_eq!(channel.lifecycle(), Lifecycle::Funded);
    assert_eq!(channel.state().funding_depth, 2);
    assert_eq!(out.len(), 0);
    let stage = complete_funded(ctl(ServiceId::Chain, CtlMsg::FundingMined(3)), &mut channel, &mut out);
    assert_eq!(stage, Ok(ChannelPropose::Locked));
    assert_eq!(channel.state().funding_depth, 3);
    assert_eq!(out.len(), 1);
}

#[test]
fn funded_answers_locked_where_the_remote_peer_was_first() {
    let (mut channel, txid) = at_funded();
    let mut out = Outbox::new();
    complete_funded(peer(LnMsg::ChannelReady(channel_ready(txid))), &mut channel, &mut out).unwrap();
    let res = complete_funded(ctl(ServiceId::Chain, CtlMsg::FundingMined(6)), &mut channel, &mut out);
    assert_eq!(res, Ok(ChannelPropose::Locked));
    assert_eq!(channel.lifecycle(), Lifecycle::Active);
}

#[test]
fn remote_peer_ready_first() {
    let (mut channel, txid) = at_funded();
    let mut out = Outbox::new();
    let stage = ChannelPropose::Funded.next(
        peer(LnMsg::ChannelReady(channel_ready(txid))),
        &mut channel,
        &mut out,
    );
    assert_eq!(stage, Ok(Some(ChannelPropose::Funded)));
    assert!(channel.remote_ready());
    assert_eq!(channel.lifecycle(), Lifecycle::Funded);
    assert_eq!(out.len(), 0);
    let stage =
        ChannelPropose::Funded.next(ctl(ServiceId::Chain, CtlMsg::FundingMined(6)), &mut channel, &mut out);
    assert_eq!(stage, Ok(None));
    assert_eq!(channel.lifecycle(), Lifecycle::Active);
    assert_eq!(out.len(), 2);
    assert_eq!(out.effects()[0], Effect::Ctl(ServiceId::LnpBroker, CtlMsg::Activate));
    assert!(matches!(out.effects()[1], Effect::Peer(LnMsg::ChannelReady(_))));
}

#[test]
fn unexpected_message_at_every_stage() {
    let stages = [
        ChannelPropose::Proposed,
        ChannelPropose::Accepted,
        ChannelPropose::Signing,
        ChannelPropose::Funding,
        ChannelPropose::Signed,
        ChannelPropose::Funded,
        ChannelPropose::Locked,
    ];
    for stage in stages {
        let mut channel = new_channel();
        let mut out = Outbox::new();
        let before = channel.state();
        let res = stage.next(ctl(ServiceId::Client(5), CtlMsg::Timeout), &mut channel, &mut out);
        assert_eq!(
            res,
            Err(ProposalError::UnexpectedMessage(
                BusMsg::Ctl(CtlMsg::Timeout),
                stage.lifecycle(),
                ServiceId::Client(5),
            ))
        );
        assert_eq!(channel.state(), before);
        assert_eq!(out.len(), 0);
        assert!(!stage.expects(&BusMsg::Ctl(CtlMsg::Timeout)));
    }
    assert!(ChannelPropose::Signed.expects(&BusMsg::Ctl(CtlMsg::FundingPublished)));
    assert!(ChannelPropose::Funded.expects(&BusMsg::Ctl(CtlMsg::FundingMined(0))));
    assert!(!ChannelPropose::Locked.expects(&BusMsg::Ctl(CtlMsg::FundingMined(0))));
    assert!(ChannelPropose::Proposed.expects(&BusMsg::Ln(LnMsg::AcceptChannel(accept_channel()))));
    assert!(!ChannelPropose::Accepted.expects(&BusMsg::Ln(LnMsg::AcceptChannel(accept_channel()))));
}

#[test]
fn expected_message_at_wrong_lifecycle() {
    let mut channel = new_channel();
    let mut out = Outbox::new();
    let res = ChannelPropose::Signed.next(
        ctl(ServiceId::LnpBroker, CtlMsg::FundingPublished),
        &mut channel,
        &mut out,
    );
    assert_eq!(
        res,
        Err(ProposalError::Channel(ChannelError::LifecycleMismatch {
            current: Lifecycle::Initial,
            required: Lifecycle::Signed,
        }))
    );
    assert_eq!(out.len(), 0);
}

#[test]
fn proposal_with_invalid_funding() {
    // the push exceeds the funding
    let mut channel = new_channel();
    let mut out = Outbox::new();
    let res = ChannelPropose::with(&mut channel, &mut out, request(100_000, 100_000_001));
    assert_eq!(
        res,
        Err(ProposalError::Channel(ChannelError::InvalidFunding {
            funding_sat: 100_000,
            push_msat: 100_000_001,
        }))
    );
    assert_eq!(channel.lifecycle(), Lifecycle::Initial);
    assert_eq!(out.len(), 0);
    // the funding does not fit the range of millisatoshi
    let res = ChannelPropose::with(&mut channel, &mut out, request(u64::MAX / 1000 + 1, 0));
    assert!(matches!(res, Err(ProposalError::Channel(ChannelError::InvalidFunding { .. }))));
    // the fee is 724 * 256 / 1000 = 185 satoshi: 184 do not pay it, 185 do
    let res = ChannelPropose::with(&mut channel, &mut out, request(184, 0));
    assert!(matches!(res, Err(ProposalError::Channel(ChannelError::InvalidFunding { .. }))));
    let res = ChannelPropose::with(&mut channel, &mut out, request(185, 0));
    assert_eq!(res, Ok(ChannelPropose::Proposed));
    assert_eq!(channel.state().minimum_depth, 3);
}

#[test]
fn proposal_of_a_proposed_channel() {
    let mut channel = new_channel();
    let mut out = Outbox::new();
    ChannelPropose::with(&mut channel, &mut out, request(100_000, 0)).unwrap();
    let res = ChannelPropose::with(&mut channel, &mut out, request(100_000, 0));
    assert_eq!(
        res,
        Err(ProposalError::Channel(ChannelError::LifecycleMismatch {
            current: Lifecycle::Proposed,
            required: Lifecycle::Initial,
        }))
    );
    assert_eq!(out.len(), 1);
}

#[test]
fn engine_rejects_accept_channel() {
    let mut channel = new_channel();
    let mut out = Outbox::new();
    let stage = ChannelPropose::with(&mut channel, &mut out, request(100_000, 0)).unwrap();
    let before = channel.state();
    let mut accept = accept_channel();
    // deeper than the policy admits
    accept.minimum_depth = 1000;
    let res = stage.next(peer(LnMsg::AcceptChannel(accept)), &mut channel, &mut out);
    assert!(matches!(res, Err(ProposalError::Channel(ChannelError::Engine(_)))));
    assert_eq!(channel.state(), before);
    assert_eq!(out.len(), 1);
}

#[test]
fn psbt_without_funding_output_is_refused() {
    let mut channel = new_channel();
    let mut out = Outbox::new();
    let stage = ChannelPropose::with(&mut channel, &mut out, request(100_000, 0)).unwrap();
    stage.next(peer(LnMsg::AcceptChannel(accept_channel())), &mut channel, &mut out).unwrap();
    let before = channel.state();
    let tx = Transaction {
        version: 2,
        lock_time: 0,
        input: vec![TxIn::default()],
        output: vec![TxOut { value: 100_000, script_pubkey: Script::new() }],
    };
    let unmarked = snapshot(PartiallySignedTransaction::from_unsigned_tx(tx).unwrap());
    let res = ChannelPropose::Accepted.next(
        ctl(ServiceId::LnpBroker, CtlMsg::FundingConstructed(unmarked)),
        &mut channel,
        &mut out,
    );
    assert_eq!(res, Err(ProposalError::Channel(ChannelError::NoFundingOutput)));
    assert_eq!(channel.state(), before);
    assert_eq!(channel.funding(), None);
    assert_eq!(out.len(), 2);
}

#[test]
fn bytes_that_are_no_psbt_are_refused() {
    let mut channel = new_channel();
    let mut out = Outbox::new();
    let stage = ChannelPropose::with(&mut channel, &mut out, request(100_000, 0)).unwrap();
    stage.next(peer(LnMsg::AcceptChannel(accept_channel())), &mut channel, &mut out).unwrap();
    let before = channel.state();
    for raw in [vec![], vec![0x70, 0x73, 0x62, 0x74, 0xff], vec![0xde, 0xad, 0xbe, 0xef]] {
        let garbage = Psbt { inputs: vec![], raw };
        let res = complete_accepted(
            ctl(ServiceId::LnpBroker, CtlMsg::FundingConstructed(garbage)),
            &mut channel,
            &mut out,
        );
        assert_eq!(res, Err(ProposalError::Channel(ChannelError::InvalidPsbt)));
        assert_eq!(channel.state(), before);
        assert_eq!(out.len(), 2);
    }
    // a PSBT with trailing bytes is none either
    let script = channel.funding_script_pubkey().unwrap();
    let mut padded = funding_psbt(&script, 100_000);
    padded.raw.push(0);
    let res = complete_accepted(
        ctl(ServiceId::LnpBroker, CtlMsg::FundingConstructed(padded)),
        &mut channel,
        &mut out,
    );
    assert_eq!(res, Err(ProposalError::Channel(ChannelError::InvalidPsbt)));
}

#[test]
fn funding_output_is_the_marked_one() {
    let mut channel = new_channel();
    let mut out = Outbox::new();
    let stage = ChannelPropose::with(&mut channel, &mut out, request(100_000, 0)).unwrap();
    stage.next(peer(LnMsg::AcceptChannel(accept_channel())), &mut channel, &mut out).unwrap();
    let script = channel.funding_script_pubkey().unwrap();
    let tx = Transaction {
        version: 2,
        lock_time: 0,
        input: vec![TxIn::default()],
        output: vec![
            TxOut { value: 1, script_pubkey: Script::new() },
            TxOut { value: 2, script_pubkey: Script::new() },
            TxOut { value: 100_000, script_pubkey: Script::from(script) },
            TxOut { value: 3, script_pubkey: Script::new() },
        ],
    };
    let mut raw = PartiallySignedTransaction::from_unsigned_tx(tx).unwrap();
    raw.set_channel_funding_output(2).unwrap();
    let funding = snapshot(raw);
    let txid = txid_of(&funding);
    complete_accepted(
        ctl(ServiceId::LnpBroker, CtlMsg::FundingConstructed(funding)),
        &mut channel,
        &mut out,
    )
    .unwrap();
    let outpoint = channel.funding().unwrap();
    assert_eq!(outpoint.txid, txid);
    assert_eq!(outpoint.output, 2);
}

#[test]
fn anchor_outputs_are_refused() {
    let anchored = ChannelParams { channel_type: ChannelType::AnchorOutputsStaticRemotekey, ..params() };
    let res =
        Channel::new(TEMP_ID, [0u8; 32], Policy::default(), anchored, PeerParams::default(), local_keys());
    assert!(matches!(res, Err(ChannelError::UnsupportedChannelType)));
    let mut channel = new_channel();
    let mut out = Outbox::new();
    let mut proposal = request(100_000, 0);
    proposal.common_params = anchored;
    let res = ChannelPropose::with(&mut channel, &mut out, proposal);
    assert_eq!(res, Err(ProposalError::Channel(ChannelError::UnsupportedChannelType)));
    assert_eq!(channel.lifecycle(), Lifecycle::Initial);
    assert_eq!(out.len(), 0);
    assert!(ChannelType::AnchorOutputsStaticRemotekey.has_anchor_outputs());
    assert!(!ChannelType::Basic.has_anchor_outputs());
    assert!(!ChannelType::StaticRemotekey.has_anchor_outputs());
    assert!(!ChannelType::AnchorsZeroFeeHtlcTxStaticRemotekey.has_anchor_outputs());
}

#[test]
fn other_channel_types_run_through_the_refund() {
    for channel_type in [ChannelType::StaticRemotekey, ChannelType::AnchorsZeroFeeHtlcTxStaticRemotekey] {
        let common = ChannelParams { channel_type, ..params() };
        let mut channel =
            Channel::new(TEMP_ID, [0u8; 32], Policy::default(), common, PeerParams::default(), local_keys())
                .unwrap();
        let mut out = Outbox::new();
        let mut proposal = request(100_000, 0);
        proposal.common_params = common;
        let stage = ChannelPropose::with(&mut channel, &mut out, proposal).unwrap();
        stage.next(peer(LnMsg::AcceptChannel(accept_channel())), &mut channel, &mut out).unwrap();
        let script = channel.funding_script_pubkey().unwrap();
        let res = complete_accepted(
            ctl(ServiceId::LnpBroker, CtlMsg::FundingConstructed(funding_psbt(&script, 100_000))),
            &mut channel,
            &mut out,
        );
        assert_eq!(res, Ok(ChannelPropose::Signing));
    }
}

#[test]
fn failed_delivery_leaves_the_channel_as_it_was() {
    let mut channel = new_channel();
    // the proposal is worked out, and `open_channel` does not leave
    let pending = ChannelPropose::propose(&channel, request(100_000, 0)).unwrap();
    assert_eq!(pending.effects().len(), 1);
    assert_eq!(pending.next_stage(), Some(ChannelPropose::Proposed));
    assert_eq!(pending.settle(&mut channel, 0), Err(ProposalError::BusSend));
    assert_eq!(channel.lifecycle(), Lifecycle::Initial);
    assert_eq!(channel.funding_amount(), 0);
    // it is worked out again, and leaves
    let pending = ChannelPropose::propose(&channel, request(100_000, 0)).unwrap();
    assert_eq!(channel.lifecycle(), Lifecycle::Initial);
    assert_eq!(pending.settle(&mut channel, 1), Ok(Some(ChannelPropose::Proposed)));
    assert_eq!(channel.lifecycle(), Lifecycle::Proposed);

    // the peer accepts, and the request for the funding does not leave
    let before = channel.state();
    let pending = ChannelPropose::Proposed
        .attempt(peer(LnMsg::AcceptChannel(accept_channel())), &channel)
        .unwrap();
    assert_eq!(channel.state(), before);
    assert!(matches!(pending.effects()[0], Effect::Ctl(ServiceId::LnpBroker, CtlMsg::ConstructFunding(_))));
    assert_eq!(pending.settle(&mut channel, 0), Err(ProposalError::BusSend));
    assert_eq!(channel.state(), before);
    assert_eq!(channel.funding_script_pubkey(), None);
    // the stage is what it was, and the same message is taken again
    let pending = ChannelPropose::Proposed
        .attempt(peer(LnMsg::AcceptChannel(accept_channel())), &channel)
        .unwrap();
    assert_eq!(pending.settle(&mut channel, 1), Ok(Some(ChannelPropose::Accepted)));
    assert_eq!(channel.lifecycle(), Lifecycle::Accepted);
    assert!(channel.funding_script_pubkey().is_some());
}

#[test]
fn refused_identity_swap_leaves_the_temporary_id() {
    let (mut channel, _, refund, _) = at_signing();
    let before = channel.state();
    let signed = signed_psbt(refund, funding_key(), signature_with_flag());
    let pending =
        ChannelPropose::Signing.attempt(ctl(ServiceId::Signer, CtlMsg::Signed(signed)), &channel).unwrap();
    assert_eq!(pending.effects().len(), 3);
    assert!(matches!(pending.effects()[0], Effect::Identity(_)));
    // the bus refuses the registration: nothing was delivered
    assert_eq!(pending.settle(&mut channel, 0), Err(ProposalError::IdentitySwapFailed));
    assert_eq!(channel.state(), before);
    assert_eq!(channel.active_channel_id(), ActiveChannelId::Temporary(TEMP_ID));
    assert_eq!(channel.lifecycle(), Lifecycle::Signing);
}

#[test]
fn funding_signed_for_another_channel_is_refused() {
    let (mut channel, mut out, refund, txid) = at_signing();
    let signed = signed_psbt(refund, funding_key(), signature_with_flag());
    complete_signing(ctl(ServiceId::Signer, CtlMsg::Signed(signed)), &mut channel, &mut out).unwrap();
    let before = channel.state();
    let mut other = txid;
    other[0] ^= 0xff;
    let res = ChannelPropose::Funding.next(
        peer(LnMsg::FundingSigned(funding_signed(other))),
        &mut channel,
        &mut out,
    );
    assert_eq!(res, Err(ProposalError::Channel(ChannelError::ChannelIdMismatch)));
    assert_eq!(channel.state(), before);
    assert_eq!(out.len(), 3);
    // the id of the funding transaction alone is not the id of the channel
    let mut plain = funding_signed(txid);
    plain.channel_id = ChannelId::from_inner(Slice32::from_inner(txid));
    let res =
        ChannelPropose::Funding.next(peer(LnMsg::FundingSigned(plain)), &mut channel, &mut out);
    assert_eq!(res, Err(ProposalError::Channel(ChannelError::ChannelIdMismatch)));
    // the message of this channel is taken
    let res = ChannelPropose::Funding.next(
        peer(LnMsg::FundingSigned(funding_signed(txid))),
        &mut channel,
        &mut out,
    );
    assert_eq!(res, Ok(Some(ChannelPropose::Signed)));
}

#[test]
fn channel_ready_for_another_channel_is_refused() {
    let (mut channel, txid) = at_funded();
    let mut out = Outbox::new();
    let before = channel.state();
    let mut other = txid;
    other[5] ^= 1;
    let res = complete_funded(peer(LnMsg::ChannelReady(channel_ready(other))), &mut channel, &mut out);
    assert_eq!(res, Err(ProposalError::Channel(ChannelError::ChannelIdMismatch)));
    assert_eq!(channel.state(), before);
    assert!(!channel.remote_ready());
    complete_funded(ctl(ServiceId::Chain, CtlMsg::FundingMined(3)), &mut channel, &mut out).unwrap();
    let res = complete_locked(peer(LnMsg::ChannelReady(channel_ready(other))), &mut channel, &mut out);
    assert_eq!(res, Err(ProposalError::Channel(ChannelError::ChannelIdMismatch)));
    assert_eq!(channel.lifecycle(), Lifecycle::Locked);
    let res = complete_locked(peer(LnMsg::ChannelReady(channel_ready(txid))), &mut channel, &mut out);
    assert_eq!(res, Ok(()));
    assert_eq!(channel.lifecycle(), Lifecycle::Active);
}

#[test]
fn attempt_of_an_unexpected_message() {
    let channel = new_channel();
    let res = ChannelPropose::Funding.attempt(ctl(ServiceId::Chain, CtlMsg::FundingMined(1)), &channel);
    assert!(matches!(
        res,
        Err(ProposalError::UnexpectedMessage(
            BusMsg::Ctl(CtlMsg::FundingMined(1)),
            Lifecycle::Funding,
            ServiceId::Chain
        ))
    ));
}

#[test]
fn peer_messages_of_a_run() {
    let mut channel = new_channel();
    let mut out = Outbox::new();
    let stage = ChannelPropose::with(&mut channel, &mut out, request(100_000, 20_000)).unwrap();
    stage.next(peer(LnMsg::AcceptChannel(accept_channel())), &mut channel, &mut out).unwrap();
    let script = match out.effects().last() {
        Some(Effect::Ctl(_, CtlMsg::ConstructFunding(request))) => request.script_pubkey.clone(),
        other => panic!("unexpected effect {:?}", other),
    };
    let funding = funding_psbt(&script, 100_000);
    let txid = txid_of(&funding);
    ChannelPropose::Accepted
        .next(ctl(ServiceId::LnpBroker, CtlMsg::FundingConstructed(funding)), &mut channel, &mut out)
        .unwrap();
    let mut effects = out.into_effects();
    let refund = match effects.pop() {
        Some(Effect::Ctl(ServiceId::Signer, CtlMsg::Sign(refund))) => decode(&refund),
        other => panic!("unexpected effect {:?}", other),
    };
    let mut out = Outbox::new();
    let signed = signed_psbt(refund, funding_key(), signature_with_flag());
    ChannelPropose::Signing
        .next(ctl(ServiceId::Signer, CtlMsg::Signed(signed)), &mut channel, &mut out)
        .unwrap();
    ChannelPropose::Funding
        .next(peer(LnMsg::FundingSigned(funding_signed(txid))), &mut channel, &mut out)
        .unwrap();
    ChannelPropose::Signed
        .next(ctl(ServiceId::LnpBroker, CtlMsg::FundingPublished), &mut channel, &mut out)
        .unwrap();
    ChannelPropose::Funded
        .next(ctl(ServiceId::Chain, CtlMsg::FundingMined(1)), &mut channel, &mut out)
        .unwrap();
    ChannelPropose::Funded
        .next(ctl(ServiceId::Chain, CtlMsg::FundingMined(4)), &mut channel, &mut out)
        .unwrap();
    let end = ChannelPropose::Locked
        .next(peer(LnMsg::ChannelReady(channel_ready(txid))), &mut channel, &mut out)
        .unwrap();
    assert_eq!(end, None);
    effects.extend(out.into_effects());
    let kinds: Vec<&str> = effects
        .iter()
        .filter_map(|effect| match effect {
            Effect::Peer(LnMsg::OpenChannel(_)) => Some("open_channel"),
            Effect::Peer(LnMsg::AcceptChannel(_)) => Some("accept_channel"),
            Effect::Peer(LnMsg::FundingCreated(_)) => Some("funding_created"),
            Effect::Peer(LnMsg::FundingSigned(_)) => Some("funding_signed"),
            Effect::Peer(LnMsg::ChannelReady(_)) => Some("channel_ready"),
            _ => None,
        })
        .collect();
    assert_eq!(kinds, vec!["open_channel", "funding_created", "channel_ready"]);
}
