use channel_proposal::ids::permanent_channel_id;
use channel_proposal::signature::{find_partial_sig, parse_partial_sig};
use channel_proposal::channel::check_funding;
use channel_proposal::{ActiveChannelId, ChannelPropose, Lifecycle, PartialSig, ProposalError};

fn id() -> [u8; 32] {
    let mut id = [0u8; 32];
    for (i, byte) in id.iter_mut().enumerate() {
        *byte = (i as u8) * 8 + 1;
    }
    id
}

#[test]
fn info_message_of_every_stage() {
    let temp = ActiveChannelId::Temporary(id());
    // bytes 01 09 11 19 ... and e1 e9 f1 f9
    assert_eq!(
        ChannelPropose::Proposed.info_message(temp),
        "Proposing channel to remote peer (using temp id 01091119..e1e9f1f9)"
    );
    assert_eq!(
        ChannelPropose::Accepted.info_message(temp),
        "Remote peer accepted channel with temp id 01091119..e1e9f1f9. Constructing refund transaction."
    );
    assert_eq!(
        ChannelPropose::Signing.info_message(temp),
        "Signing refund transaction locally for channel 01091119..e1e9f1f9"
    );
    let permanent = ActiveChannelId::Static([0xab; 32]);
    assert_eq!(
        ChannelPropose::Funding.info_message(permanent),
        "Awaiting for the remote peer to sign refund transaction for channel abababab..abababab"
    );
    assert_eq!(
        ChannelPropose::Signed.info_message(permanent),
        "Signing funding transaction for channel abababab..abababab"
    );
    assert_eq!(
        ChannelPropose::Funded.info_message(permanent),
        "Publishing fully signed funding transaction for channel abababab..abababab"
    );
    assert_eq!(
        ChannelPropose::Locked.info_message(ActiveChannelId::Static([0x0f; 32])),
        "Activating channel 0f0f0f0f..0f0f0f0f"
    );
}

#[test]
fn lifecycle_of_every_stage() {
    assert_eq!(ChannelPropose::Proposed.lifecycle(), Lifecycle::Proposed);
    assert_eq!(ChannelPropose::Accepted.lifecycle(), Lifecycle::Accepted);
    assert_eq!(ChannelPropose::Signing.lifecycle(), Lifecycle::Signing);
    assert_eq!(ChannelPropose::Funding.lifecycle(), Lifecycle::Funding);
    assert_eq!(ChannelPropose::Signed.lifecycle(), Lifecycle::Signed);
    assert_eq!(ChannelPropose::Funded.lifecycle(), Lifecycle::Funded);
    assert_eq!(ChannelPropose::Locked.lifecycle(), Lifecycle::Locked);
}

#[test]
fn names_of_stages() {
    assert_eq!(ChannelPropose::Proposed.name(), "PROPOSED");
    assert_eq!(ChannelPropose::Accepted.name(), "ACCEPTED");
    assert_eq!(ChannelPropose::Signing.name(), "SIGNING");
    assert_eq!(ChannelPropose::Funding.name(), "FUNDING");
    assert_eq!(ChannelPropose::Signed.name(), "SIGNED");
    assert_eq!(ChannelPropose::Funded.name(), "FUNDED");
    assert_eq!(ChannelPropose::Locked.name(), "LOCKED");
    assert_eq!(Lifecycle::Initial.name(), "INIT");
    assert_eq!(Lifecycle::Active.name(), "ACTIVE");
}

#[test]
fn stages_are_ordered() {
    assert!(ChannelPropose::Proposed < ChannelPropose::Accepted);
    assert!(ChannelPropose::Accepted < ChannelPropose::Signing);
    assert!(ChannelPropose::Signing < ChannelPropose::Funding);
    assert!(ChannelPropose::Funding < ChannelPropose::Signed);
    assert!(ChannelPropose::Signed < ChannelPropose::Funded);
    assert!(ChannelPropose::Funded < ChannelPropose::Locked);
}

#[test]
fn permanent_id_of_an_outpoint() {
    let txid = [0x11u8; 32];
    // output 0 leaves the transaction id as it is
    assert_eq!(permanent_channel_id(&txid, 0), txid);
    // the index is XOR-ed in big-endian order into the last two bytes
    let mut expected = txid;
    expected[30] = 0x11 ^ 0x01;
    expected[31] = 0x11 ^ 0x02;
    assert_eq!(permanent_channel_id(&txid, 0x0102), expected);
    let mut expected = txid;
    expected[30] = 0xee;
    expected[31] = 0xee;
    assert_eq!(permanent_channel_id(&txid, 0xffff), expected);
}

#[test]
fn active_channel_id_kinds() {
    let temp = ActiveChannelId::Temporary([1u8; 32]);
    let permanent = ActiveChannelId::Static([2u8; 32]);
    assert_eq!(temp.temp_channel_id(), Some([1u8; 32]));
    assert_eq!(temp.channel_id(), None);
    assert_eq!(permanent.temp_channel_id(), None);
    assert_eq!(permanent.channel_id(), Some([2u8; 32]));
    assert_eq!(temp.as_bytes(), [1u8; 32]);
    assert_eq!(permanent.as_bytes(), [2u8; 32]);
}

#[test]
fn partial_signature_lookup() {
    let sigs = vec![
        PartialSig { pubkey: vec![2u8; 33], signature: vec![1] },
        PartialSig { pubkey: vec![3u8; 33], signature: vec![2] },
        PartialSig { pubkey: vec![3u8; 33], signature: vec![3] },
        PartialSig { pubkey: vec![4u8; 32], signature: vec![4] },
    ];
    assert_eq!(find_partial_sig(&sigs, &[2u8; 33]), Some(&vec![1]));
    assert_eq!(find_partial_sig(&sigs, &[3u8; 33]), Some(&vec![2]));
    assert_eq!(find_partial_sig(&sigs, &[4u8; 33]), None);
    assert_eq!(find_partial_sig(&vec![], &[2u8; 33]), None);
}

#[test]
fn partial_signature_parsing() {
    // r = 0x0102, s = 0x7f, then the sighash flag
    let stored = vec![0x30, 0x07, 0x02, 0x02, 0x01, 0x02, 0x02, 0x01, 0x7f, 0x01];
    let mut compact = [0u8; 64];
    compact[30] = 0x01;
    compact[31] = 0x02;
    compact[63] = 0x7f;
    assert_eq!(parse_partial_sig(&stored), Ok(compact));
    // the flag is stripped whatever it is
    let mut other_flag = stored.clone();
    other_flag[9] = 0x83;
    assert_eq!(parse_partial_sig(&other_flag), Ok(compact));
    assert!(matches!(parse_partial_sig(&vec![]), Err(ProposalError::InvalidSig(_))));
    assert!(matches!(parse_partial_sig(&vec![0x01]), Err(ProposalError::InvalidSig(_))));
    assert!(matches!(parse_partial_sig(&vec![0xde, 0xad]), Err(ProposalError::InvalidSig(_))));
}

#[test]
fn funding_amounts() {
    assert!(check_funding(100_000, 0, 256));
    assert!(check_funding(100_000, 100_000_000 - 185_000, 256));
    assert!(!check_funding(100_000, 100_000_000 - 184_999, 256));
    assert!(!check_funding(100_000, 100_000_001, 0));
    assert!(check_funding(0, 0, 0));
    assert!(!check_funding(0, 0, 2));
    assert!(check_funding(u64::MAX / 1000, 0, u32::MAX));
    assert!(!check_funding(u64::MAX / 1000 + 1, 0, 0));
}

#[test]
fn stage_bytes_round_trip() {
    let stages = [
        ChannelPropose::Proposed,
        ChannelPropose::Accepted,
        ChannelPropose::Signing,
        ChannelPropose::Funding,
        ChannelPropose::Signed,
        ChannelPropose::Funded,
        ChannelPropose::Locked,
    ];
    for (index, stage) in stages.iter().enumerate() {
        assert_eq!(stage.to_byte() as usize, index);
        assert_eq!(ChannelPropose::from_byte(stage.to_byte()), Some(*stage));
    }
    assert_eq!(ChannelPropose::from_byte(7), None);
    assert_eq!(ChannelPropose::from_byte(255), None);
}
