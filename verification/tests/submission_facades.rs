use hyperlane_tron::abi::{
    decode_address_word, decode_bool_word, decode_u32_word, decode_word_and_u32,
};
use hyperlane_tron::address::{TronAddress, UniversalId};
use hyperlane_tron::errors::HyperlaneTronError;
use hyperlane_tron::finality::ReorgPolicy;
use hyperlane_tron::mailbox::{process_calldata, TronMailbox, TronMailboxIndexer};
use hyperlane_tron::merkle_tree_hook::{tree_snapshot, TronMerkleTreeHook};
use hyperlane_tron::message::{encode_message, HyperlaneMessage};
use hyperlane_tron::rpc::{contract_present, energy_fee_from_param};
use hyperlane_tron::signer::Signer;
use hyperlane_tron::submission::{
    apply_fee_estimate, build_submission, finalize, mark_broadcast, mark_signed,
    PendingSubmission, SubmissionPhase,
};
use hyperlane_tron::validator_announce::{validators_to_evm, TronValidatorAnnounce};

fn mailbox_id() -> UniversalId {
    let mut bytes = vec![0u8; 11];
    bytes.push(0x41);
    bytes.extend_from_slice(&[0x33u8; 20]);
    UniversalId { bytes }
}

fn sample_message() -> HyperlaneMessage {
    HyperlaneMessage {
        version: 3,
        nonce: 5,
        origin_domain: 1,
        sender: UniversalId { bytes: vec![0x11; 32] },
        destination_domain: 2,
        recipient: UniversalId { bytes: vec![0x22; 32] },
        body: b"body".to_vec(),
    }
}

fn test_signer() -> Signer {
    let key: Vec<u8> = (1u8..=32).collect();
    Signer::from_bytes(&key).expect("valid key")
}

fn sample_native() -> TronAddress {
    let mut bytes = vec![0x41u8];
    bytes.extend_from_slice(&[0x44u8; 20]);
    TronAddress { bytes }
}

#[test]
fn submission_walks_the_forward_path() {
    let mut sub = build_submission(
        sample_native(),
        sample_native(),
        vec![1, 2, 3, 4],
        vec![9, 9],
        Some(21_000),
    );
    assert_eq!(sub.phase, SubmissionPhase::Built);
    assert_eq!(sub.attached_value, 0);
    assert_eq!(sub.fee_limit, None);
    apply_fee_estimate(&mut sub, 420);
    assert_eq!(sub.phase, SubmissionPhase::FeeEstimated);
    assert_eq!(sub.fee_limit, Some(21_000 * 420));
    mark_signed(&mut sub);
    assert_eq!(sub.phase, SubmissionPhase::Signed);
    mark_broadcast(&mut sub, vec![0xddu8; 32]);
    assert_eq!(sub.phase, SubmissionPhase::Broadcast);
    let outcome = finalize(&mut sub, true);
    assert_eq!(sub.phase, SubmissionPhase::Confirmed);
    assert!(outcome.executed);
    assert_eq!(outcome.transaction_id, vec![0xddu8; 32]);
}

#[test]
fn confirmation_timeout_is_not_an_error() {
    let mut sub = build_submission(
        sample_native(),
        sample_native(),
        vec![1, 2, 3, 4],
        vec![],
        None,
    );
    mark_signed(&mut sub);
    mark_broadcast(&mut sub, vec![0xeeu8; 32]);
    let outcome = finalize(&mut sub, false);
    assert_eq!(sub.phase, SubmissionPhase::TimedOutUnconfirmed);
    assert!(!outcome.executed);
    assert_eq!(outcome.gas_used, 0);
    assert_eq!(outcome.gas_price, 0);
    assert_eq!(outcome.transaction_id, vec![0xeeu8; 32]);
}

#[test]
fn process_without_signer_fails_fast() {
    let mailbox = TronMailbox::new(1, &mailbox_id(), None).expect("binds");
    assert!(!mailbox.has_signer());
    let r = mailbox.process_plan(&sample_message(), &vec![0xaa], Some(1000));
    assert!(matches!(r, Err(HyperlaneTronError::SignerUnavailable)));
}

#[test]
fn process_with_signer_plans_a_built_submission() {
    let mailbox = TronMailbox::new(1, &mailbox_id(), Some(test_signer())).expect("binds");
    let plan = mailbox
        .process_plan(&sample_message(), &vec![0xaa], Some(1000))
        .expect("planned");
    assert_eq!(plan.phase, SubmissionPhase::Built);
    assert_eq!(plan.attached_value, 0);
    assert_eq!(plan.energy_limit, Some(1000));
    assert_eq!(plan.contract.bytes, mailbox.address.bytes);
    assert_eq!(plan.caller.bytes[0], 0x41);
    assert_eq!(plan.caller.bytes.len(), 21);
    let selector = ethers_core::utils::id("process(bytes,bytes)");
    assert_eq!(plan.selector, selector.to_vec());
}

#[test]
fn announce_without_signer_fails_fast() {
    let va = TronValidatorAnnounce::new(1, &mailbox_id(), None).expect("binds");
    let r = va.announce_plan(&vec![0x77; 20], &b"s3://bucket".to_vec(), &vec![0x01; 65]);
    assert!(matches!(r, Err(HyperlaneTronError::SignerUnavailable)));
}

#[test]
fn announce_parameter_matches_the_reference_coder() {
    let va = TronValidatorAnnounce::new(1, &mailbox_id(), Some(test_signer())).expect("binds");
    let validator = vec![0x77u8; 20];
    let location = b"s3://bucket/path".to_vec();
    let signature = vec![0x01u8; 65];
    let plan = va
        .announce_plan(&validator, &location, &signature)
        .expect("planned");
    let expected = ethers_core::abi::encode(&[
        ethers_core::abi::Token::Address(ethers_core::types::H160::from_slice(&validator)),
        ethers_core::abi::Token::String(String::from_utf8(location.clone()).unwrap()),
        ethers_core::abi::Token::Bytes(signature.clone()),
    ]);
    assert_eq!(plan.parameter, expected);
    assert_eq!(
        plan.selector,
        ethers_core::utils::id("announce(address,string,bytes)").to_vec()
    );
    assert_eq!(va.announce_tokens_needed(), None);
}

#[test]
fn process_calldata_layout_is_exact() {
    let message = sample_message();
    let metadata = vec![0xabu8, 0xcd];
    let calldata = process_calldata(&message, &metadata);
    let encoded = encode_message(&message);
    let mut expected = ethers_core::utils::id("process(bytes,bytes)").to_vec();
    expected.extend_from_slice(&ethers_core::abi::encode(&[
        ethers_core::abi::Token::Bytes(encoded.clone()),
        ethers_core::abi::Token::Bytes(metadata.clone()),
    ]));
    assert_eq!(calldata, expected);

    let mut manual = ethers_core::utils::id("process(bytes,bytes)").to_vec();
    let pad = |b: &[u8]| {
        let mut w = b.to_vec();
        while w.len() % 32 != 0 {
            w.push(0);
        }
        w
    };
    let word = |v: u32| {
        let mut w = vec![0u8; 28];
        w.extend_from_slice(&v.to_be_bytes());
        w
    };
    let padded_len = |n: usize| n.div_ceil(32) * 32;
    manual.extend_from_slice(&word(64));
    manual.extend_from_slice(&word((96 + padded_len(encoded.len())) as u32));
    manual.extend_from_slice(&word(encoded.len() as u32));
    manual.extend_from_slice(&pad(&encoded));
    manual.extend_from_slice(&word(metadata.len() as u32));
    manual.extend_from_slice(&pad(&metadata));
    assert_eq!(calldata, manual);

    let no_metadata = process_calldata(&message, &vec![]);
    let mut expected_empty = ethers_core::utils::id("process(bytes,bytes)").to_vec();
    expected_empty.extend_from_slice(&ethers_core::abi::encode(&[
        ethers_core::abi::Token::Bytes(encoded),
        ethers_core::abi::Token::Bytes(vec![]),
    ]));
    assert_eq!(no_metadata, expected_empty);
}

#[test]
fn signer_derives_the_known_address() {
    let key = [
        0xb2, 0x24, 0xf6, 0x9f, 0xe1, 0x06, 0x04, 0xd7, 0x12, 0x63, 0x97, 0x1e, 0xcd, 0x9c,
        0xdc, 0x9f, 0x2f, 0xc5, 0x9d, 0x0e, 0x7d, 0xdb, 0x6c, 0x9d, 0xf2, 0xaa, 0x86, 0x31,
        0x42, 0x3d, 0x8c, 0xb0,
    ];
    let signer = Signer::from_bytes(&key).expect("valid key");
    assert_eq!(signer.address(), "TJ4bdYW5G7EXrzWJY1e1nduY3ihEzU1G4R");
    let native = signer.native_address();
    assert_eq!(native.bytes.len(), 21);
    assert_eq!(native.bytes[0], 0x41);
}

#[test]
fn signer_rejects_bad_key_material() {
    assert!(matches!(
        Signer::from_bytes(&[0u8; 32]),
        Err(HyperlaneTronError::SignatureFailure)
    ));
    assert!(matches!(
        Signer::from_bytes(&[1u8; 33]),
        Err(HyperlaneTronError::SignatureFailure)
    ));
    assert!(matches!(
        Signer::from_bytes(&[1u8; 3]),
        Err(HyperlaneTronError::SignatureFailure)
    ));
}

#[test]
fn signing_advances_the_submission_and_appends_the_known_signature() {
    let key = [
        0xb2, 0x24, 0xf6, 0x9f, 0xe1, 0x06, 0x04, 0xd7, 0x12, 0x63, 0x97, 0x1e, 0xcd, 0x9c,
        0xdc, 0x9f, 0x2f, 0xc5, 0x9d, 0x0e, 0x7d, 0xdb, 0x6c, 0x9d, 0xf2, 0xaa, 0x86, 0x31,
        0x42, 0x3d, 0x8c, 0xb0,
    ];
    let signer = Signer::from_bytes(&key).expect("valid key");
    let tx_id_bytes = hyperlane_tron::hexstr::decode_hex(
        &b"1471a47a19f8cc87933af763a8a9bb579b1fdaad2cb55fe7587a2e01a6cce6fe".to_vec(),
    )
    .expect("hex");
    let mut tx = heliosphere_core::transaction::Transaction {
        raw_data: heliosphere_core::transaction::RawTxData {
            data: None,
            contract: vec![],
            expiration: 0,
            timestamp: 0,
            fee_limit: 0,
            ref_block_bytes: vec![],
            ref_block_hash: vec![],
        },
        raw_data_bytes: vec![],
        tx_id: heliosphere_core::transaction::TransactionId(
            tx_id_bytes.as_slice().try_into().expect("32 bytes"),
        ),
        signature: vec![],
        contract_address: None,
        visible: None,
    };
    let mut sub = build_submission(
        sample_native(),
        sample_native(),
        vec![1, 2, 3, 4],
        vec![],
        None,
    );
    hyperlane_tron::signer::sign_submission(&signer, &mut tx, &mut sub).expect("signs");
    assert_eq!(sub.phase, SubmissionPhase::Signed);
    assert_eq!(tx.signature.len(), 1);
    assert_eq!(
        tx.signature[0],
        "e713bf98011b64960d423ec1b80518ef7708d202d7de37d4f9ca43a273c1fe491b9bb002854eff6f9edeee32420b75a8c080378d74148103dd0229cb8c8482bf01"
    );
}

#[test]
fn gateway_reads_fee_and_code_presence() {
    assert_eq!(energy_fee_from_param(Some(420)), Ok(420));
    assert_eq!(energy_fee_from_param(Some(-1)), Ok(u64::MAX));
    assert_eq!(
        energy_fee_from_param(None),
        Err(HyperlaneTronError::Transport)
    );
    assert!(contract_present(&vec![0x60, 0x80]));
    assert!(!contract_present(&vec![]));
}

#[test]
fn checkpoint_carries_hook_identity_and_fetched_pair() {
    let hook = TronMerkleTreeHook::new(9, &mailbox_id()).expect("binds");
    let cp = hook.latest_checkpoint(vec![0x5c; 32], 41);
    assert_eq!(cp.mailbox_domain, 9);
    assert_eq!(cp.index, 41);
    assert_eq!(cp.root, vec![0x5c; 32]);
    assert_eq!(&cp.merkle_tree_hook_address.bytes[..11], &[0u8; 11][..]);
    assert_eq!(&cp.merkle_tree_hook_address.bytes[11..], &hook.address.bytes[..]);
}

#[test]
fn tree_snapshot_checks_shape() {
    let branch: Vec<Vec<u8>> = (0..32).map(|i| vec![i as u8; 32]).collect();
    let snap = tree_snapshot(branch.clone(), 1000).expect("well shaped");
    assert_eq!(snap.count, 1000);
    assert_eq!(snap.branch.len(), 32);
    assert!(tree_snapshot(branch[..31].to_vec(), 1000).is_err());
    let mut bad = branch.clone();
    bad[5] = vec![0u8; 31];
    assert!(tree_snapshot(bad, 1000).is_err());
    assert!(tree_snapshot(branch, u32::MAX as u64 + 1).is_err());
}

#[test]
fn indexer_reports_sequence_and_tip() {
    let ix = TronMailboxIndexer::new(1, &mailbox_id(), ReorgPolicy::FixedLag(3)).expect("binds");
    assert_eq!(ix.latest_sequence_count_and_tip(17, 90), (Some(17), 90));
    assert_eq!(ix.delivery_sequence_count_and_tip(90), (None, 90));
    assert_eq!(ix.finalized_block_number(100, 0), Ok(97));
    assert_eq!(ix.emitter_hash(), vec![0x33u8; 20]);
}

#[test]
fn validator_identities_truncate_to_account_hashes() {
    let mut id1 = vec![0u8; 12];
    id1.extend_from_slice(&[0x01; 20]);
    let mut id2 = vec![0u8; 12];
    id2.extend_from_slice(&[0x02; 20]);
    let ids = vec![UniversalId { bytes: id1 }, UniversalId { bytes: id2 }];
    let hashes = validators_to_evm(&ids);
    assert_eq!(hashes, vec![vec![0x01u8; 20], vec![0x02u8; 20]]);
}

#[test]
fn response_words_decode_exactly() {
    let mut word = vec![0u8; 28];
    word.extend_from_slice(&77u32.to_be_bytes());
    assert_eq!(decode_u32_word(&word), Ok(77));
    let mut wide = vec![0u8; 32];
    wide[27] = 1;
    assert!(decode_u32_word(&wide).is_err());
    assert!(decode_u32_word(&vec![0u8; 31]).is_err());

    let mut yes = vec![0u8; 32];
    yes[31] = 1;
    assert_eq!(decode_bool_word(&yes), Ok(true));
    assert_eq!(decode_bool_word(&vec![0u8; 32]), Ok(false));
    let mut two = vec![0u8; 32];
    two[31] = 2;
    assert!(decode_bool_word(&two).is_err());

    let mut addr = vec![0u8; 12];
    addr.extend_from_slice(&[0x5du8; 20]);
    assert_eq!(decode_address_word(&addr), Ok(vec![0x5du8; 20]));

    let mut pair = vec![0x9cu8; 32];
    pair.extend_from_slice(&vec![0u8; 28]);
    pair.extend_from_slice(&41u32.to_be_bytes());
    assert_eq!(decode_word_and_u32(&pair), Ok((vec![0x9cu8; 32], 41)));
    let mut dirty = pair.clone();
    dirty[40] = 1;
    assert!(decode_word_and_u32(&dirty).is_err());
}

#[test]
fn binding_to_a_foreign_identifier_is_rejected() {
    let mut bytes = vec![0u8; 32];
    bytes[0] = 0x99;
    let foreign = UniversalId { bytes };
    assert!(matches!(
        TronMailbox::new(1, &foreign, None),
        Err(HyperlaneTronError::InvalidAddressFormat)
    ));
    assert!(matches!(
        TronMailboxIndexer::new(1, &foreign, ReorgPolicy::AtHead),
        Err(HyperlaneTronError::InvalidAddressFormat)
    ));
    assert!(matches!(
        TronValidatorAnnounce::new(1, &foreign, None),
        Err(HyperlaneTronError::InvalidAddressFormat)
    ));
    assert!(matches!(
        TronMerkleTreeHook::new(1, &foreign),
        Err(HyperlaneTronError::InvalidAddressFormat)
    ));
}
