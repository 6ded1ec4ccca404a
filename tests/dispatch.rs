use cryptoballot_cli::dispatch::{post_step, PostEvent, PostFailure, PostStage};
use sha2::Digest;

fn signed_election() -> Vec<u8> {
    let (secret, public) = cryptoballot::generate_keypair();
    let (election, _) = cryptoballot::ElectionTransaction::new(public);
    let signed = cryptoballot::Signed::sign(&secret, election).unwrap();
    cryptoballot::SignedTransaction::Election(signed).as_bytes()
}

fn rejected_with(stage: &PostStage) -> Option<PostFailure> {
    match stage {
        PostStage::Rejected(f) => Some(*f),
        _ => None,
    }
}

#[test]
fn post_runs_through_every_stage() {
    let signer = "02aa".to_string();
    let bytes = signed_election();
    let stage = post_step(PostStage::Unvalidated, PostEvent::Input(bytes.clone()), &signer);
    let header = match &stage {
        PostStage::Headered { prepared } => {
            assert_eq!(prepared.payload, bytes);
            assert_eq!(prepared.header.payload_sha512, hex::encode(sha2::Sha512::digest(&bytes)));
            assert_eq!(prepared.header.outputs.len(), 1);
            vec![9, 9]
        }
        _ => panic!("expected a complete header"),
    };
    let stage = post_step(stage, PostEvent::HeaderSigned { header, signature: "hsig".to_string() }, &signer);
    match &stage {
        PostStage::Signed { tx, batch_header } => {
            assert_eq!(tx.header, vec![9, 9]);
            assert_eq!(tx.payload, bytes);
            assert_eq!(batch_header.transaction_ids, vec!["hsig".to_string()]);
            assert_eq!(batch_header.signer_public_key, signer);
        }
        _ => panic!("expected a signed transaction"),
    }
    let stage = post_step(stage, PostEvent::BatchSigned { header: vec![7], signature: "bsig".to_string() }, &signer);
    match &stage {
        PostStage::Batched { batch } => {
            assert_eq!(batch.transactions.len(), 1);
            assert_eq!(batch.transactions[0].header_signature, "hsig");
            assert_eq!(batch.header_signature, "bsig");
        }
        _ => panic!("expected a batch"),
    }
    let stage = post_step(stage, PostEvent::SubmitOk, &signer);
    assert!(matches!(stage, PostStage::Submitted));
}

#[test]
fn post_of_unsigned_input_is_rejected() {
    let (_, public) = cryptoballot::generate_keypair();
    let (election, _) = cryptoballot::ElectionTransaction::new(public);
    let unsigned = serde_json::to_vec(&cryptoballot::Transaction::Election(election)).unwrap();
    let stage = post_step(PostStage::Unvalidated, PostEvent::Input(unsigned), &"k".to_string());
    assert_eq!(rejected_with(&stage), Some(PostFailure::NeedsSigning));
}

#[test]
fn signing_before_header_is_out_of_order() {
    let stage = post_step(
        PostStage::Unvalidated,
        PostEvent::HeaderSigned { header: vec![1], signature: "s".to_string() },
        &"k".to_string(),
    );
    assert_eq!(rejected_with(&stage), Some(PostFailure::OutOfOrder));
}

#[test]
fn failed_submission_is_final() {
    let stage = post_step(PostStage::Unvalidated, PostEvent::Input(signed_election()), &"k".to_string());
    let stage = post_step(stage, PostEvent::HeaderSigned { header: vec![1], signature: "s".to_string() }, &"k".to_string());
    let stage = post_step(stage, PostEvent::BatchSigned { header: vec![2], signature: "t".to_string() }, &"k".to_string());
    let stage = post_step(stage, PostEvent::SubmitFailed, &"k".to_string());
    assert_eq!(rejected_with(&stage), Some(PostFailure::SubmissionFailed));
    let stage = post_step(stage, PostEvent::SubmitOk, &"k".to_string());
    assert_eq!(rejected_with(&stage), Some(PostFailure::SubmissionFailed));
}
