use vstd::prelude::*;

use crate::packaging::{
    create_batch, create_batch_header, create_tx, is_signed_shape, parses_unsigned, prepare_post,
    single_output_header, Batch, BatchHeaderFields, LedgerTransaction, PostError, PreparedTransaction,
};

verus! {

/// Why a submission ended without reaching the ledger.
#[derive(Clone, Copy, Debug, PartialEq, Eq, Structural)]
pub enum PostFailure {
    /// The input is an unsigned transaction.
    NeedsSigning,
    /// The input is no transaction at all.
    Unreadable,
    /// The ledger did not take the batch.
    SubmissionFailed,
    /// An event came that the current stage does not wait for.
    OutOfOrder,
}

/// Where a submission stands. Each stage holds what the caller needs to do
/// the next piece of outside work.
pub enum PostStage {
    /// Nothing has been read yet.
    Unvalidated,
    /// The header fields are complete: encode them and sign the encoding.
    Headered { prepared: PreparedTransaction },
    /// The transaction is signed: encode the batch header and sign it.
    Signed { tx: LedgerTransaction, batch_header: BatchHeaderFields },
    /// The batch is complete: hand it to the ledger.
    Batched { batch: Batch },
    /// The ledger took the batch.
    Submitted,
    /// The submission ended without success.
    Rejected(PostFailure),
}

/// What the caller reports back after each piece of outside work.
pub enum PostEvent {
    /// The bytes that are to be posted.
    Input(Vec<u8>),
    /// The encoded transaction header and the signature over exactly it.
    HeaderSigned { header: Vec<u8>, signature: String },
    /// The encoded batch header and the signature over exactly it.
    BatchSigned { header: Vec<u8>, signature: String },
    /// The ledger took the batch.
    SubmitOk,
    /// The ledger did not take the batch.
    SubmitFailed,
}

/// The next stage of a submission after `event`, with `signer_public_key`
/// as the identity that signs both the transaction and the batch.
pub fn post_step(stage: PostStage, event: PostEvent, signer_public_key: &String) -> (r: PostStage)
    ensures
        match (stage, event) {
            (PostStage::Unvalidated, PostEvent::Input(b)) => {
                &&& r is Headered <==> is_signed_shape(b@)
                &&& r == PostStage::Rejected(PostFailure::NeedsSigning) <==> !is_signed_shape(b@) && parses_unsigned(b@)
                &&& r == PostStage::Rejected(PostFailure::Unreadable) <==> !is_signed_shape(b@) && !parses_unsigned(b@)
                &&& r matches PostStage::Headered { prepared } ==> single_output_header(
                    prepared.header,
                    signer_public_key@,
                    prepared.payload@,
                )
            },
            (PostStage::Headered { prepared }, PostEvent::HeaderSigned { header, signature }) => {
                r matches PostStage::Signed { tx, batch_header } && tx.header@ == header@
                    && tx.header_signature@ == signature@ && tx.payload@ == prepared.payload@
                    && batch_header.signer_public_key@ == signer_public_key@
                    && batch_header.transaction_ids@.len() == 1
                    && batch_header.transaction_ids@[0]@ == signature@
            },
            (PostStage::Signed { tx, batch_header }, PostEvent::BatchSigned { header, signature }) => {
                r matches PostStage::Batched { batch } && batch.header@ == header@
                    && batch.header_signature@ == signature@ && batch.transactions@ == seq![tx]
            },
            (PostStage::Batched { batch }, PostEvent::SubmitOk) => r is Submitted,
            (PostStage::Batched { batch }, PostEvent::SubmitFailed) => r == PostStage::Rejected(
                PostFailure::SubmissionFailed,
            ),
            (PostStage::Submitted, _) => r is Submitted,
            (PostStage::Rejected(f), _) => r == PostStage::Rejected(f),
            _ => r == PostStage::Rejected(PostFailure::OutOfOrder),
        },
{
    match stage {
        PostStage::Unvalidated => match event {
            PostEvent::Input(b) => match prepare_post(&b, signer_public_key) {
                Ok(prepared) => PostStage::Headered { prepared },
                Err(PostError::NeedsSigning) => PostStage::Rejected(PostFailure::NeedsSigning),
                Err(PostError::Unreadable) => PostStage::Rejected(PostFailure::Unreadable),
            },
            _ => PostStage::Rejected(PostFailure::OutOfOrder),
        },
        PostStage::Headered { prepared } => match event {
            PostEvent::HeaderSigned { header, signature } => {
                let tx = create_tx(header, signature, prepared.payload);
                let batch_header = create_batch_header(signer_public_key, &tx);
                PostStage::Signed { tx, batch_header }
            },
            _ => PostStage::Rejected(PostFailure::OutOfOrder),
        },
        PostStage::Signed { tx, batch_header } => match event {
            PostEvent::BatchSigned { header, signature } => PostStage::Batched {
                batch: create_batch(header, signature, tx),
            },
            _ => PostStage::Rejected(PostFailure::OutOfOrder),
        },
        PostStage::Batched { batch } => match event {
            PostEvent::SubmitOk => PostStage::Submitted,
            PostEvent::SubmitFailed => PostStage::Rejected(PostFailure::SubmissionFailed),
            _ => PostStage::Rejected(PostFailure::OutOfOrder),
        },
        PostStage::Submitted => PostStage::Submitted,
        PostStage::Rejected(f) => PostStage::Rejected(f),
    }
}

} // verus!
