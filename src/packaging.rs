use cryptoballot::SignedTransaction;
use vstd::prelude::*;

use crate::address::{address_of, sha512, sha512_of, AddressSpace};
use crate::hex_text::{hex_of, lemma_hex_injective, to_hex_string};
use crate::ident::{ident_bytes, random_bytes, Identifier, TransactionType};

verus! {

/// cryptoballot's signed application transaction, carried through opaque.
#[verifier::external_type_specification]
#[verifier::external_body]
pub struct ExSignedTransaction(cryptoballot::SignedTransaction);

/// Whether a byte string reads as a signed application transaction.
pub uninterp spec fn parses_signed(b: Seq<u8>) -> bool;

/// Whether a byte string reads as an unsigned application transaction.
pub uninterp spec fn parses_unsigned(b: Seq<u8>) -> bool;

/// Relies on cryptoballot's `SignedTransaction::from_bytes` (JSON when the
/// first byte is `{`, CBOR otherwise), whose outcome depends on the bytes
/// alone. It indexes the first byte, so `b` must not be empty.
#[verifier::external_body]
fn parse_signed(b: &[u8]) -> (r: Option<SignedTransaction>)
    requires
        b@.len() > 0,
    ensures
        r.is_some() == parses_signed(b@),
{
    SignedTransaction::from_bytes(b).ok()
}

/// Relies on cryptoballot's `Transaction::from_bytes`, whose outcome depends
/// on the bytes alone.
#[verifier::external_body]
fn parse_unsigned(b: &[u8]) -> (r: bool)
    ensures
        r == parses_unsigned(b@),
{
    cryptoballot::Transaction::from_bytes(b).is_ok()
}

/// Relies on cryptoballot's `SignedTransaction::as_bytes`: the transaction
/// packed as CBOR.
#[verifier::external_body]
fn signed_tx_bytes(tx: &SignedTransaction) -> (r: Vec<u8>) {
    tx.as_bytes()
}

/// Relies on cryptoballot's `SignedTransaction::id`: the identifier's
/// election part, kind byte (from 1 to 4, by `TransactionType`'s `repr(u8)`)
/// and unique part.
#[verifier::external_body]
fn signed_tx_id(tx: &SignedTransaction) -> (r: ([u8; 15], u8, Option<[u8; 16]>))
    ensures
        1 <= r.1 <= 4,
{
    let id = tx.id();
    (id.election_id, id.transaction_type as u8, id.unique_id)
}

/// Relies on cryptoballot's `SignedTransaction::inputs`: each input
/// identifier's parts, in order, as `signed_tx_id` gives them.
#[verifier::external_body]
fn signed_tx_inputs(tx: &SignedTransaction) -> (r: Vec<([u8; 15], u8, Option<[u8; 16]>)>)
    ensures
        forall|i: int| 0 <= i < r@.len() ==> 1 <= #[trigger] r@[i].1 <= 4,
{
    tx.inputs().into_iter().map(|id| (id.election_id, id.transaction_type as u8, id.unique_id)).collect()
}

fn identifier_from_parts(parts: ([u8; 15], u8, Option<[u8; 16]>)) -> (r: Identifier)
    requires
        1 <= parts.1 <= 4,
    ensures
        r.election_id == parts.0,
        r.transaction_type.spec_code() == parts.1,
        r.unique_id == parts.2,
{
    Identifier {
        election_id: parts.0,
        transaction_type: TransactionType::from_code(parts.1).unwrap(),
        unique_id: parts.2,
    }
}

/// The transaction family that this application's transactions belong to.
pub open spec fn family_name_spec() -> Seq<char> {
    seq!['c', 'r', 'y', 'p', 't', 'o', 'b', 'a', 'l', 'l', 'o', 't']
}

/// The version of the transaction family.
pub open spec fn family_version_spec() -> Seq<char> {
    seq!['1', '.', '0']
}

/// The fields of a ledger transaction header, before the ledger's schema
/// encodes them.
pub struct TransactionHeaderFields {
    pub family_name: String,
    pub family_version: String,
    pub nonce: String,
    pub inputs: Vec<String>,
    pub outputs: Vec<String>,
    pub signer_public_key: String,
    pub batcher_public_key: String,
    pub payload_sha512: String,
}

/// `a` lists the addresses of `ids`, in order.
pub open spec fn addresses_match(a: Seq<String>, ids: Seq<Identifier>) -> bool {
    a.len() == ids.len() && forall|k: int| 0 <= k < ids.len() ==> #[trigger] a[k]@ == address_of(ids[k])
}

/// `h` is the header for this signer, payload, inputs, outputs and nonce.
pub open spec fn header_matches(
    h: TransactionHeaderFields,
    signer: Seq<char>,
    payload: Seq<u8>,
    inputs: Seq<Identifier>,
    outputs: Seq<Identifier>,
    nonce: Seq<u8>,
) -> bool {
    &&& h.family_name@ == family_name_spec()
    &&& h.family_version@ == family_version_spec()
    &&& h.nonce@ == hex_of(nonce)
    &&& addresses_match(h.inputs@, inputs)
    &&& addresses_match(h.outputs@, outputs)
    &&& h.signer_public_key@ == signer
    &&& h.batcher_public_key@ == signer
    &&& h.payload_sha512@ == hex_of(sha512_of(payload))
}

/// The addresses of `ids`, in order.
pub fn addresses_of(space: &AddressSpace, ids: &Vec<Identifier>) -> (r: Vec<String>)
    requires
        space.wf(),
    ensures
        addresses_match(r@, ids@),
{
    let mut out: Vec<String> = Vec::with_capacity(ids.len());
    let mut i: usize = 0;
    while i < ids.len()
        invariant
            i <= ids@.len(),
            space.wf(),
            addresses_match(out@, ids@.subrange(0, i as int)),
        decreases ids@.len() - i,
    {
        out.push(space.address(ids[i]));
        i = i + 1;
    }
    assert(ids@.subrange(0, i as int) =~= ids@);
    out
}

/// The header with the given payload digest, the addresses of `inputs` and
/// `outputs` and the given nonce, and the signer's public key, which also
/// stands as the batcher's.
pub fn assemble_header(
    signer_public_key: &String,
    payload_digest: &Vec<u8>,
    inputs: &Vec<Identifier>,
    outputs: &Vec<Identifier>,
    nonce: &[u8; 16],
) -> (r: TransactionHeaderFields)
    ensures
        r.family_name@ == family_name_spec(),
        r.family_version@ == family_version_spec(),
        r.nonce@ == hex_of(nonce@),
        addresses_match(r.inputs@, inputs@),
        addresses_match(r.outputs@, outputs@),
        r.signer_public_key@ == signer_public_key@,
        r.batcher_public_key@ == signer_public_key@,
        r.payload_sha512@ == hex_of(payload_digest@),
{
    let family_name = String::from_str("cryptoballot");
    let family_version = String::from_str("1.0");
    proof {
        reveal_strlit("cryptoballot");
        reveal_strlit("1.0");
    }
    assert(family_name@ =~= family_name_spec());
    assert(family_version@ =~= family_version_spec());
    let mut nonce_bytes: Vec<u8> = Vec::with_capacity(16);
    let mut i: usize = 0;
    while i < 16
        invariant
            i <= 16,
            nonce_bytes@ =~= nonce@.subrange(0, i as int),
        decreases 16 - i,
    {
        nonce_bytes.push(nonce[i]);
        i = i + 1;
    }
    assert(nonce_bytes@ =~= nonce@);
    let space = AddressSpace::new();
    TransactionHeaderFields {
        family_name,
        family_version,
        nonce: to_hex_string(&nonce_bytes),
        inputs: addresses_of(&space, inputs),
        outputs: addresses_of(&space, outputs),
        signer_public_key: signer_public_key.clone(),
        batcher_public_key: signer_public_key.clone(),
        payload_sha512: to_hex_string(payload_digest),
    }
}

/// The header that binds the SHA-512 digest of `payload_bytes`, the
/// addresses of `inputs` and `outputs` and the given nonce to the signer's
/// public key, which also stands as the batcher's.
pub fn header_with_nonce(
    signer_public_key: &String,
    payload_bytes: &Vec<u8>,
    inputs: &Vec<Identifier>,
    outputs: &Vec<Identifier>,
    nonce: &[u8; 16],
) -> (r: TransactionHeaderFields)
    ensures
        header_matches(r, signer_public_key@, payload_bytes@, inputs@, outputs@, nonce@),
{
    let digest = sha512(payload_bytes.as_slice());
    assemble_header(signer_public_key, &digest, inputs, outputs, nonce)
}

/// The header for `payload_bytes`, `inputs` and `outputs`, with a fresh
/// random nonce of sixteen bytes.
pub fn create_header(
    signer_public_key: &String,
    payload_bytes: &Vec<u8>,
    inputs: &Vec<Identifier>,
    outputs: &Vec<Identifier>,
) -> (r: TransactionHeaderFields)
    ensures
        exists|n: Seq<u8>|
            n.len() == 16 && header_matches(r, signer_public_key@, payload_bytes@, inputs@, outputs@, n),
{
    let nonce = random_bytes();
    let r = header_with_nonce(signer_public_key, payload_bytes, inputs, outputs, &nonce);
    assert(nonce@.len() == 16);
    r
}

/// A nonce, an input or output identifier, or a payload digest that differs
/// between two headers makes them differ: the header binds all of them.
pub proof fn lemma_header_binds_fields(
    h1: TransactionHeaderFields,
    h2: TransactionHeaderFields,
    signer: Seq<char>,
    payload1: Seq<u8>,
    inputs1: Seq<Identifier>,
    outputs1: Seq<Identifier>,
    nonce1: Seq<u8>,
    payload2: Seq<u8>,
    inputs2: Seq<Identifier>,
    outputs2: Seq<Identifier>,
    nonce2: Seq<u8>,
)
    requires
        header_matches(h1, signer, payload1, inputs1, outputs1, nonce1),
        header_matches(h2, signer, payload2, inputs2, outputs2, nonce2),
    ensures
        nonce1 != nonce2 ==> h1.nonce@ != h2.nonce@,
        sha512_of(payload1) != sha512_of(payload2) ==> h1.payload_sha512@ != h2.payload_sha512@,
        inputs1.map_values(|id: Identifier| ident_bytes(id)) != inputs2.map_values(|id: Identifier| ident_bytes(id))
            ==> h1.inputs@.map_values(|a: String| a@) != h2.inputs@.map_values(|a: String| a@),
        outputs1.map_values(|id: Identifier| ident_bytes(id)) != outputs2.map_values(|id: Identifier| ident_bytes(id))
            ==> h1.outputs@.map_values(|a: String| a@) != h2.outputs@.map_values(|a: String| a@),
{
    if h1.nonce@ == h2.nonce@ {
        lemma_hex_injective(nonce1, nonce2);
    }
    if h1.payload_sha512@ == h2.payload_sha512@ {
        lemma_hex_injective(sha512_of(payload1), sha512_of(payload2));
    }
    if h1.inputs@.map_values(|a: String| a@) == h2.inputs@.map_values(|a: String| a@) {
        lemma_addresses_bind(h1.inputs@, h2.inputs@, inputs1, inputs2);
    }
    if h1.outputs@.map_values(|a: String| a@) == h2.outputs@.map_values(|a: String| a@) {
        lemma_addresses_bind(h1.outputs@, h2.outputs@, outputs1, outputs2);
    }
}

proof fn lemma_addresses_bind(a1: Seq<String>, a2: Seq<String>, ids1: Seq<Identifier>, ids2: Seq<Identifier>)
    requires
        addresses_match(a1, ids1),
        addresses_match(a2, ids2),
        a1.map_values(|a: String| a@) == a2.map_values(|a: String| a@),
    ensures
        ids1.map_values(|id: Identifier| ident_bytes(id)) == ids2.map_values(|id: Identifier| ident_bytes(id)),
{
    let v1 = a1.map_values(|a: String| a@);
    let v2 = a2.map_values(|a: String| a@);
    assert(v1.len() == v2.len());
    assert forall|k: int| 0 <= k < ids1.len() implies ident_bytes(ids1[k]) == ident_bytes(ids2[k]) by {
        assert(v1[k] == v2[k]);
        assert(a1[k]@ == a2[k]@);
        if ident_bytes(ids1[k]) != ident_bytes(ids2[k]) {
            crate::address::lemma_encoding_distinct(ids1[k], ids2[k]);
        }
    }
    assert(ids1.map_values(|id: Identifier| ident_bytes(id)) =~= ids2.map_values(|id: Identifier| ident_bytes(id)));
}

/// Why an input cannot be posted to the ledger.
#[derive(Clone, Copy, Debug, PartialEq, Eq, Structural)]
pub enum PostError {
    /// The input is an unsigned transaction: it must be signed first.
    NeedsSigning,
    /// The input is no transaction at all.
    Unreadable,
}

/// Why an input cannot be signed.
#[derive(Clone, Copy, Debug, PartialEq, Eq, Structural)]
pub enum SignError {
    /// The input is a transaction that is signed already.
    AlreadySigned,
    /// The input is no transaction at all.
    Unreadable,
}

/// Why an input that does (`signed`) or does not read as a signed
/// transaction, and does (`unsigned`) or does not read as an unsigned one,
/// cannot be posted; `None` when it can.
pub fn post_rejection(signed: bool, unsigned: bool) -> (r: Option<PostError>)
    ensures
        r == (if signed {
            None
        } else if unsigned {
            Some(PostError::NeedsSigning)
        } else {
            Some(PostError::Unreadable)
        }),
{
    if signed {
        None
    } else if unsigned {
        Some(PostError::NeedsSigning)
    } else {
        Some(PostError::Unreadable)
    }
}

/// Why an input that does (`signed`) or does not read as a signed
/// transaction, and does (`unsigned`) or does not read as an unsigned one,
/// cannot be signed; `None` when it can.
pub fn sign_rejection(signed: bool, unsigned: bool) -> (r: Option<SignError>)
    ensures
        r == (if signed {
            Some(SignError::AlreadySigned)
        } else if unsigned {
            None
        } else {
            Some(SignError::Unreadable)
        }),
{
    if signed {
        Some(SignError::AlreadySigned)
    } else if unsigned {
        None
    } else {
        Some(SignError::Unreadable)
    }
}

/// Whether `b` reads as a signed transaction (an empty input never does).
pub open spec fn is_signed_shape(b: Seq<u8>) -> bool {
    b.len() > 0 && parses_signed(b)
}

/// `h` is the header, with some sixteen-byte nonce, of a transaction with
/// some inputs and exactly one output, for this signer and payload.
pub open spec fn single_output_header(h: TransactionHeaderFields, signer: Seq<char>, payload: Seq<u8>) -> bool {
    exists|ins: Seq<Identifier>, out: Identifier, n: Seq<u8>|
        n.len() == 16 && #[trigger] header_matches(h, signer, payload, ins, seq![out], n)
}

/// A signed application transaction made ready for the ledger: its header
/// fields and the payload that the header's digest covers.
pub struct PreparedTransaction {
    pub header: TransactionHeaderFields,
    pub payload: Vec<u8>,
}

/// Reads `file_bytes` as a signed application transaction and builds its
/// ledger header: the transaction's inputs as inputs, its own identifier as
/// the only output, a fresh nonce, and `signer_public_key` as signer.
pub fn prepare_post(file_bytes: &Vec<u8>, signer_public_key: &String) -> (r: Result<PreparedTransaction, PostError>)
    ensures
        r.is_ok() <==> is_signed_shape(file_bytes@),
        r == Err::<PreparedTransaction, PostError>(PostError::NeedsSigning) <==> !is_signed_shape(file_bytes@)
            && parses_unsigned(file_bytes@),
        r == Err::<PreparedTransaction, PostError>(PostError::Unreadable) <==> !is_signed_shape(file_bytes@)
            && !parses_unsigned(file_bytes@),
        r matches Ok(p) ==> single_output_header(p.header, signer_public_key@, p.payload@),
{
    let signed = if file_bytes.len() > 0 {
        parse_signed(file_bytes.as_slice())
    } else {
        None
    };
    match signed {
        Some(tx) => {
            let parts = signed_tx_inputs(&tx);
            let mut inputs: Vec<Identifier> = Vec::with_capacity(parts.len());
            let mut i: usize = 0;
            while i < parts.len()
                invariant
                    i <= parts@.len(),
                    forall|k: int| 0 <= k < parts@.len() ==> 1 <= #[trigger] parts@[k].1 <= 4,
                decreases parts@.len() - i,
            {
                inputs.push(identifier_from_parts(parts[i]));
                i = i + 1;
            }
            let id = identifier_from_parts(signed_tx_id(&tx));
            let mut outputs: Vec<Identifier> = Vec::with_capacity(1);
            outputs.push(id);
            let payload = signed_tx_bytes(&tx);
            let header = create_header(signer_public_key, &payload, &inputs, &outputs);
            assert(outputs@ =~= seq![id]);
            let res = PreparedTransaction { header, payload };
            proof {
                let n = choose|n: Seq<u8>|
                    n.len() == 16 && header_matches(res.header, signer_public_key@, res.payload@, inputs@, outputs@, n);
                assert(header_matches(res.header, signer_public_key@, res.payload@, inputs@, seq![id], n));
                assert(single_output_header(res.header, signer_public_key@, res.payload@));
            }
            Ok(res)
        },
        None => match post_rejection(false, parse_unsigned(file_bytes.as_slice())) {
            Some(e) => Err(e),
            None => Err(PostError::Unreadable),
        },
    }
}

/// Checks that `file_bytes` is an unsigned application transaction, one
/// that signing can take; a signed one is refused as such.
pub fn check_unsigned(file_bytes: &Vec<u8>) -> (r: Result<(), SignError>)
    ensures
        r.is_ok() <==> !is_signed_shape(file_bytes@) && parses_unsigned(file_bytes@),
        r == Err::<(), SignError>(SignError::AlreadySigned) <==> is_signed_shape(file_bytes@),
        r == Err::<(), SignError>(SignError::Unreadable) <==> !is_signed_shape(file_bytes@)
            && !parses_unsigned(file_bytes@),
{
    let signed = file_bytes.len() > 0 && parse_signed(file_bytes.as_slice()).is_some();
    let unsigned = if signed {
        false
    } else {
        parse_unsigned(file_bytes.as_slice())
    };
    match sign_rejection(signed, unsigned) {
        Some(e) => Err(e),
        None => Ok(()),
    }
}

/// A ledger transaction: encoded header, the signature over exactly those
/// header bytes, and the payload.
pub struct LedgerTransaction {
    pub header: Vec<u8>,
    pub header_signature: String,
    pub payload: Vec<u8>,
}

/// The ledger transaction made of encoded header bytes, the signature over
/// them, and the payload.
pub fn create_tx(header: Vec<u8>, header_signature: String, payload: Vec<u8>) -> (r: LedgerTransaction)
    ensures
        r.header@ == header@,
        r.header_signature@ == header_signature@,
        r.payload@ == payload@,
{
    LedgerTransaction { header, header_signature, payload }
}

/// The fields of a batch header, before the ledger's schema encodes them.
pub struct BatchHeaderFields {
    pub signer_public_key: String,
    pub transaction_ids: Vec<String>,
}

/// The header of the batch that carries `tx` alone: its one transaction id
/// is the signature over `tx`'s header.
pub fn create_batch_header(signer_public_key: &String, tx: &LedgerTransaction) -> (r: BatchHeaderFields)
    ensures
        r.signer_public_key@ == signer_public_key@,
        r.transaction_ids@.len() == 1,
        r.transaction_ids@[0]@ == tx.header_signature@,
{
    let mut ids: Vec<String> = Vec::with_capacity(1);
    ids.push(tx.header_signature.clone());
    BatchHeaderFields { signer_public_key: signer_public_key.clone(), transaction_ids: ids }
}

/// A batch: encoded batch header, the signature over it, and the
/// transactions it carries.
pub struct Batch {
    pub header: Vec<u8>,
    pub header_signature: String,
    pub transactions: Vec<LedgerTransaction>,
}

/// The batch that carries `tx` alone, under the given encoded header and
/// its signature.
pub fn create_batch(header: Vec<u8>, header_signature: String, tx: LedgerTransaction) -> (r: Batch)
    ensures
        r.header@ == header@,
        r.header_signature@ == header_signature@,
        r.transactions@ == seq![tx],
{
    let mut transactions: Vec<LedgerTransaction> = Vec::with_capacity(1);
    transactions.push(tx);
    assert(transactions@ =~= seq![tx]);
    Batch { header, header_signature, transactions }
}

/// A batch built by `create_batch_header` and `create_batch` around one
/// transaction holds exactly that transaction, and its header lists exactly
/// one transaction id: that transaction's header signature.
pub proof fn lemma_batch_singleton(
    signer: Seq<char>,
    tx: LedgerTransaction,
    h: BatchHeaderFields,
    b: Batch,
)
    requires
        h.signer_public_key@ == signer,
        h.transaction_ids@.len() == 1,
        h.transaction_ids@[0]@ == tx.header_signature@,
        b.transactions@ == seq![tx],
    ensures
        b.transactions@.len() == 1,
        h.transaction_ids@.len() == 1,
        h.transaction_ids@[0]@ == b.transactions@[0].header_signature@,
{
}

} // verus!
