use sha2::Digest;
use vstd::prelude::*;

use crate::hex_text::{
    byte_hex, hex_of, lemma_byte_hex_injective, lemma_hex_concat, lemma_hex_injective,
    lemma_hex_single, to_hex_string,
};
use crate::ident::{ident_bytes, lemma_ident_bytes_injective, unique_bytes, Identifier, TransactionType};

verus! {

/// What SHA-512 gives for a byte string.
pub uninterp spec fn sha512_of(data: Seq<u8>) -> Seq<u8>;

/// Relies on sha2's `Sha512::digest`: the 64-byte SHA-512 digest of `data`,
/// which depends on `data` alone.
#[verifier::external_body]
pub(crate) fn sha512(data: &[u8]) -> (r: Vec<u8>)
    ensures
        r@ == sha512_of(data@),
        r@.len() == 64,
{
    sha2::Sha512::digest(data).to_vec()
}

/// The ASCII bytes of the label "cryptoballot", which names this
/// application's part of the ledger's address space.
pub open spec fn namespace_label() -> Seq<u8> {
    seq![99u8, 114u8, 121u8, 112u8, 116u8, 111u8, 98u8, 97u8, 108u8, 108u8, 111u8, 116u8]
}

/// The namespace tag: the first three bytes of the label's SHA-512 digest,
/// as six hexadecimal digits.
pub open spec fn namespace_tag_spec() -> Seq<char> {
    hex_of(sha512_of(namespace_label()).subrange(0, 3))
}

/// The ledger address of an identifier.
pub open spec fn address_of(id: Identifier) -> Seq<char> {
    namespace_tag_spec() + hex_of(ident_bytes(id))
}

/// The address prefix under which every transaction of an election (and,
/// when `t` is given, of that kind) is stored.
pub open spec fn address_prefix_of(e: Identifier, t: Option<TransactionType>) -> Seq<char> {
    match t {
        Some(tt) => namespace_tag_spec() + hex_of(e.election_id@) + byte_hex(tt.spec_code()),
        None => namespace_tag_spec() + hex_of(e.election_id@),
    }
}

/// `p` starts `s`.
pub open spec fn is_prefix(p: Seq<char>, s: Seq<char>) -> bool {
    p.len() <= s.len() && s.subrange(0, p.len() as int) == p
}

/// The six-digit namespace tag that starts every address.
pub fn namespace_tag() -> (r: String)
    ensures
        r@ == namespace_tag_spec(),
{
    let label: [u8; 12] = [99, 114, 121, 112, 116, 111, 98, 97, 108, 108, 111, 116];
    assert(label@ =~= namespace_label());
    let digest = sha512(&label);
    let mut head: Vec<u8> = Vec::with_capacity(3);
    head.push(digest[0]);
    head.push(digest[1]);
    head.push(digest[2]);
    assert(head@ =~= digest@.subrange(0, 3));
    to_hex_string(&head)
}

/// The application's part of the ledger's address space: the namespace tag,
/// computed once and then only read.
pub struct AddressSpace {
    tag: String,
}

impl AddressSpace {
    pub closed spec fn wf(&self) -> bool {
        self.tag@ == namespace_tag_spec()
    }

    /// The address space of this application.
    pub fn new() -> (r: AddressSpace)
        ensures
            r.wf(),
    {
        AddressSpace { tag: namespace_tag() }
    }

    /// The ledger address of `ident`.
    pub fn address(&self, ident: Identifier) -> (r: String)
        requires
            self.wf(),
        ensures
            r@ == address_of(ident),
    {
        let mut out = self.tag.clone();
        let body = to_hex_string(&ident.to_bytes());
        out.append(body.as_str());
        out
    }

    /// The address prefix of the election of `election_id`, narrowed to one
    /// kind of transaction when `tx_type` is given.
    pub fn prefix(&self, election_id: Identifier, tx_type: Option<TransactionType>) -> (r: String)
        requires
            self.wf(),
        ensures
            r@ == address_prefix_of(election_id, tx_type),
    {
        let mut out = self.tag.clone();
        let mut scope: Vec<u8> = Vec::with_capacity(15);
        let mut i: usize = 0;
        while i < 15
            invariant
                i <= 15,
                scope@ =~= election_id.election_id@.subrange(0, i as int),
            decreases 15 - i,
        {
            scope.push(election_id.election_id[i]);
            i = i + 1;
        }
        assert(scope@ =~= election_id.election_id@);
        let scope_hex = to_hex_string(&scope);
        out.append(scope_hex.as_str());
        match tx_type {
            Some(t) => {
                let mut one: Vec<u8> = Vec::with_capacity(1);
                one.push(t.code());
                let kind_hex = to_hex_string(&one);
                proof {
                    assert(one@ =~= seq![t.spec_code()]);
                    lemma_hex_single(t.spec_code());
                }
                out.append(kind_hex.as_str());
            },
            None => {},
        }
        out
    }
}

/// The ledger address of `ident`: the namespace tag followed by the
/// hexadecimal form of its 32-byte encoding.
pub fn identifier_to_address(ident: Identifier) -> (r: String)
    ensures
        r@ == address_of(ident),
{
    AddressSpace::new().address(ident)
}

/// The address prefix of the election of `election_id`, narrowed to one
/// kind of transaction when `tx_type` is given.
pub fn identifier_to_address_prefix(election_id: Identifier, tx_type: Option<TransactionType>) -> (r: String)
    ensures
        r@ == address_prefix_of(election_id, tx_type),
{
    AddressSpace::new().prefix(election_id, tx_type)
}

/// An address is a function of the identifier's encoding alone: the namespace
/// tag is fixed, so equal identifiers give the same address in every call
/// and every process.
pub proof fn lemma_address_deterministic(a: Identifier, b: Identifier)
    requires
        ident_bytes(a) == ident_bytes(b),
    ensures
        address_of(a) == address_of(b),
{
}

/// The election prefix of `e` starts the address of every identifier of that
/// election; the prefix narrowed to kind `t` starts it exactly when the
/// identifier is of kind `t`.
pub proof fn lemma_prefix_containment(e: Identifier, i: Identifier, t: TransactionType)
    requires
        i.election_id@ == e.election_id@,
    ensures
        is_prefix(address_prefix_of(e, None), address_of(i)),
        is_prefix(address_prefix_of(e, Some(t)), address_of(i)) <==> i.transaction_type == t,
{
    let tag = namespace_tag_spec();
    let c = i.transaction_type.spec_code();
    let u = unique_bytes(i.unique_id);
    lemma_hex_concat(e.election_id@, seq![c]);
    lemma_hex_concat(e.election_id@ + seq![c], u);
    lemma_hex_single(c);
    let a = address_of(i);
    assert(a =~= tag + hex_of(e.election_id@) + byte_hex(c) + hex_of(u));
    let p0 = address_prefix_of(e, None);
    assert(a.subrange(0, p0.len() as int) =~= p0);
    let p1 = address_prefix_of(e, Some(t));
    assert(a.subrange(0, p1.len() as int) =~= tag + hex_of(e.election_id@) + byte_hex(c));
    if is_prefix(p1, a) {
        let n = (tag + hex_of(e.election_id@)).len();
        assert(byte_hex(c) =~= a.subrange(0, p1.len() as int).subrange(n as int, p1.len() as int));
        assert(byte_hex(t.spec_code()) =~= p1.subrange(n as int, p1.len() as int));
        lemma_byte_hex_injective(c, t.spec_code());
    }
}

/// Identifiers with different encodings have different addresses.
pub(crate) proof fn lemma_encoding_distinct(a: Identifier, b: Identifier)
    requires
        ident_bytes(a) != ident_bytes(b),
    ensures
        address_of(a) != address_of(b),
{
    if address_of(a) == address_of(b) {
        let n = namespace_tag_spec().len() as int;
        assert(hex_of(ident_bytes(a)) =~= address_of(a).subrange(n, address_of(a).len() as int));
        assert(hex_of(ident_bytes(b)) =~= address_of(b).subrange(n, address_of(b).len() as int));
        lemma_hex_injective(ident_bytes(a), ident_bytes(b));
    }
}

/// Two identifiers that differ in election, kind or unique part have
/// different addresses, as long as both carry a unique part or neither does
/// (an absent unique part is encoded as sixteen zero bytes).
pub proof fn lemma_address_distinct(a: Identifier, b: Identifier)
    requires
        a.unique_id.is_some() == b.unique_id.is_some(),
        a.election_id@ != b.election_id@ || a.transaction_type != b.transaction_type || unique_bytes(a.unique_id)
            != unique_bytes(b.unique_id),
    ensures
        address_of(a) != address_of(b),
{
    if ident_bytes(a) == ident_bytes(b) {
        lemma_ident_bytes_injective(a, b);
    }
    lemma_encoding_distinct(a, b);
}

} // verus!
