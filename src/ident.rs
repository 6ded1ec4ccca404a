use rand::Rng;
use vstd::prelude::*;

verus! {

/// The kind of a ledger transaction, encoded as one byte in identifiers.
#[derive(Clone, Copy, Debug, PartialEq, Eq, Structural)]
pub enum TransactionType {
    Election,
    Vote,
    SecretShare,
    Decryption,
}

impl TransactionType {
    /// The byte that stands for this kind in an identifier.
    pub open spec fn spec_code(self) -> u8 {
        match self {
            TransactionType::Election => 1,
            TransactionType::Vote => 2,
            TransactionType::SecretShare => 3,
            TransactionType::Decryption => 4,
        }
    }

    pub fn code(self) -> (r: u8)
        ensures
            r == self.spec_code(),
    {
        match self {
            TransactionType::Election => 1,
            TransactionType::Vote => 2,
            TransactionType::SecretShare => 3,
            TransactionType::Decryption => 4,
        }
    }

    /// The kind whose byte is `c`, if any.
    pub fn from_code(c: u8) -> (r: Option<TransactionType>)
        ensures
            r.is_some() <==> 1 <= c <= 4,
            r matches Some(t) ==> t.spec_code() == c,
    {
        if c == 1 {
            Some(TransactionType::Election)
        } else if c == 2 {
            Some(TransactionType::Vote)
        } else if c == 3 {
            Some(TransactionType::SecretShare)
        } else if c == 4 {
            Some(TransactionType::Decryption)
        } else {
            None
        }
    }
}

/// Names one transaction: the election it belongs to, its kind, and an
/// optional value that tells it apart from others of that kind.
#[derive(Clone, Copy, Debug, PartialEq, Eq)]
pub struct Identifier {
    pub election_id: [u8; 15],
    pub transaction_type: TransactionType,
    pub unique_id: Option<[u8; 16]>,
}

/// Sixteen zero bytes: the unique part of an identifier that has none.
pub open spec fn zero_unique() -> Seq<u8> {
    Seq::new(16, |i: int| 0u8)
}

/// The unique part of an identifier as it is encoded.
pub open spec fn unique_bytes(u: Option<[u8; 16]>) -> Seq<u8> {
    match u {
        Some(b) => b@,
        None => zero_unique(),
    }
}

/// The canonical 32-byte encoding of an identifier: election, kind, unique part.
pub open spec fn ident_bytes(id: Identifier) -> Seq<u8> {
    id.election_id@ + seq![id.transaction_type.spec_code()] + unique_bytes(id.unique_id)
}

/// Relies on rand's `thread_rng` and `Rng::gen`: sixteen random bytes.
#[verifier::external_body]
pub(crate) fn random_bytes() -> (r: [u8; 16]) {
    rand::thread_rng().gen::<[u8; 16]>()
}

impl Identifier {
    /// The identifier of a new election, with a random election part.
    pub fn new_for_election() -> (r: Identifier)
        ensures
            r.transaction_type == TransactionType::Election,
            r.unique_id matches Some(u) && u@ == zero_unique(),
    {
        let fresh = random_bytes();
        let mut election_id: [u8; 15] = [0u8; 15];
        let mut i: usize = 0;
        while i < 15
            invariant
                i <= 15,
            decreases 15 - i,
        {
            election_id.set(i, fresh[i]);
            i = i + 1;
        }
        Identifier::for_election(election_id)
    }

    /// The identifier of an election whose election part is `election_id`.
    pub fn for_election(election_id: [u8; 15]) -> (r: Identifier)
        ensures
            r.election_id == election_id,
            r.transaction_type == TransactionType::Election,
            r.unique_id matches Some(u) && u@ == zero_unique(),
    {
        let u: [u8; 16] = [0u8; 16];
        assert(u@ =~= zero_unique());
        Identifier {
            election_id,
            transaction_type: TransactionType::Election,
            unique_id: Some(u),
        }
    }

    /// The canonical 32-byte encoding of this identifier.
    pub fn to_bytes(&self) -> (r: Vec<u8>)
        ensures
            r@ == ident_bytes(*self),
            r@.len() == 32,
    {
        let mut out: Vec<u8> = Vec::with_capacity(32);
        let mut i: usize = 0;
        while i < 15
            invariant
                i <= 15,
                out@ =~= self.election_id@.subrange(0, i as int),
            decreases 15 - i,
        {
            out.push(self.election_id[i]);
            i = i + 1;
        }
        out.push(self.transaction_type.code());
        let ghost head = out@;
        let mut j: usize = 0;
        while j < 16
            invariant
                j <= 16,
                head == self.election_id@ + seq![self.transaction_type.spec_code()],
                out@ =~= head + unique_bytes(self.unique_id).subrange(0, j as int),
            decreases 16 - j,
        {
            let b: u8 = match &self.unique_id {
                Some(u) => u[j],
                None => 0u8,
            };
            out.push(b);
            j = j + 1;
        }
        assert(unique_bytes(self.unique_id).subrange(0, 16) =~= unique_bytes(self.unique_id));
        out
    }
}

/// Equal encodings of two identifiers whose unique parts are both present
/// (or both absent) mean equal election parts, kinds and unique parts.
pub proof fn lemma_ident_bytes_injective(a: Identifier, b: Identifier)
    requires
        ident_bytes(a) == ident_bytes(b),
        a.unique_id.is_some() == b.unique_id.is_some(),
    ensures
        a.election_id@ == b.election_id@,
        a.transaction_type == b.transaction_type,
        unique_bytes(a.unique_id) == unique_bytes(b.unique_id),
{
    let x = ident_bytes(a);
    assert(a.election_id@ =~= x.subrange(0, 15));
    assert(b.election_id@ =~= x.subrange(0, 15));
    assert(x[15] == a.transaction_type.spec_code());
    assert(ident_bytes(b)[15] == b.transaction_type.spec_code());
    assert(unique_bytes(a.unique_id) =~= x.subrange(16, 32));
    assert(unique_bytes(b.unique_id) =~= x.subrange(16, 32));
}

} // verus!
