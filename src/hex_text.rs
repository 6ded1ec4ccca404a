use vstd::prelude::*;

verus! {

/// The sixteen lower-case hexadecimal digits, in order of value.
pub open spec fn hex_digits() -> Seq<char> {
    seq!['0', '1', '2', '3', '4', '5', '6', '7', '8', '9', 'a', 'b', 'c', 'd', 'e', 'f']
}

/// The two lower-case hexadecimal digits of one byte, high nibble first.
pub open spec fn byte_hex(x: u8) -> Seq<char> {
    seq![hex_digits()[(x / 16) as int], hex_digits()[(x % 16) as int]]
}

/// Lower-case hexadecimal text of a byte string: two digits per byte.
pub open spec fn hex_of(b: Seq<u8>) -> Seq<char>
    decreases b.len(),
{
    if b.len() == 0 {
        Seq::empty()
    } else {
        hex_of(b.drop_last()) + byte_hex(b.last())
    }
}

/// Hexadecimal text has two digits per byte.
pub proof fn lemma_hex_len(b: Seq<u8>)
    ensures
        hex_of(b).len() == 2 * b.len(),
    decreases b.len(),
{
    if b.len() > 0 {
        lemma_hex_len(b.drop_last());
    }
}

/// The text of a concatenation is the concatenation of the texts.
pub proof fn lemma_hex_concat(a: Seq<u8>, b: Seq<u8>)
    ensures
        hex_of(a + b) == hex_of(a) + hex_of(b),
    decreases b.len(),
{
    if b.len() == 0 {
        assert(a + b =~= a);
        assert(hex_of(a) + hex_of(b) =~= hex_of(a));
    } else {
        lemma_hex_concat(a, b.drop_last());
        assert((a + b).drop_last() =~= a + b.drop_last());
        assert(hex_of(a + b) =~= hex_of(a) + hex_of(b));
    }
}

/// The text of one byte is its two digits.
pub proof fn lemma_hex_single(x: u8)
    ensures
        hex_of(seq![x]) == byte_hex(x),
{
    assert(seq![x].drop_last() =~= Seq::<u8>::empty());
    assert(hex_of(Seq::<u8>::empty()) == Seq::<char>::empty());
    assert(hex_of(seq![x]) == hex_of(Seq::<u8>::empty()) + byte_hex(x));
    assert(hex_of(seq![x]) =~= byte_hex(x));
}

/// Distinct bytes have distinct digit pairs.
pub proof fn lemma_byte_hex_injective(x: u8, y: u8)
    requires
        byte_hex(x) == byte_hex(y),
    ensures
        x == y,
{
    let d = hex_digits();
    assert(forall|i: int, j: int| 0 <= i < 16 && 0 <= j < 16 && d[i] == d[j] ==> i == j);
    assert(byte_hex(x)[0] == byte_hex(y)[0]);
    assert(byte_hex(x)[1] == byte_hex(y)[1]);
    assert(x / 16 == y / 16);
    assert(x % 16 == y % 16);
}

/// Distinct byte strings have distinct hexadecimal text.
pub proof fn lemma_hex_injective(a: Seq<u8>, b: Seq<u8>)
    requires
        hex_of(a) == hex_of(b),
    ensures
        a == b,
    decreases a.len(),
{
    lemma_hex_len(a);
    lemma_hex_len(b);
    if a.len() > 0 {
        let ha = hex_of(a.drop_last());
        let hb = hex_of(b.drop_last());
        lemma_hex_len(a.drop_last());
        lemma_hex_len(b.drop_last());
        assert(hex_of(a) == ha + byte_hex(a.last()));
        assert(hex_of(b) == hb + byte_hex(b.last()));
        assert(ha =~= hex_of(a).subrange(0, ha.len() as int));
        assert(hb =~= hex_of(b).subrange(0, hb.len() as int));
        assert(byte_hex(a.last()) =~= hex_of(a).subrange(ha.len() as int, hex_of(a).len() as int));
        assert(byte_hex(b.last()) =~= hex_of(b).subrange(hb.len() as int, hex_of(b).len() as int));
        lemma_hex_injective(a.drop_last(), b.drop_last());
        lemma_byte_hex_injective(a.last(), b.last());
        assert(a =~= a.drop_last().push(a.last()));
        assert(b =~= b.drop_last().push(b.last()));
    }
}

/// Lower-case hexadecimal text of `bytes`, two digits per byte.
pub fn to_hex_string(bytes: &Vec<u8>) -> (r: String)
    ensures
        r@ == hex_of(bytes@),
{
    let digits = "0123456789abcdef";
    proof {
        reveal_strlit("0123456789abcdef");
    }
    assert(digits@ =~= hex_digits());
    assert(digits.is_ascii());
    let mut out = String::new();
    let mut i: usize = 0;
    while i < bytes.len()
        invariant
            i <= bytes@.len(),
            digits@ == hex_digits(),
            digits.is_ascii(),
            out@ == hex_of(bytes@.subrange(0, i as int)),
        decreases bytes@.len() - i,
    {
        let x: u8 = bytes[i];
        let hi: usize = (x / 16) as usize;
        let lo: usize = (x % 16) as usize;
        out.append(digits.substring_ascii(hi, hi + 1));
        out.append(digits.substring_ascii(lo, lo + 1));
        assert(bytes@.subrange(0, i + 1).drop_last() =~= bytes@.subrange(0, i as int));
        assert(out@ =~= hex_of(bytes@.subrange(0, i + 1)));
        i = i + 1;
    }
    assert(bytes@.subrange(0, i as int) =~= bytes@);
    out
}

} // verus!
