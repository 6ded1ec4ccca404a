use tallystick::plurality::DefaultPluralityTally;
use vstd::multiset::Multiset;
use vstd::prelude::*;
use vstd::utf8::{decode_utf8, valid_utf8};

verus! {

/// A plurality tally of text selections, one vote each.
#[verifier::external_body]
pub struct SelectionTally {
    inner: DefaultPluralityTally<String>,
}

/// The votes that a tally has received.
pub uninterp spec fn tally_votes(t: SelectionTally) -> Multiset<Seq<char>>;

/// `s` has been voted for, and no selection has more votes.
pub open spec fn is_top(m: Multiset<Seq<char>>, s: Seq<char>) -> bool {
    m.count(s) > 0 && forall|x: Seq<char>| m.count(x) <= m.count(s)
}

/// Some entry of `v` reads `s`.
pub open spec fn lists_text(v: Seq<String>, s: Seq<char>) -> bool {
    exists|i: int| 0 <= i < v.len() && #[trigger] v[i]@ == s
}

/// Some entry of `v` has `s` as its selection.
pub open spec fn lists_selection(v: Seq<(String, u64)>, s: Seq<char>) -> bool {
    exists|i: int| 0 <= i < v.len() && #[trigger] v[i].0@ == s
}

/// Relies on tallystick's `PluralityTally::new`: a tally with no votes,
/// which asks for one winner.
#[verifier::external_body]
fn tally_new() -> (t: SelectionTally)
    ensures
        tally_votes(t) =~= Multiset::<Seq<char>>::empty(),
{
    SelectionTally { inner: DefaultPluralityTally::new(1) }
}

/// Relies on tallystick's `PluralityTally::add`: one more vote for `vote`,
/// counted in a `u64`.
#[verifier::external_body]
fn tally_add(t: &mut SelectionTally, vote: String)
    requires
        tally_votes(*old(t)).count(vote@) < u64::MAX,
    ensures
        tally_votes(*final(t)) == tally_votes(*old(t)).insert(vote@),
{
    t.inner.add(vote)
}

/// Relies on tallystick's `PluralityTally::winners` and
/// `RankedWinners::into_unranked`: with one winner asked for, every selection
/// tied at the highest count, each once.
#[verifier::external_body]
fn tally_unranked_winners(t: &SelectionTally) -> (r: Vec<String>)
    ensures
        forall|i: int| 0 <= i < r@.len() ==> is_top(tally_votes(*t), #[trigger] r@[i]@),
        forall|s: Seq<char>| is_top(tally_votes(*t), s) ==> lists_text(r@, s),
        forall|i: int, j: int| 0 <= i < j < r@.len() ==> r@[i]@ != r@[j]@,
{
    t.inner.winners().into_unranked()
}

/// Relies on tallystick's `PluralityTally::totals`: every selection voted
/// for, each once, with its number of votes.
#[verifier::external_body]
fn tally_totals(t: &SelectionTally) -> (r: Vec<(String, u64)>)
    ensures
        forall|i: int| 0 <= i < r@.len() ==> tally_votes(*t).count(#[trigger] r@[i].0@) > 0
            && r@[i].1 as nat == tally_votes(*t).count(r@[i].0@),
        forall|s: Seq<char>| tally_votes(*t).count(s) > 0 ==> lists_selection(r@, s),
        forall|i: int, j: int| 0 <= i < j < r@.len() ==> r@[i].0@ != r@[j].0@,
{
    t.inner.totals()
}

/// Relies on `std::str::from_utf8`: the text of `b` when it is valid UTF-8.
#[verifier::external_body]
fn utf8_text(b: &[u8]) -> (r: Option<String>)
    ensures
        r.is_some() == valid_utf8(b@),
        r matches Some(s) ==> s@ == decode_utf8(b@),
{
    std::str::from_utf8(b).ok().map(|s| s.to_owned())
}

/// The selections of a list of votes, each vote decoded as UTF-8.
pub open spec fn selections(votes: Seq<Vec<u8>>) -> Multiset<Seq<char>>
    decreases votes.len(),
{
    if votes.len() == 0 {
        Multiset::empty()
    } else {
        selections(votes.drop_last()).insert(decode_utf8(votes.last()@))
    }
}

/// The first vote that is not valid UTF-8, if any.
pub open spec fn first_malformed(votes: Seq<Vec<u8>>, k: int) -> bool {
    0 <= k < votes.len() && !valid_utf8(votes[k]@) && forall|j: int| 0 <= j < k ==> valid_utf8(#[trigger] votes[j]@)
}

/// Why a tally could not be made.
#[derive(Clone, Copy, Debug, PartialEq, Eq, Structural)]
pub enum TallyError {
    /// The vote at this position is not valid UTF-8.
    MalformedVote(usize),
}

/// The outcome of a tally: each selection with its count, and the unranked
/// winners, the selections tied at the highest count.
pub struct TallyResult {
    pub totals: Vec<(String, u64)>,
    pub winners: Vec<String>,
}

/// Tallies decrypted votes, one selection each, by plurality.
pub fn tally_selections(votes: &Vec<Vec<u8>>) -> (r: Result<TallyResult, TallyError>)
    ensures
        r matches Err(TallyError::MalformedVote(k)) ==> first_malformed(votes@, k as int),
        r.is_ok() <==> forall|j: int| 0 <= j < votes@.len() ==> valid_utf8(#[trigger] votes@[j]@),
        r matches Ok(res) ==> {
            let m = selections(votes@);
            &&& forall|i: int| 0 <= i < res.winners@.len() ==> is_top(m, #[trigger] res.winners@[i]@)
            &&& forall|s: Seq<char>| is_top(m, s) ==> lists_text(res.winners@, s)
            &&& forall|i: int, j: int| 0 <= i < j < res.winners@.len() ==> res.winners@[i]@ != res.winners@[j]@
            &&& forall|i: int| 0 <= i < res.totals@.len() ==> m.count(#[trigger] res.totals@[i].0@) > 0
                && res.totals@[i].1 as nat == m.count(res.totals@[i].0@)
            &&& forall|s: Seq<char>| m.count(s) > 0 ==> lists_selection(res.totals@, s)
            &&& forall|i: int, j: int| 0 <= i < j < res.totals@.len() ==> res.totals@[i].0@ != res.totals@[j].0@
        },
{
    let mut t = tally_new();
    let mut i: usize = 0;
    while i < votes.len()
        invariant
            i <= votes@.len(),
            tally_votes(t) == selections(votes@.subrange(0, i as int)),
            forall|j: int| 0 <= j < i ==> valid_utf8(#[trigger] votes@[j]@),
        decreases votes@.len() - i,
    {
        match utf8_text(votes[i].as_slice()) {
            Some(s) => {
                proof {
                    lemma_selection_count_bound(votes@.subrange(0, i as int), s@);
                    assert(votes@.subrange(0, i + 1).drop_last() =~= votes@.subrange(0, i as int));
                }
                tally_add(&mut t, s);
            },
            None => {
                return Err(TallyError::MalformedVote(i));
            },
        }
        i = i + 1;
    }
    assert(votes@.subrange(0, i as int) =~= votes@);
    assert(tally_votes(t) == selections(votes@));
    let totals = tally_totals(&t);
    let winners = tally_unranked_winners(&t);
    Ok(TallyResult { totals, winners })
}

proof fn lemma_selection_count_bound(votes: Seq<Vec<u8>>, s: Seq<char>)
    ensures
        selections(votes).count(s) <= votes.len(),
    decreases votes.len(),
{
    if votes.len() > 0 {
        lemma_selection_count_bound(votes.drop_last(), s);
    }
}

} // verus!
