use cryptoballot_cli::tally::{tally_selections, TallyError};

fn votes(names: &[&str]) -> Vec<Vec<u8>> {
    names.iter().map(|n| n.as_bytes().to_vec()).collect()
}

fn count_of(totals: &[(String, u64)], name: &str) -> u64 {
    totals.iter().filter(|(s, _)| s == name).map(|(_, c)| *c).sum()
}

#[test]
fn plurality_counts_and_winner() {
    let r = tally_selections(&votes(&["A", "B", "A", "C", "A"])).unwrap();
    assert_eq!(r.totals.len(), 3);
    assert_eq!(count_of(&r.totals, "A"), 3);
    assert_eq!(count_of(&r.totals, "B"), 1);
    assert_eq!(count_of(&r.totals, "C"), 1);
    assert_eq!(r.winners, vec!["A".to_string()]);
}

#[test]
fn tie_reports_every_top_selection() {
    let r = tally_selections(&votes(&["A", "B"])).unwrap();
    assert_eq!(count_of(&r.totals, "A"), 1);
    assert_eq!(count_of(&r.totals, "B"), 1);
    assert_eq!(r.winners.len(), 2);
    assert!(r.winners.contains(&"A".to_string()));
    assert!(r.winners.contains(&"B".to_string()));
}

#[test]
fn tally_result_does_not_depend_on_order() {
    let r = tally_selections(&votes(&["C", "A", "A", "B", "A"])).unwrap();
    assert_eq!(count_of(&r.totals, "A"), 3);
    assert_eq!(r.winners, vec!["A".to_string()]);
}

#[test]
fn empty_tally_has_no_winner() {
    let r = tally_selections(&Vec::new()).unwrap();
    assert!(r.totals.is_empty());
    assert!(r.winners.is_empty());
}

#[test]
fn malformed_vote_is_reported_by_position() {
    let mut v = votes(&["A", "B"]);
    v.push(vec![0xff, 0xfe]);
    v.push(vec![0xc3]);
    assert!(matches!(tally_selections(&v), Err(TallyError::MalformedVote(2))));
}
