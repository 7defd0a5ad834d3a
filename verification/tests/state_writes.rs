use taurhaus_daemon::state_writes::{
    count_publication, may_publish, tally_publications, PublicationOutcome, PublicationTally,
};

#[test]
fn only_a_member_of_a_readable_roster_is_published() {
    let roster = vec!["lead".to_string(), "builder".to_string()];
    assert!(may_publish(Some(&roster), "builder"));
    assert!(!may_publish(Some(&roster), "stranger"));
    assert!(!may_publish(None, "builder"));
}

#[test]
fn publications_count_as_published_only_when_written() {
    let mut tally = PublicationTally { published: 0, skipped: 0 };
    for outcome in [
        PublicationOutcome::Stored(true),
        PublicationOutcome::Stored(false),
        PublicationOutcome::Refused,
        PublicationOutcome::Stored(true),
    ] {
        tally = count_publication(tally, outcome);
    }
    assert_eq!(tally, PublicationTally { published: 2, skipped: 2 });
}

#[test]
fn a_batch_counts_every_publication_once() {
    let outcomes = vec![
        PublicationOutcome::Stored(true),
        PublicationOutcome::Refused,
        PublicationOutcome::Stored(false),
        PublicationOutcome::Stored(true),
        PublicationOutcome::Stored(true),
    ];
    assert_eq!(tally_publications(&outcomes), PublicationTally { published: 3, skipped: 2 });
    assert_eq!(tally_publications(&Vec::new()), PublicationTally { published: 0, skipped: 0 });
}
