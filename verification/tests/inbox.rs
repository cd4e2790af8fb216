use channels_lite::channels::exchange::{ContentType, Event, Header, Notice, Reason};
use channels_lite::channels::inbox::{find_next_stop, Inbox, Progress, Reaction, Scan};

fn typed(kinds: &[ContentType]) -> Vec<Header> {
    kinds.iter().map(|k| Header::Typed(*k)).collect()
}

#[test]
fn reaction_offers_what_the_scan_wants() {
    assert_eq!(
        Scan::Subscribe.react(Header::Typed(ContentType::Subscribe)),
        Reaction::Offer(ContentType::Subscribe)
    );
    assert_eq!(
        Scan::Keyload.react(Header::Typed(ContentType::Keyload)),
        Reaction::Offer(ContentType::Keyload)
    );
    assert_eq!(
        Scan::Keyload.react(Header::Typed(ContentType::ChangeKey)),
        Reaction::Offer(ContentType::ChangeKey)
    );
    assert_eq!(
        Scan::ChangeKey.react(Header::Typed(ContentType::ChangeKey)),
        Reaction::Offer(ContentType::ChangeKey)
    );
    assert_eq!(
        Scan::Announce.react(Header::Typed(ContentType::Announce)),
        Reaction::Offer(ContentType::Announce)
    );
    assert_eq!(
        Scan::Unsubscribe.react(Header::Typed(ContentType::Unsubscribe)),
        Reaction::Offer(ContentType::Unsubscribe)
    );
    assert_eq!(
        Scan::SignedPacket.react(Header::Typed(ContentType::SignedPacket)),
        Reaction::Offer(ContentType::SignedPacket)
    );
    assert_eq!(
        Scan::TaggedPacket.react(Header::Typed(ContentType::TaggedPacket)),
        Reaction::Offer(ContentType::TaggedPacket)
    );
}

#[test]
fn reaction_to_strangers() {
    assert_eq!(Scan::Subscribe.react(Header::Typed(ContentType::Keyload)), Reaction::Skip);
    assert_eq!(Scan::Announce.react(Header::Typed(ContentType::Other)), Reaction::Skip);
    assert_eq!(Scan::SignedPacket.react(Header::Typed(ContentType::TaggedPacket)), Reaction::Skip);
    assert_eq!(Scan::Keyload.react(Header::Typed(ContentType::Subscribe)), Reaction::Report);
    assert_eq!(Scan::ChangeKey.react(Header::Typed(ContentType::Keyload)), Reaction::Report);
}

#[test]
fn reaction_to_unreadable_header_is_abort() {
    for scan in [
        Scan::Announce,
        Scan::Subscribe,
        Scan::Unsubscribe,
        Scan::Keyload,
        Scan::ChangeKey,
        Scan::SignedPacket,
        Scan::TaggedPacket,
    ] {
        assert_eq!(scan.react(Header::Unreadable), Reaction::Abort);
    }
}

#[test]
fn scan_policies() {
    assert!(Scan::Subscribe.ends_at_accept());
    assert!(Scan::Keyload.ends_at_accept());
    assert!(!Scan::SignedPacket.ends_at_accept());
    assert!(!Scan::TaggedPacket.ends_at_accept());
    assert!(Scan::Announce.gives_up_on_refusal());
    assert!(!Scan::Subscribe.gives_up_on_refusal());
    assert!(!Scan::SignedPacket.gives_up_on_refusal());
}

#[test]
fn next_stop_passes_over_skipped_messages() {
    let headers = typed(&[
        ContentType::Announce,
        ContentType::Keyload,
        ContentType::Subscribe,
        ContentType::Subscribe,
    ]);
    assert_eq!(find_next_stop(Scan::Subscribe, &headers, 0), 2);
    assert_eq!(find_next_stop(Scan::Subscribe, &headers, 2), 2);
    assert_eq!(find_next_stop(Scan::Subscribe, &headers, 3), 3);
    assert_eq!(find_next_stop(Scan::Subscribe, &headers, 4), 4);
    assert_eq!(find_next_stop(Scan::Unsubscribe, &headers, 0), 4);
    assert_eq!(find_next_stop(Scan::ChangeKey, &headers, 0), 0);
}

#[test]
fn next_stop_of_no_messages() {
    let headers: Vec<Header> = Vec::new();
    assert_eq!(find_next_stop(Scan::Announce, &headers, 0), 0);
}

#[test]
fn next_stop_halts_at_unreadable_header() {
    let headers = vec![
        Header::Typed(ContentType::Other),
        Header::Unreadable,
        Header::Typed(ContentType::Announce),
    ];
    assert_eq!(find_next_stop(Scan::Announce, &headers, 0), 1);
}

#[test]
fn scan_stops_at_first_accepted() {
    let mut inbox = Inbox::new(Scan::Subscribe);
    let headers = typed(&[ContentType::Subscribe, ContentType::Subscribe, ContentType::Subscribe]);
    assert_eq!(
        inbox.advance(Event::Fetched(headers)),
        Progress::Unwrap { index: 0, kind: ContentType::Subscribe }
    );
    assert_eq!(
        inbox.advance(Event::Rejected),
        Progress::Note(Notice::Rejected { index: 0, kind: ContentType::Subscribe })
    );
    assert_eq!(
        inbox.advance(Event::Noted),
        Progress::Unwrap { index: 1, kind: ContentType::Subscribe }
    );
    assert_eq!(inbox.advance(Event::Accepted), Progress::Finished);
    assert_eq!(inbox.accepted(), 1);
}

#[test]
fn scan_of_packets_goes_through_all() {
    let mut inbox = Inbox::new(Scan::SignedPacket);
    let headers = typed(&[
        ContentType::SignedPacket,
        ContentType::TaggedPacket,
        ContentType::SignedPacket,
        ContentType::SignedPacket,
    ]);
    assert_eq!(
        inbox.advance(Event::Fetched(headers)),
        Progress::Unwrap { index: 0, kind: ContentType::SignedPacket }
    );
    assert_eq!(
        inbox.advance(Event::Accepted),
        Progress::Unwrap { index: 2, kind: ContentType::SignedPacket }
    );
    assert_eq!(
        inbox.advance(Event::Rejected),
        Progress::Note(Notice::Rejected { index: 2, kind: ContentType::SignedPacket })
    );
    assert_eq!(
        inbox.advance(Event::Noted),
        Progress::Unwrap { index: 3, kind: ContentType::SignedPacket }
    );
    assert_eq!(inbox.advance(Event::Accepted), Progress::Finished);
    assert_eq!(inbox.accepted(), 2);
}

#[test]
fn scan_of_no_messages_finishes_at_once() {
    let mut inbox = Inbox::new(Scan::Unsubscribe);
    assert_eq!(inbox.advance(Event::Fetched(Vec::new())), Progress::Finished);
    assert_eq!(inbox.accepted(), 0);
}

#[test]
fn scan_breaks_on_unreadable_header() {
    let mut inbox = Inbox::new(Scan::TaggedPacket);
    let headers = vec![Header::Typed(ContentType::Other), Header::Unreadable];
    assert_eq!(
        inbox.advance(Event::Fetched(headers)),
        Progress::Broken(Reason::UnreadableHeader { index: 1 })
    );
}

#[test]
fn scan_never_reaches_unreadable_header_after_accept() {
    let mut inbox = Inbox::new(Scan::Keyload);
    let headers = vec![Header::Typed(ContentType::Keyload), Header::Unreadable];
    assert_eq!(
        inbox.advance(Event::Fetched(headers)),
        Progress::Unwrap { index: 0, kind: ContentType::Keyload }
    );
    assert_eq!(inbox.advance(Event::Accepted), Progress::Finished);
}

#[test]
fn scan_for_announcement_breaks_on_refusal() {
    let mut inbox = Inbox::new(Scan::Announce);
    let headers = typed(&[ContentType::Other, ContentType::Announce, ContentType::Announce]);
    assert_eq!(
        inbox.advance(Event::Fetched(headers)),
        Progress::Unwrap { index: 1, kind: ContentType::Announce }
    );
    assert_eq!(inbox.advance(Event::Rejected), Progress::Broken(Reason::Refused { index: 1 }));
}

#[test]
fn scan_for_keyload_reports_strangers() {
    let mut inbox = Inbox::new(Scan::Keyload);
    let headers = typed(&[ContentType::Subscribe, ContentType::ChangeKey, ContentType::Keyload]);
    assert_eq!(
        inbox.advance(Event::Fetched(headers)),
        Progress::Note(Notice::Unexpected { index: 0 })
    );
    assert_eq!(
        inbox.advance(Event::Noted),
        Progress::Unwrap { index: 1, kind: ContentType::ChangeKey }
    );
    assert_eq!(
        inbox.advance(Event::Rejected),
        Progress::Note(Notice::Rejected { index: 1, kind: ContentType::ChangeKey })
    );
    assert_eq!(
        inbox.advance(Event::Noted),
        Progress::Unwrap { index: 2, kind: ContentType::Keyload }
    );
    assert_eq!(inbox.advance(Event::Accepted), Progress::Finished);
}

#[test]
fn scan_breaks_on_outside_failure() {
    let mut inbox = Inbox::new(Scan::Subscribe);
    assert_eq!(inbox.advance(Event::Failed), Progress::Broken(Reason::Outside));
}

#[test]
fn scan_breaks_on_event_out_of_turn() {
    let mut inbox = Inbox::new(Scan::Subscribe);
    assert_eq!(inbox.advance(Event::Accepted), Progress::Broken(Reason::OutOfTurn));
    let mut inbox = Inbox::new(Scan::Subscribe);
    let headers = typed(&[ContentType::Subscribe]);
    assert_eq!(
        inbox.advance(Event::Fetched(headers)),
        Progress::Unwrap { index: 0, kind: ContentType::Subscribe }
    );
    assert_eq!(inbox.advance(Event::Noted), Progress::Broken(Reason::OutOfTurn));
    assert_eq!(inbox.advance(Event::Accepted), Progress::Broken(Reason::OutOfTurn));
}

/// Drives a scan to its end, answering each offer with the verdict for that
/// message. Gives the number of accepted messages and how the scan broke.
fn drive(scan: Scan, headers: &[Header], verdicts: &[bool]) -> (usize, Option<Reason>) {
    let mut inbox = Inbox::new(scan);
    let mut progress = inbox.advance(Event::Fetched(headers.to_vec()));
    loop {
        progress = match progress {
            Progress::Unwrap { index, .. } => {
                inbox.advance(if verdicts[index] { Event::Accepted } else { Event::Rejected })
            }
            Progress::Note(_) => inbox.advance(Event::Noted),
            Progress::Finished => return (inbox.accepted(), None),
            Progress::Broken(reason) => return (inbox.accepted(), Some(reason)),
        }
    }
}

/// Goes through the messages one by one.
fn walk(scan: Scan, headers: &[Header], verdicts: &[bool]) -> (usize, Option<Reason>) {
    let mut accepted = 0;
    for (index, header) in headers.iter().enumerate() {
        match scan.react(*header) {
            Reaction::Skip | Reaction::Report => {}
            Reaction::Abort => return (accepted, Some(Reason::UnreadableHeader { index })),
            Reaction::Offer(_) => {
                if verdicts[index] {
                    accepted += 1;
                    if scan.ends_at_accept() {
                        return (accepted, None);
                    }
                } else if scan.gives_up_on_refusal() {
                    return (accepted, Some(Reason::Refused { index }));
                }
            }
        }
    }
    (accepted, None)
}

#[test]
fn driving_a_scan_comes_to_what_a_walk_comes_to() {
    let headers = vec![
        Header::Typed(ContentType::Keyload),
        Header::Typed(ContentType::SignedPacket),
        Header::Typed(ContentType::Announce),
        Header::Typed(ContentType::ChangeKey),
        Header::Typed(ContentType::SignedPacket),
        Header::Unreadable,
        Header::Typed(ContentType::Subscribe),
    ];
    let scans = [
        Scan::Announce,
        Scan::Subscribe,
        Scan::Unsubscribe,
        Scan::Keyload,
        Scan::ChangeKey,
        Scan::SignedPacket,
        Scan::TaggedPacket,
    ];
    for scan in scans {
        for bits in 0..128u32 {
            let verdicts: Vec<bool> = (0..7).map(|place| bits >> place & 1 == 1).collect();
            for length in 0..=headers.len() {
                assert_eq!(
                    drive(scan, &headers[..length], &verdicts),
                    walk(scan, &headers[..length], &verdicts)
                );
            }
        }
    }
}

#[test]
fn driving_a_scan_exact_endings() {
    let headers = vec![
        Header::Typed(ContentType::SignedPacket),
        Header::Typed(ContentType::SignedPacket),
        Header::Unreadable,
    ];
    assert_eq!(
        drive(Scan::SignedPacket, &headers, &[true, false, true]),
        (1, Some(Reason::UnreadableHeader { index: 2 }))
    );
    assert_eq!(drive(Scan::SignedPacket, &headers[..2], &[true, true]), (2, None));
    assert_eq!(drive(Scan::SignedPacket, &headers[..2], &[false, false]), (0, None));
    let announcements = vec![Header::Typed(ContentType::Announce); 3];
    assert_eq!(
        drive(Scan::Announce, &announcements, &[false, true, true]),
        (0, Some(Reason::Refused { index: 0 }))
    );
    assert_eq!(drive(Scan::Announce, &announcements, &[true, false, false]), (1, None));
}
