use channels_lite::channels::channel_subscriber::Channel;
use channels_lite::channels::exchange::{
    Action, ContentType, Event, Header, Notice, Outcome, Reason,
};
use channels_lite::channels::link::{duplicate_option, Link};

fn link(appinst: &str, msgid: &str) -> Link {
    Link::new(appinst.to_string(), msgid.to_string())
}

fn typed(kinds: &[ContentType]) -> Vec<Header> {
    kinds.iter().map(|k| Header::Typed(*k)).collect()
}

fn new_subscriber() -> Channel {
    Channel::new("CHANNEL".to_string(), "ANNOUNCE".to_string())
}

fn connected_subscriber() -> Channel {
    let mut channel = new_subscriber();
    channel.connect();
    channel.advance(Event::Fetched(typed(&[ContentType::Announce])));
    channel.advance(Event::Accepted);
    channel.advance(Event::Wrapped(link("CHANNEL", "SUBSCRIBE")));
    channel.advance(Event::Sent);
    channel
}

#[test]
fn new_subscriber_is_not_connected() {
    let channel = new_subscriber();
    assert!(!channel.is_connected());
    assert!(channel.is_idle());
    assert_eq!(channel.channel_address(), "CHANNEL");
}

#[test]
fn connect_subscribes_to_the_announcement() {
    let mut channel = new_subscriber();
    assert_eq!(channel.connect(), Action::Fetch(link("CHANNEL", "ANNOUNCE")));
    assert_eq!(
        channel.advance(Event::Fetched(typed(&[ContentType::Other, ContentType::Announce]))),
        Action::Unwrap { index: 1, kind: ContentType::Announce }
    );
    assert_eq!(
        channel.advance(Event::Accepted),
        Action::Wrap { kind: ContentType::Subscribe, link: Some(link("CHANNEL", "ANNOUNCE")) }
    );
    assert!(!channel.is_connected());
    assert_eq!(channel.advance(Event::Wrapped(link("CHANNEL", "SUBSCRIBE"))), Action::Send);
    assert!(!channel.is_connected());
    assert_eq!(
        channel.advance(Event::Sent),
        Action::Done(Outcome::Connected { subscription_tag: Some("SUBSCRIBE".to_string()) })
    );
    assert!(channel.is_connected());
    assert!(channel.is_idle());
}

#[test]
fn connect_without_announcement_says_so() {
    let mut channel = new_subscriber();
    channel.connect();
    assert_eq!(
        channel.advance(Event::Fetched(typed(&[ContentType::Keyload]))),
        Action::Note(Notice::NoAnnouncement)
    );
    assert_eq!(
        channel.advance(Event::Noted),
        Action::Done(Outcome::Connected { subscription_tag: None })
    );
    assert!(!channel.is_connected());
}

#[test]
fn connect_again_without_announcement_keeps_subscription() {
    let mut channel = connected_subscriber();
    channel.connect();
    assert_eq!(
        channel.advance(Event::Fetched(Vec::new())),
        Action::Note(Notice::NoAnnouncement)
    );
    assert_eq!(
        channel.advance(Event::Noted),
        Action::Done(Outcome::Connected { subscription_tag: Some("SUBSCRIBE".to_string()) })
    );
    assert!(channel.is_connected());
}

#[test]
fn connect_gives_up_when_announcement_is_refused() {
    let mut channel = new_subscriber();
    channel.connect();
    channel.advance(Event::Fetched(typed(&[ContentType::Announce, ContentType::Announce])));
    assert_eq!(channel.advance(Event::Rejected), Action::Abort(Reason::Refused { index: 0 }));
    assert!(!channel.is_connected());
    assert!(channel.is_idle());
}

#[test]
fn connect_gives_up_when_send_fails() {
    let mut channel = new_subscriber();
    channel.connect();
    channel.advance(Event::Fetched(typed(&[ContentType::Announce])));
    channel.advance(Event::Accepted);
    channel.advance(Event::Wrapped(link("CHANNEL", "SUBSCRIBE")));
    assert_eq!(channel.advance(Event::Failed), Action::Abort(Reason::Outside));
    assert!(!channel.is_connected());
}

#[test]
fn disconnect_unsubscribes_and_stays_connected() {
    let mut channel = connected_subscriber();
    assert_eq!(
        channel.disconnect(),
        Action::Wrap { kind: ContentType::Unsubscribe, link: Some(link("CHANNEL", "SUBSCRIBE")) }
    );
    assert_eq!(channel.advance(Event::Wrapped(link("CHANNEL", "UNSUBSCRIBE"))), Action::Send);
    assert_eq!(
        channel.advance(Event::Sent),
        Action::Done(Outcome::Disconnected { unsubscribe_tag: "UNSUBSCRIBE".to_string() })
    );
    assert!(channel.is_connected());
}

#[test]
fn disconnect_without_subscription_links_to_no_message() {
    let mut channel = new_subscriber();
    assert_eq!(channel.disconnect(), Action::Wrap { kind: ContentType::Unsubscribe, link: None });
}

#[test]
fn read_signed_counts_accepted_packets() {
    let mut channel = connected_subscriber();
    assert_eq!(
        channel.read_signed("SIGNED".to_string(), None),
        Action::Fetch(link("CHANNEL", "SIGNED"))
    );
    let headers = typed(&[
        ContentType::SignedPacket,
        ContentType::Keyload,
        ContentType::SignedPacket,
    ]);
    assert_eq!(
        channel.advance(Event::Fetched(headers)),
        Action::Unwrap { index: 0, kind: ContentType::SignedPacket }
    );
    assert_eq!(
        channel.advance(Event::Accepted),
        Action::Unwrap { index: 2, kind: ContentType::SignedPacket }
    );
    assert_eq!(channel.advance(Event::Accepted), Action::Done(Outcome::Read { packets: 2 }));
    assert!(channel.is_idle());
}

#[test]
fn read_signed_passes_over_refused_packets() {
    let mut channel = connected_subscriber();
    channel.read_signed("SIGNED".to_string(), None);
    channel.advance(Event::Fetched(typed(&[ContentType::SignedPacket, ContentType::SignedPacket])));
    assert_eq!(
        channel.advance(Event::Rejected),
        Action::Note(Notice::Rejected { index: 0, kind: ContentType::SignedPacket })
    );
    assert_eq!(
        channel.advance(Event::Noted),
        Action::Unwrap { index: 1, kind: ContentType::SignedPacket }
    );
    assert_eq!(channel.advance(Event::Accepted), Action::Done(Outcome::Read { packets: 1 }));
}

#[test]
fn read_signed_gives_up_when_payload_cannot_be_decoded() {
    let mut channel = connected_subscriber();
    channel.read_signed("SIGNED".to_string(), None);
    channel.advance(Event::Fetched(typed(&[ContentType::SignedPacket, ContentType::SignedPacket])));
    assert_eq!(channel.advance(Event::Failed), Action::Abort(Reason::Outside));
    assert!(channel.is_idle());
}

#[test]
fn read_signed_takes_in_change_of_key_first() {
    let mut channel = connected_subscriber();
    assert_eq!(
        channel.read_signed("SIGNED".to_string(), Some("CHANGEKEY".to_string())),
        Action::Fetch(link("CHANNEL", "CHANGEKEY"))
    );
    assert_eq!(
        channel.advance(Event::Fetched(typed(&[ContentType::SignedPacket, ContentType::ChangeKey]))),
        Action::Note(Notice::Unexpected { index: 0 })
    );
    assert_eq!(
        channel.advance(Event::Noted),
        Action::Unwrap { index: 1, kind: ContentType::ChangeKey }
    );
    assert_eq!(channel.advance(Event::Accepted), Action::Fetch(link("CHANNEL", "SIGNED")));
    assert_eq!(
        channel.advance(Event::Fetched(typed(&[ContentType::SignedPacket]))),
        Action::Unwrap { index: 0, kind: ContentType::SignedPacket }
    );
    assert_eq!(channel.advance(Event::Accepted), Action::Done(Outcome::Read { packets: 1 }));
}

#[test]
fn read_signed_gives_up_when_change_of_key_cannot_be_read() {
    let mut channel = connected_subscriber();
    channel.read_signed("SIGNED".to_string(), Some("CHANGEKEY".to_string()));
    assert_eq!(
        channel.advance(Event::Fetched(vec![Header::Unreadable])),
        Action::Abort(Reason::UnreadableHeader { index: 0 })
    );
    assert!(channel.is_idle());
}

#[test]
fn read_signed_when_not_connected_reads_nothing() {
    let mut channel = new_subscriber();
    assert_eq!(
        channel.read_signed("SIGNED".to_string(), None),
        Action::Note(Notice::NotConnected)
    );
    assert_eq!(channel.advance(Event::Noted), Action::Done(Outcome::Read { packets: 0 }));
}

#[test]
fn read_signed_with_change_of_key_when_not_connected_says_so_twice() {
    let mut channel = new_subscriber();
    assert_eq!(
        channel.read_signed("SIGNED".to_string(), Some("CHANGEKEY".to_string())),
        Action::Note(Notice::NotConnected)
    );
    assert_eq!(channel.advance(Event::Noted), Action::Note(Notice::NotConnected));
    assert_eq!(channel.advance(Event::Noted), Action::Done(Outcome::Read { packets: 0 }));
    assert!(channel.is_idle());
}

#[test]
fn read_tagged_counts_accepted_packets() {
    let mut channel = connected_subscriber();
    assert_eq!(
        channel.read_tagged("TAGGED".to_string()),
        Action::Fetch(link("CHANNEL", "TAGGED"))
    );
    assert_eq!(
        channel.advance(Event::Fetched(typed(&[ContentType::SignedPacket, ContentType::TaggedPacket]))),
        Action::Unwrap { index: 1, kind: ContentType::TaggedPacket }
    );
    assert_eq!(channel.advance(Event::Accepted), Action::Done(Outcome::Read { packets: 1 }));
}

#[test]
fn read_tagged_of_no_messages() {
    let mut channel = connected_subscriber();
    channel.read_tagged("TAGGED".to_string());
    assert_eq!(
        channel.advance(Event::Fetched(Vec::new())),
        Action::Done(Outcome::Read { packets: 0 })
    );
}

#[test]
fn read_tagged_when_not_connected_reads_nothing() {
    let mut channel = new_subscriber();
    assert_eq!(channel.read_tagged("TAGGED".to_string()), Action::Note(Notice::NotConnected));
    assert_eq!(channel.advance(Event::Noted), Action::Done(Outcome::Read { packets: 0 }));
}

#[test]
fn update_keyload_ends_with_first_accepted() {
    let mut channel = connected_subscriber();
    assert_eq!(
        channel.update_keyload("KEYLOAD".to_string()),
        Action::Fetch(link("CHANNEL", "KEYLOAD"))
    );
    assert_eq!(
        channel.advance(Event::Fetched(typed(&[
            ContentType::Other,
            ContentType::Keyload,
            ContentType::Keyload,
        ]))),
        Action::Note(Notice::Unexpected { index: 0 })
    );
    assert_eq!(
        channel.advance(Event::Noted),
        Action::Unwrap { index: 1, kind: ContentType::Keyload }
    );
    assert_eq!(channel.advance(Event::Accepted), Action::Done(Outcome::Updated));
}

#[test]
fn update_keyload_takes_a_change_of_key_too() {
    let mut channel = connected_subscriber();
    channel.update_keyload("KEYLOAD".to_string());
    assert_eq!(
        channel.advance(Event::Fetched(typed(&[ContentType::ChangeKey, ContentType::Keyload]))),
        Action::Unwrap { index: 0, kind: ContentType::ChangeKey }
    );
    assert_eq!(
        channel.advance(Event::Rejected),
        Action::Note(Notice::Rejected { index: 0, kind: ContentType::ChangeKey })
    );
    assert_eq!(
        channel.advance(Event::Noted),
        Action::Unwrap { index: 1, kind: ContentType::Keyload }
    );
    assert_eq!(
        channel.advance(Event::Rejected),
        Action::Note(Notice::Rejected { index: 1, kind: ContentType::Keyload })
    );
    assert_eq!(channel.advance(Event::Noted), Action::Done(Outcome::Updated));
}

#[test]
fn update_keyload_when_not_connected_does_nothing() {
    let mut channel = new_subscriber();
    assert_eq!(channel.update_keyload("KEYLOAD".to_string()), Action::Done(Outcome::Updated));
    assert!(channel.is_idle());
}

#[test]
fn update_change_key_ends_with_first_accepted() {
    let mut channel = connected_subscriber();
    assert_eq!(
        channel.update_change_key("CHANGEKEY".to_string()),
        Action::Fetch(link("CHANNEL", "CHANGEKEY"))
    );
    assert_eq!(
        channel.advance(Event::Fetched(typed(&[ContentType::Keyload, ContentType::ChangeKey]))),
        Action::Note(Notice::Unexpected { index: 0 })
    );
    assert_eq!(
        channel.advance(Event::Noted),
        Action::Unwrap { index: 1, kind: ContentType::ChangeKey }
    );
    assert_eq!(channel.advance(Event::Accepted), Action::Done(Outcome::Updated));
}

#[test]
fn update_change_key_when_not_connected_says_so() {
    let mut channel = new_subscriber();
    assert_eq!(
        channel.update_change_key("CHANGEKEY".to_string()),
        Action::Note(Notice::NotConnected)
    );
    assert_eq!(channel.advance(Event::Noted), Action::Done(Outcome::Updated));
}

#[test]
fn subscriber_event_without_operation_is_out_of_turn() {
    let mut channel = new_subscriber();
    assert_eq!(channel.advance(Event::Noted), Action::Abort(Reason::OutOfTurn));
}

#[test]
fn subscriber_event_that_answers_nothing_gives_up() {
    let mut channel = new_subscriber();
    channel.read_tagged("TAGGED".to_string());
    assert_eq!(channel.advance(Event::Sent), Action::Abort(Reason::OutOfTurn));
    assert!(channel.is_idle());
    channel.disconnect();
    assert_eq!(channel.advance(Event::Noted), Action::Abort(Reason::OutOfTurn));
    channel.disconnect();
    assert_eq!(channel.advance(Event::Failed), Action::Abort(Reason::Outside));
}

#[test]
fn optional_link_copies_are_equal() {
    let some = Some(link("CHANNEL", "TAG"));
    assert_eq!(duplicate_option(&some), some);
    assert_eq!(duplicate_option(&None), None);
}
