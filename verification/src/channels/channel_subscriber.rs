//! Channel subscriber

use vstd::prelude::*;
use crate::channels::exchange::{Action, ContentType, Event, Notice, Outcome, Reason};
use crate::channels::inbox::{lemma_scan_moves_forward, Inbox, InboxView, Progress, Scan};
use crate::channels::link::{duplicate_option, tag_of, Link};

verus! {

/// What the subscriber has set out to do.
#[derive(Debug, Clone, Copy, PartialEq, Eq)]
pub enum Goal {
    Connect,
    Disconnect,
    ReadSigned,
    ReadTagged,
    UpdateKeyload,
    UpdateChangeKey,
}

impl Goal {
    /// The packets that a reading operation looks for.
    pub open spec fn packet_scan(self) -> Scan {
        if self is ReadSigned {
            Scan::SignedPacket
        } else {
            Scan::TaggedPacket
        }
    }
}

/// The operation in flight, as contracts see it. `pending` is the tag of
/// the signed packet that is read once the change of key has been taken in.
pub ghost enum TaskView {
    /// Nothing is in flight.
    Idle,
    /// The messages at a link are being fetched and gone through.
    Reading { goal: Goal, inbox: InboxView, pending: Option<String> },
    /// A notice of the channel's own is on its way.
    Noting { goal: Goal, pending: Option<String> },
    /// The engine has been asked to wrap a packet.
    Wrapping { goal: Goal },
    /// The message at `link` is being sent.
    Sending { goal: Goal, link: Link },
}

/// The subscriber's side of a channel, as contracts see it.
pub ghost struct ChannelView {
    pub channel_address: String,
    pub announcement_link: Link,
    /// The link of the subscription, once there is one.
    pub subscription_link: Option<Link>,
    pub is_connected: bool,
    pub task: TaskView,
}

impl ChannelView {
    /// What a channel is when it has just been made.
    pub open spec fn fresh(channel_address: String, announcement_tag: String) -> ChannelView {
        ChannelView {
            channel_address,
            announcement_link: Link { appinst: channel_address, msgid: announcement_tag },
            subscription_link: None,
            is_connected: false,
            task: TaskView::Idle,
        }
    }

    /// The channel with this operation in flight.
    pub open spec fn with_task(self, task: TaskView) -> ChannelView {
        ChannelView { task, ..self }
    }

    /// The channel with nothing in flight.
    pub open spec fn idle(self) -> ChannelView {
        self.with_task(TaskView::Idle)
    }

    /// The channel connected by this subscription.
    pub open spec fn subscribed(self, subscription: Link) -> ChannelView {
        ChannelView { subscription_link: Some(subscription), is_connected: true, ..self }
    }

    /// True when the channel is going through messages for `goal` and
    /// `event` brings that to a good end.
    pub open spec fn finishes_reading(self, goal: Goal, event: Event) -> bool {
        &&& self.task matches TaskView::Reading { goal: reading, inbox, .. }
        &&& reading == goal
        &&& inbox.next(event).1 is Finished
    }

    /// How many messages the engine has accepted once `event` is taken in.
    pub open spec fn accepted_after(self, event: Event) -> nat {
        self.task->Reading_inbox.next(event).0.accepted
    }

    /// The link to the message with this tag in the subscriber's channel.
    pub open spec fn link_to(self, tag: String) -> Link {
        Link { appinst: self.channel_address, msgid: tag }
    }

    /// Asks the engine to wrap a packet of this kind, linked to `link`.
    pub open spec fn wrap(self, goal: Goal, kind: ContentType, link: Option<Link>) -> (ChannelView, Action) {
        (self.with_task(TaskView::Wrapping { goal }), Action::Wrap { kind, link })
    }

    /// Asks for the messages at `link`, to go through them with `scan`.
    pub open spec fn fetch(self, goal: Goal, link: Link, scan: Scan, pending: Option<String>) -> (ChannelView, Action) {
        (
            self.with_task(TaskView::Reading { goal, inbox: InboxView::fresh(scan), pending }),
            Action::Fetch(link),
        )
    }

    /// Asks for a notice to be delivered.
    pub open spec fn note(self, goal: Goal, notice: Notice, pending: Option<String>) -> (ChannelView, Action) {
        (self.with_task(TaskView::Noting { goal, pending }), Action::Note(notice))
    }

    /// Ends the operation with what it has come to.
    pub open spec fn done(self, outcome: Outcome) -> (ChannelView, Action) {
        (self.idle(), Action::Done(outcome))
    }

    /// Gives the operation up.
    pub open spec fn abort(self, reason: Reason) -> (ChannelView, Action) {
        (self.idle(), Action::Abort(reason))
    }

    /// Fetches what is under `tag` if the channel is connected, and says
    /// that it is not if it is not.
    pub open spec fn fetch_if_connected(self, goal: Goal, tag: String, scan: Scan, pending: Option<String>) -> (ChannelView, Action) {
        if self.is_connected {
            self.fetch(goal, self.link_to(tag), scan, pending)
        } else {
            self.note(goal, Notice::NotConnected, pending)
        }
    }

    /// Reads the packets under `tag`.
    pub open spec fn read_packets(self, goal: Goal, tag: String) -> (ChannelView, Action) {
        self.fetch_if_connected(goal, tag, goal.packet_scan(), None)
    }

    /// How connecting begins: with the messages at the announcement.
    pub open spec fn begin_connect(self) -> (ChannelView, Action) {
        self.fetch(Goal::Connect, self.announcement_link, Scan::Announce, None)
    }

    /// How disconnecting begins: with the unsubscription, linked to the
    /// subscription in force.
    pub open spec fn begin_disconnect(self) -> (ChannelView, Action) {
        self.wrap(Goal::Disconnect, ContentType::Unsubscribe, self.subscription_link)
    }

    /// How reading a signed packet begins: with the change of key where one
    /// came with it, and else with the packet.
    pub open spec fn begin_read_signed(self, signed_packet_tag: String, change_key_tag: Option<String>) -> (ChannelView, Action) {
        match change_key_tag {
            Some(tag) => self.fetch_if_connected(
                Goal::ReadSigned,
                tag,
                Scan::ChangeKey,
                Some(signed_packet_tag),
            ),
            None => self.read_packets(Goal::ReadSigned, signed_packet_tag),
        }
    }

    /// How reading a tagged packet begins.
    pub open spec fn begin_read_tagged(self, tagged_packet_tag: String) -> (ChannelView, Action) {
        self.read_packets(Goal::ReadTagged, tagged_packet_tag)
    }

    /// How taking in a keyload begins; a channel that is not connected is
    /// done at once.
    pub open spec fn begin_update_keyload(self, keyload_tag: String) -> (ChannelView, Action) {
        if self.is_connected {
            self.fetch(Goal::UpdateKeyload, self.link_to(keyload_tag), Scan::Keyload, None)
        } else {
            self.done(Outcome::Updated)
        }
    }

    /// How taking in a change of key begins.
    pub open spec fn begin_update_change_key(self, change_key_tag: String) -> (ChannelView, Action) {
        self.fetch_if_connected(Goal::UpdateChangeKey, change_key_tag, Scan::ChangeKey, None)
    }

    /// What follows when the fetched messages have been gone through and
    /// the engine has accepted `accepted` of them.
    pub open spec fn after_reading(self, goal: Goal, accepted: nat, pending: Option<String>) -> (ChannelView, Action) {
        match goal {
            Goal::Connect => if accepted > 0 {
                self.wrap(goal, ContentType::Subscribe, Some(self.announcement_link))
            } else {
                self.note(goal, Notice::NoAnnouncement, None)
            },
            Goal::ReadSigned => match pending {
                Some(tag) => self.read_packets(goal, tag),
                None => self.done(Outcome::Read { packets: accepted as usize }),
            },
            Goal::ReadTagged => self.done(Outcome::Read { packets: accepted as usize }),
            Goal::UpdateKeyload => self.done(Outcome::Updated),
            Goal::UpdateChangeKey => self.done(Outcome::Updated),
            Goal::Disconnect => self.abort(Reason::OutOfTurn),
        }
    }

    /// What follows when the channel's own notice has been delivered.
    pub open spec fn after_noting(self, goal: Goal, pending: Option<String>) -> (ChannelView, Action) {
        match goal {
            Goal::Connect => self.done(
                Outcome::Connected { subscription_tag: tag_of(self.subscription_link) },
            ),
            Goal::ReadSigned => match pending {
                Some(tag) => self.read_packets(goal, tag),
                None => self.done(Outcome::Read { packets: 0 }),
            },
            Goal::ReadTagged => self.done(Outcome::Read { packets: 0 }),
            Goal::UpdateChangeKey => self.done(Outcome::Updated),
            Goal::UpdateKeyload => self.abort(Reason::OutOfTurn),
            Goal::Disconnect => self.abort(Reason::OutOfTurn),
        }
    }

    /// What follows when the message at `link` has been sent.
    pub open spec fn after_sending(self, goal: Goal, link: Link) -> (ChannelView, Action) {
        match goal {
            Goal::Connect => self.subscribed(link).done(
                Outcome::Connected { subscription_tag: Some(link.msgid) },
            ),
            Goal::Disconnect => self.done(Outcome::Disconnected { unsubscribe_tag: link.msgid }),
            _ => self.abort(Reason::OutOfTurn),
        }
    }

    /// The channel after `event`, and what it asks for next.
    pub open spec fn next(self, event: Event) -> (ChannelView, Action) {
        match self.task {
            TaskView::Idle => self.abort(Reason::OutOfTurn),
            TaskView::Reading { goal, inbox, pending } => {
                let (inbox, progress) = inbox.next(event);
                match progress {
                    Progress::Unwrap { index, kind } => (
                        self.with_task(TaskView::Reading { goal, inbox, pending }),
                        Action::Unwrap { index, kind },
                    ),
                    Progress::Note(notice) => (
                        self.with_task(TaskView::Reading { goal, inbox, pending }),
                        Action::Note(notice),
                    ),
                    Progress::Finished => self.after_reading(goal, inbox.accepted, pending),
                    Progress::Broken(reason) => self.abort(reason),
                }
            },
            TaskView::Noting { goal, pending } => match event {
                Event::Noted => self.after_noting(goal, pending),
                Event::Failed => self.abort(Reason::Outside),
                _ => self.abort(Reason::OutOfTurn),
            },
            TaskView::Wrapping { goal } => match event {
                Event::Wrapped(link) => (
                    self.with_task(TaskView::Sending { goal, link }),
                    Action::Send,
                ),
                Event::Failed => self.abort(Reason::Outside),
                _ => self.abort(Reason::OutOfTurn),
            },
            TaskView::Sending { goal, link } => match event {
                Event::Sent => self.after_sending(goal, link),
                Event::Failed => self.abort(Reason::Outside),
                _ => self.abort(Reason::OutOfTurn),
            },
        }
    }
}

enum Task {
    Idle,
    Reading { goal: Goal, inbox: Inbox, pending: Option<String> },
    Noting { goal: Goal, pending: Option<String> },
    Wrapping { goal: Goal },
    Sending { goal: Goal, link: Link },
}

impl View for Task {
    type V = TaskView;

    closed spec fn view(&self) -> TaskView {
        match *self {
            Task::Idle => TaskView::Idle,
            Task::Reading { goal, inbox, pending } => TaskView::Reading {
                goal,
                inbox: inbox@,
                pending,
            },
            Task::Noting { goal, pending } => TaskView::Noting { goal, pending },
            Task::Wrapping { goal } => TaskView::Wrapping { goal },
            Task::Sending { goal, link } => TaskView::Sending { goal, link },
        }
    }
}

/// The subscriber's side of a channel: the announcement it follows, its
/// subscription, whether it is connected, and the operation in flight.
pub struct Channel {
    is_connected: bool,
    announcement_link: Link,
    subscription_link: Option<Link>,
    channel_address: String,
    task: Task,
}

impl View for Channel {
    type V = ChannelView;

    closed spec fn view(&self) -> ChannelView {
        ChannelView {
            channel_address: self.channel_address,
            announcement_link: self.announcement_link,
            subscription_link: self.subscription_link,
            is_connected: self.is_connected,
            task: self.task@,
        }
    }
}

impl Channel {
    /// Initialize the subscriber of the channel at `channel_address`, which
    /// was announced under `announcement_tag`.
    pub fn new(channel_address: String, announcement_tag: String) -> (channel: Channel)
        ensures
            channel@ == ChannelView::fresh(channel_address, announcement_tag),
    {
        Channel {
            is_connected: false,
            announcement_link: Link::new(channel_address.clone(), announcement_tag),
            subscription_link: None,
            channel_address,
            task: Task::Idle,
        }
    }

    /// The address of the channel.
    pub fn channel_address(&self) -> (address: &String)
        ensures
            *address == self@.channel_address,
    {
        &self.channel_address
    }

    /// True once the channel has subscribed to an announcement.
    pub fn is_connected(&self) -> (connected: bool)
        ensures
            connected == self@.is_connected,
    {
        self.is_connected
    }

    /// True when no operation is in flight.
    pub fn is_idle(&self) -> (idle: bool)
        ensures
            idle == (self@.task is Idle),
    {
        match &self.task {
            Task::Idle => true,
            _ => false,
        }
    }

    fn wrap(&mut self, goal: Goal, kind: ContentType, link: Option<Link>) -> (action: Action)
        ensures
            (final(self)@, action) == old(self)@.wrap(goal, kind, link),
    {
        self.task = Task::Wrapping { goal };
        Action::Wrap { kind, link }
    }

    fn fetch(&mut self, goal: Goal, link: Link, scan: Scan, pending: Option<String>) -> (action: Action)
        ensures
            (final(self)@, action) == old(self)@.fetch(goal, link, scan, pending),
    {
        self.task = Task::Reading { goal, inbox: Inbox::new(scan), pending };
        Action::Fetch(link)
    }

    fn note(&mut self, goal: Goal, notice: Notice, pending: Option<String>) -> (action: Action)
        ensures
            (final(self)@, action) == old(self)@.note(goal, notice, pending),
    {
        self.task = Task::Noting { goal, pending };
        Action::Note(notice)
    }

    fn fetch_if_connected(&mut self, goal: Goal, tag: String, scan: Scan, pending: Option<String>) -> (action: Action)
        ensures
            (final(self)@, action) == old(self)@.fetch_if_connected(goal, tag, scan, pending),
    {
        if self.is_connected {
            let link = Link::new(self.channel_address.clone(), tag);
            self.fetch(goal, link, scan, pending)
        } else {
            self.note(goal, Notice::NotConnected, pending)
        }
    }

    fn read_packets(&mut self, goal: Goal, tag: String) -> (action: Action)
        ensures
            (final(self)@, action) == old(self)@.read_packets(goal, tag),
    {
        let scan = match goal {
            Goal::ReadSigned => Scan::SignedPacket,
            _ => Scan::TaggedPacket,
        };
        self.fetch_if_connected(goal, tag, scan, None)
    }

    /// Connect: look for the announcement and subscribe to it.
    pub fn connect(&mut self) -> (action: Action)
        ensures
            (final(self)@, action) == old(self)@.begin_connect(),
    {
        let link = self.announcement_link.duplicate();
        self.fetch(Goal::Connect, link, Scan::Announce, None)
    }

    /// Disconnect: unsubscribe from the subscription in force.
    pub fn disconnect(&mut self) -> (action: Action)
        ensures
            (final(self)@, action) == old(self)@.begin_disconnect(),
    {
        let link = duplicate_option(&self.subscription_link);
        self.wrap(Goal::Disconnect, ContentType::Unsubscribe, link)
    }

    /// Read signed packet; where a change of key came with it, that is
    /// taken in first.
    pub fn read_signed(&mut self, signed_packet_tag: String, change_key_tag: Option<String>) -> (action: Action)
        ensures
            (final(self)@, action) == old(self)@.begin_read_signed(signed_packet_tag, change_key_tag),
    {
        match change_key_tag {
            Some(tag) => self.fetch_if_connected(
                Goal::ReadSigned,
                tag,
                Scan::ChangeKey,
                Some(signed_packet_tag),
            ),
            None => self.read_packets(Goal::ReadSigned, signed_packet_tag),
        }
    }

    /// Read tagged packet
    pub fn read_tagged(&mut self, tagged_packet_tag: String) -> (action: Action)
        ensures
            (final(self)@, action) == old(self)@.begin_read_tagged(tagged_packet_tag),
    {
        self.read_packets(Goal::ReadTagged, tagged_packet_tag)
    }

    /// Update keyload; a channel that is not connected leaves it at that.
    pub fn update_keyload(&mut self, keyload_tag: String) -> (action: Action)
        ensures
            (final(self)@, action) == old(self)@.begin_update_keyload(keyload_tag),
    {
        if self.is_connected {
            let link = Link::new(self.channel_address.clone(), keyload_tag);
            self.fetch(Goal::UpdateKeyload, link, Scan::Keyload, None)
        } else {
            self.task = Task::Idle;
            Action::Done(Outcome::Updated)
        }
    }

    /// Update the change key
    pub fn update_change_key(&mut self, change_key_tag: String) -> (action: Action)
        ensures
            (final(self)@, action) == old(self)@.begin_update_change_key(change_key_tag),
    {
        self.fetch_if_connected(Goal::UpdateChangeKey, change_key_tag, Scan::ChangeKey, None)
    }

    fn after_reading(&mut self, goal: Goal, accepted: usize, pending: Option<String>) -> (action: Action)
        requires
            old(self)@.task is Idle,
        ensures
            (final(self)@, action) == old(self)@.after_reading(goal, accepted as nat, pending),
    {
        match goal {
            Goal::Connect => if accepted > 0 {
                let link = self.announcement_link.duplicate();
                self.wrap(goal, ContentType::Subscribe, Some(link))
            } else {
                self.note(goal, Notice::NoAnnouncement, None)
            },
            Goal::ReadSigned => match pending {
                Some(tag) => self.read_packets(goal, tag),
                None => Action::Done(Outcome::Read { packets: accepted }),
            },
            Goal::ReadTagged => Action::Done(Outcome::Read { packets: accepted }),
            Goal::UpdateKeyload => Action::Done(Outcome::Updated),
            Goal::UpdateChangeKey => Action::Done(Outcome::Updated),
            Goal::Disconnect => Action::Abort(Reason::OutOfTurn),
        }
    }

    fn after_noting(&mut self, goal: Goal, pending: Option<String>) -> (action: Action)
        requires
            old(self)@.task is Idle,
        ensures
            (final(self)@, action) == old(self)@.after_noting(goal, pending),
    {
        match goal {
            Goal::Connect => {
                let subscription_tag = match &self.subscription_link {
                    Some(link) => Some(link.msgid.clone()),
                    None => None,
                };
                Action::Done(Outcome::Connected { subscription_tag })
            },
            Goal::ReadSigned => match pending {
                Some(tag) => self.read_packets(goal, tag),
                None => Action::Done(Outcome::Read { packets: 0 }),
            },
            Goal::ReadTagged => Action::Done(Outcome::Read { packets: 0 }),
            Goal::UpdateChangeKey => Action::Done(Outcome::Updated),
            Goal::UpdateKeyload => Action::Abort(Reason::OutOfTurn),
            Goal::Disconnect => Action::Abort(Reason::OutOfTurn),
        }
    }

    fn after_sending(&mut self, goal: Goal, link: Link) -> (action: Action)
        requires
            old(self)@.task is Idle,
        ensures
            (final(self)@, action) == old(self)@.after_sending(goal, link),
    {
        match goal {
            Goal::Connect => {
                let outcome = Outcome::Connected { subscription_tag: Some(link.msgid.clone()) };
                self.subscription_link = Some(link);
                self.is_connected = true;
                Action::Done(outcome)
            },
            Goal::Disconnect => Action::Done(Outcome::Disconnected { unsubscribe_tag: link.msgid }),
            _ => Action::Abort(Reason::OutOfTurn),
        }
    }

    /// Takes the answer to the action asked for last, and says what comes
    /// next. An operation ends with `Done` or `Abort`; the channel is idle
    /// after either.
    pub fn advance(&mut self, event: Event) -> (action: Action)
        ensures
            (final(self)@, action) == old(self)@.next(event),
    {
        let mut task = Task::Idle;
        core::mem::swap(&mut self.task, &mut task);
        match task {
            Task::Idle => Action::Abort(Reason::OutOfTurn),
            Task::Reading { goal, mut inbox, pending } => {
                match inbox.advance(event) {
                    Progress::Unwrap { index, kind } => {
                        self.task = Task::Reading { goal, inbox, pending };
                        Action::Unwrap { index, kind }
                    },
                    Progress::Note(notice) => {
                        self.task = Task::Reading { goal, inbox, pending };
                        Action::Note(notice)
                    },
                    Progress::Finished => self.after_reading(goal, inbox.accepted(), pending),
                    Progress::Broken(reason) => Action::Abort(reason),
                }
            },
            Task::Noting { goal, pending } => match event {
                Event::Noted => self.after_noting(goal, pending),
                Event::Failed => Action::Abort(Reason::Outside),
                _ => Action::Abort(Reason::OutOfTurn),
            },
            Task::Wrapping { goal } => match event {
                Event::Wrapped(link) => {
                    self.task = Task::Sending { goal, link };
                    Action::Send
                },
                Event::Failed => Action::Abort(Reason::Outside),
                _ => Action::Abort(Reason::OutOfTurn),
            },
            Task::Sending { goal, link } => match event {
                Event::Sent => self.after_sending(goal, link),
                Event::Failed => Action::Abort(Reason::Outside),
                _ => Action::Abort(Reason::OutOfTurn),
            },
        }
    }
}

/// The channel is idle exactly after an action that ends an operation, and
/// an event never changes the address or the announcement.
pub proof fn lemma_idle_exactly_after_final(channel: ChannelView, event: Event)
    ensures
        ({
            let (after, action) = channel.next(event);
            &&& action.is_final() <==> after.task is Idle
            &&& after.channel_address == channel.channel_address
            &&& after.announcement_link == channel.announcement_link
        }),
{
}

/// A channel becomes connected only when its subscription has been sent,
/// and that subscription is then the one in force.
pub proof fn lemma_connects_only_by_subscribing(channel: ChannelView, event: Event)
    requires
        !channel.is_connected,
    ensures
        channel.next(event).0.is_connected ==> {
            &&& event is Sent
            &&& channel.task matches TaskView::Sending { goal, link }
            &&& goal is Connect
            &&& channel.next(event).0.subscription_link == Some(link)
        },
{
}

/// A connected channel stays connected and keeps a subscription.
pub proof fn lemma_connected_stays_connected(channel: ChannelView, event: Event)
    requires
        channel.is_connected,
        channel.subscription_link is Some,
    ensures
        channel.next(event).0.is_connected,
        channel.next(event).0.subscription_link is Some,
{
}

/// True when the channel is not connected and waits, if for anything, for
/// a notice of its own to be delivered.
pub open spec fn shut(channel: ChannelView) -> bool {
    !channel.is_connected && (channel.task is Idle || channel.task is Noting)
}

/// True for the actions that reach out to the ledger or the engine.
pub open spec fn reaches_out(action: Action) -> bool {
    action is Fetch || action is Unwrap || action is Wrap || action is Send
}

/// A channel that is not connected reads and updates nothing: each of
/// these operations leaves it shut and reaches out for nothing.
pub proof fn lemma_unconnected_begins_nothing(channel: ChannelView, tag: String, change_key_tag: Option<String>)
    requires
        !channel.is_connected,
    ensures
        shut(channel.begin_read_signed(tag, change_key_tag).0),
        !reaches_out(channel.begin_read_signed(tag, change_key_tag).1),
        shut(channel.begin_read_tagged(tag).0),
        !reaches_out(channel.begin_read_tagged(tag).1),
        shut(channel.begin_update_keyload(tag).0),
        !reaches_out(channel.begin_update_keyload(tag).1),
        shut(channel.begin_update_change_key(tag).0),
        !reaches_out(channel.begin_update_change_key(tag).1),
{
}

/// A shut channel stays shut whatever it is told, and reaches out for
/// nothing.
pub proof fn lemma_shut_stays_shut(channel: ChannelView, event: Event)
    requires
        shut(channel),
    ensures
        shut(channel.next(event).0),
        !reaches_out(channel.next(event).1),
{
}

/// What a read reports is never more than the messages that were fetched.
pub proof fn lemma_read_counts_fetched(channel: ChannelView, event: Event)
    requires
        channel.task matches TaskView::Reading { inbox, .. } && inbox.wf(),
    ensures
        channel.next(event).1 matches Action::Done(Outcome::Read { packets }) ==> {
            &&& channel.task matches TaskView::Reading { inbox, .. }
            &&& packets == inbox.next(event).0.accepted
            &&& packets <= inbox.next(event).0.headers.len()
        },
{
    if let TaskView::Reading { inbox, .. } = channel.task {
        lemma_scan_moves_forward(inbox, event);
    }
}

/// The channel and its next action once the engine has wrapped the packet
/// asked for, into the message at `link`, and that message has been sent.
pub open spec fn wrapped_and_sent(channel: ChannelView, link: Link) -> (ChannelView, Action) {
    channel.next(Event::Wrapped(link)).0.next(Event::Sent)
}

/// Where the surroundings report a failure, the operation in flight is
/// given up and nothing else changes.
pub proof fn lemma_failure_gives_up(channel: ChannelView)
    requires
        !(channel.task is Idle),
    ensures
        channel.next(Event::Failed) == channel.abort(Reason::Outside),
{
}

/// Once an announcement has been accepted, the channel subscribes to it;
/// when the subscription has been sent, the channel is connected and
/// reports the subscription's tag.
pub proof fn lemma_connect_subscribes(channel: ChannelView, event: Event, subscription: Link)
    requires
        channel.finishes_reading(Goal::Connect, event),
        channel.accepted_after(event) > 0,
    ensures
        channel.next(event).1 == (Action::Wrap {
            kind: ContentType::Subscribe,
            link: Some(channel.announcement_link),
        }),
        wrapped_and_sent(channel.next(event).0, subscription) == channel.subscribed(
            subscription,
        ).done(Outcome::Connected { subscription_tag: Some(subscription.msgid) }),
{
}

/// Where no announcement was found, the channel says so, stays as it was,
/// and reports the tag of the subscription that it had, if any.
pub proof fn lemma_connect_without_announcement(channel: ChannelView, event: Event)
    requires
        channel.finishes_reading(Goal::Connect, event),
        channel.accepted_after(event) == 0,
    ensures
        channel.next(event).1 == Action::Note(Notice::NoAnnouncement),
        channel.next(event).0.next(Event::Noted) == channel.done(
            Outcome::Connected { subscription_tag: tag_of(channel.subscription_link) },
        ),
{
}

/// Disconnecting unsubscribes from the subscription in force, reports the
/// tag of the unsubscription, and leaves the channel as it was.
pub proof fn lemma_disconnect_completes(channel: ChannelView, unsubscription: Link)
    ensures
        channel.begin_disconnect().1 == (Action::Wrap {
            kind: ContentType::Unsubscribe,
            link: channel.subscription_link,
        }),
        wrapped_and_sent(channel.begin_disconnect().0, unsubscription) == channel.done(
            Outcome::Disconnected { unsubscribe_tag: unsubscription.msgid },
        ),
{
}

/// Once the packets have been gone through, a read reports how many of
/// them the engine accepted; an update reports that it is done.
pub proof fn lemma_read_and_update_complete(channel: ChannelView, event: Event)
    requires
        channel.task is Reading,
        channel.finishes_reading(channel.task->Reading_goal, event),
        channel.task->Reading_pending == None::<String>,
    ensures
        ({
            let goal = channel.task->Reading_goal;
            &&& goal is ReadSigned || goal is ReadTagged ==> channel.next(event) == channel.done(
                Outcome::Read { packets: channel.accepted_after(event) as usize },
            )
            &&& goal is UpdateKeyload || goal is UpdateChangeKey ==> channel.next(event)
                == channel.done(Outcome::Updated)
        }),
{
}

/// Reading a signed packet that came with a change of key: once the change
/// has been gone through, the packet itself is asked for.
pub proof fn lemma_read_signed_follows_change_of_key(channel: ChannelView, event: Event)
    requires
        channel.is_connected,
        channel.finishes_reading(Goal::ReadSigned, event),
        channel.task->Reading_pending != None::<String>,
    ensures
        channel.next(event).1 == Action::Fetch(
            channel.link_to(channel.task->Reading_pending->0),
        ),
        channel.next(event).0.task == (TaskView::Reading {
            goal: Goal::ReadSigned,
            inbox: InboxView::fresh(Scan::SignedPacket),
            pending: None,
        }),
{
}

} // verus!
