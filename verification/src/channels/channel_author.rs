//! Channel author

use vstd::prelude::*;
use vstd::arithmetic::power2::{lemma2_to64, lemma_pow2_strictly_increases, lemma_pow2_unfold, pow2};
use crate::channels::exchange::{Action, ContentType, Event, Outcome, Reason};
use crate::channels::inbox::{Inbox, InboxView, Progress, Scan};
use crate::channels::link::{duplicate_option, Link};
use crate::utils::response_write_signed::ResponseSigned;

verus! {

/// The height of the key tree that a new author is given.
pub const MSS_HEIGHT: u32 = 3;

/// What the author has set out to do.
#[derive(Debug, Clone, Copy, PartialEq, Eq)]
pub enum Goal {
    Open,
    AddSubscriber,
    WriteSigned { masked: bool },
    WriteTagged,
    RemoveSubscriber,
    TryChangeKey,
}

/// The operation in flight, as contracts see it.
pub ghost enum TaskView {
    /// Nothing is in flight.
    Idle,
    /// The messages at `link` are being fetched and gone through.
    Reading { goal: Goal, link: Link, inbox: InboxView },
    /// The engine has been asked to wrap a packet of this kind.
    Wrapping { goal: Goal, kind: ContentType, carried: Option<String> },
    /// The message at `link`, a packet of this kind, is being sent.
    Sending { goal: Goal, kind: ContentType, link: Link, carried: Option<String> },
}

/// The author's side of a channel, as contracts see it.
pub ghost struct ChannelView {
    pub channel_address: String,
    /// The link of the announcement, once the channel is open.
    pub announcement_link: Option<Link>,
    /// The tag of the keyload sent last; empty before the first.
    pub keyload_tag: String,
    pub mss_height: nat,
    /// How many messages can still be signed before the key is changed.
    pub remaining_signed_messages: nat,
    pub task: TaskView,
}

impl ChannelView {
    /// How many messages one key signs before it is due for a change.
    pub open spec fn capacity(self) -> nat {
        pow2(self.mss_height)
    }

    /// The key tree is no higher than a count of 32 bits allows, and no more
    /// signatures are left than one key gives.
    pub open spec fn wf(self) -> bool {
        &&& self.mss_height < 32
        &&& self.remaining_signed_messages <= self.capacity()
    }

    /// What a channel is when it has just been made.
    pub open spec fn fresh(channel_address: String, keyload_tag: String) -> ChannelView {
        ChannelView {
            channel_address,
            announcement_link: None,
            keyload_tag,
            mss_height: MSS_HEIGHT as nat,
            remaining_signed_messages: pow2(MSS_HEIGHT as nat),
            task: TaskView::Idle,
        }
    }

    /// The channel with this operation in flight.
    pub open spec fn with_task(self, task: TaskView) -> ChannelView {
        ChannelView { task, ..self }
    }

    /// The channel with nothing in flight.
    pub open spec fn idle(self) -> ChannelView {
        self.with_task(TaskView::Idle)
    }

    /// The channel with this announcement on record.
    pub open spec fn announced(self, announcement: Link) -> ChannelView {
        ChannelView { announcement_link: Some(announcement), ..self }
    }

    /// The channel with this keyload as the one shared last.
    pub open spec fn keyed(self, keyload_tag: String) -> ChannelView {
        ChannelView { keyload_tag, ..self }
    }

    /// True when the channel is going through messages for `goal` and
    /// `event` brings that to a good end.
    pub open spec fn finishes_reading(self, goal: Goal, event: Event) -> bool {
        &&& self.task matches TaskView::Reading { goal: reading, inbox, .. }
        &&& reading == goal
        &&& inbox.next(event).1 is Finished
    }

    /// The link to the message with this tag in the author's channel.
    pub open spec fn link_to(self, tag: String) -> Link {
        Link { appinst: self.channel_address, msgid: tag }
    }

    /// True when the key has to be changed before anything more is signed.
    pub open spec fn key_is_spent(self) -> bool {
        self.remaining_signed_messages == 0
    }

    /// The channel with one signature less to give.
    pub open spec fn spend_one(self) -> ChannelView {
        ChannelView {
            remaining_signed_messages: (self.remaining_signed_messages - 1) as nat,
            ..self
        }
    }

    /// The channel with a key that has signed nothing yet.
    pub open spec fn renewed(self) -> ChannelView {
        ChannelView { remaining_signed_messages: self.capacity(), ..self }
    }

    /// Asks the engine to wrap a packet of this kind, linked to `link`.
    pub open spec fn wrap(self, goal: Goal, kind: ContentType, link: Option<Link>, carried: Option<String>) -> (ChannelView, Action) {
        (self.with_task(TaskView::Wrapping { goal, kind, carried }), Action::Wrap { kind, link })
    }

    /// Asks for the messages at `link`, to go through them with `scan`.
    pub open spec fn fetch(self, goal: Goal, link: Link, scan: Scan) -> (ChannelView, Action) {
        (
            self.with_task(TaskView::Reading { goal, link, inbox: InboxView::fresh(scan) }),
            Action::Fetch(link),
        )
    }

    /// Ends the operation with what it has come to.
    pub open spec fn done(self, outcome: Outcome) -> (ChannelView, Action) {
        (self.idle(), Action::Done(outcome))
    }

    /// Gives the operation up.
    pub open spec fn abort(self, reason: Reason) -> (ChannelView, Action) {
        (self.idle(), Action::Abort(reason))
    }

    /// The link that a signed packet is attached to: the keyload for a
    /// masked packet, the announcement for a public one.
    pub open spec fn signing_link(self, masked: bool) -> Option<Link> {
        if masked {
            Some(self.link_to(self.keyload_tag))
        } else {
            self.announcement_link
        }
    }

    /// Asks the engine to sign a packet; `change_key_tag` is the tag of the
    /// change of key that went before, if one did.
    pub open spec fn sign(self, masked: bool, change_key_tag: Option<String>) -> (ChannelView, Action) {
        self.wrap(
            Goal::WriteSigned { masked },
            ContentType::SignedPacket,
            self.signing_link(masked),
            change_key_tag,
        )
    }

    /// Asks the engine for a change of key, linked to the announcement.
    pub open spec fn change_key(self, goal: Goal) -> (ChannelView, Action) {
        self.wrap(goal, ContentType::ChangeKey, self.announcement_link, None)
    }

    /// How opening begins: with the announcement, which is linked to nothing.
    pub open spec fn begin_open(self) -> (ChannelView, Action) {
        self.wrap(Goal::Open, ContentType::Announce, None, None)
    }

    /// How adding a subscriber begins: with the messages under its tag.
    pub open spec fn begin_add_subscriber(self, subscribe_tag: String) -> (ChannelView, Action) {
        self.fetch(Goal::AddSubscriber, self.link_to(subscribe_tag), Scan::Subscribe)
    }

    /// How removing a subscriber begins: with the messages under its tag.
    pub open spec fn begin_remove_subscriber(self, unsubscribe_tag: String) -> (ChannelView, Action) {
        self.fetch(Goal::RemoveSubscriber, self.link_to(unsubscribe_tag), Scan::Unsubscribe)
    }

    /// How signing begins: with a change of key where the key is spent, and
    /// else with the packet, one signature counted off.
    pub open spec fn begin_write_signed(self, masked: bool) -> (ChannelView, Action) {
        if self.key_is_spent() {
            self.change_key(Goal::WriteSigned { masked })
        } else {
            self.spend_one().sign(masked, None)
        }
    }

    /// How writing a tagged packet begins: with the packet, linked to the
    /// keyload shared last.
    pub open spec fn begin_write_tagged(self) -> (ChannelView, Action) {
        self.wrap(
            Goal::WriteTagged,
            ContentType::TaggedPacket,
            Some(self.link_to(self.keyload_tag)),
            None,
        )
    }

    /// How a change of key begins where it is due or forced; where it is
    /// neither, one signature is counted off and that is all.
    pub open spec fn begin_try_change_key(self, force: bool) -> (ChannelView, Action) {
        if self.key_is_spent() || force {
            self.change_key(Goal::TryChangeKey)
        } else {
            self.spend_one().done(Outcome::KeyChange { change_key_tag: None })
        }
    }

    /// What follows when the fetched messages have been gone through.
    pub open spec fn after_reading(self, goal: Goal, link: Link) -> (ChannelView, Action) {
        if goal is AddSubscriber {
            self.wrap(goal, ContentType::Keyload, Some(link), None)
        } else {
            self.done(Outcome::SubscriberRemoved)
        }
    }

    /// What the engine's wrapping of a packet changes: a key change gives a
    /// key that has signed nothing yet.
    pub open spec fn after_wrapping(self, kind: ContentType) -> ChannelView {
        if kind is ChangeKey {
            self.renewed()
        } else {
            self
        }
    }

    /// What follows when the message at `link` has been sent.
    pub open spec fn after_sending(self, goal: Goal, kind: ContentType, link: Link, carried: Option<String>) -> (ChannelView, Action) {
        match goal {
            Goal::Open => self.announced(link).done(
                Outcome::Opened {
                    channel_address: self.channel_address,
                    announcement_tag: link.msgid,
                },
            ),
            Goal::AddSubscriber => self.keyed(link.msgid).done(
                Outcome::SubscriberAdded { keyload_tag: link.msgid },
            ),
            Goal::WriteSigned { masked } => if kind is ChangeKey {
                self.sign(masked, Some(link.msgid))
            } else {
                self.done(
                    Outcome::Signed(
                        ResponseSigned { signed_message_tag: link.msgid, change_key_tag: carried },
                    ),
                )
            },
            Goal::WriteTagged => self.done(Outcome::Tagged { tagged_message_tag: link.msgid }),
            Goal::RemoveSubscriber => self.done(Outcome::SubscriberRemoved),
            Goal::TryChangeKey => self.done(Outcome::KeyChange { change_key_tag: Some(link.msgid) }),
        }
    }

    /// The channel after `event`, and what it asks for next.
    pub open spec fn next(self, event: Event) -> (ChannelView, Action) {
        match self.task {
            TaskView::Idle => self.abort(Reason::OutOfTurn),
            TaskView::Reading { goal, link, inbox } => {
                let (inbox, progress) = inbox.next(event);
                match progress {
                    Progress::Unwrap { index, kind } => (
                        self.with_task(TaskView::Reading { goal, link, inbox }),
                        Action::Unwrap { index, kind },
                    ),
                    Progress::Note(notice) => (
                        self.with_task(TaskView::Reading { goal, link, inbox }),
                        Action::Note(notice),
                    ),
                    Progress::Finished => self.after_reading(goal, link),
                    Progress::Broken(reason) => self.abort(reason),
                }
            },
            TaskView::Wrapping { goal, kind, carried } => match event {
                Event::Wrapped(link) => (
                    self.after_wrapping(kind).with_task(
                        TaskView::Sending { goal, kind, link, carried },
                    ),
                    Action::Send,
                ),
                Event::Failed => self.abort(Reason::Outside),
                _ => self.abort(Reason::OutOfTurn),
            },
            TaskView::Sending { goal, kind, link, carried } => match event {
                Event::Sent => self.after_sending(goal, kind, link, carried),
                Event::Failed => self.abort(Reason::Outside),
                _ => self.abort(Reason::OutOfTurn),
            },
        }
    }
}

/// Two to the power of `exponent`.
pub fn power_of_two(exponent: u32) -> (power: u32)
    requires
        exponent < 32,
    ensures
        power == pow2(exponent as nat),
{
    proof {
        lemma2_to64();
    }
    let mut power: u32 = 1;
    let mut done: u32 = 0;
    while done < exponent
        invariant
            done <= exponent < 32,
            power == pow2(done as nat),
            pow2(31) == 0x8000_0000,
        decreases exponent - done,
    {
        proof {
            lemma_pow2_unfold((done + 1) as nat);
            if done + 1 < 31 {
                lemma_pow2_strictly_increases((done + 1) as nat, 31);
            }
        }
        power = power * 2;
        done = done + 1;
    }
    power
}

enum Task {
    Idle,
    Reading { goal: Goal, link: Link, inbox: Inbox },
    Wrapping { goal: Goal, kind: ContentType, carried: Option<String> },
    Sending { goal: Goal, kind: ContentType, link: Link, carried: Option<String> },
}

impl View for Task {
    type V = TaskView;

    closed spec fn view(&self) -> TaskView {
        match *self {
            Task::Idle => TaskView::Idle,
            Task::Reading { goal, link, inbox } => TaskView::Reading { goal, link, inbox: inbox@ },
            Task::Wrapping { goal, kind, carried } => TaskView::Wrapping { goal, kind, carried },
            Task::Sending { goal, kind, link, carried } => TaskView::Sending {
                goal,
                kind,
                link,
                carried,
            },
        }
    }
}

/// The author's side of a channel: what it has announced, the keyload it
/// shared last, how much its signing key can still sign, and the operation
/// that is in flight.
pub struct Channel {
    channel_address: String,
    announcement_link: Option<Link>,
    keyload_tag: String,
    mss_height: u32,
    /// Possible number of messages to sign before the key is changed.
    remaining_signed_messages: u32,
    task: Task,
}

impl View for Channel {
    type V = ChannelView;

    closed spec fn view(&self) -> ChannelView {
        ChannelView {
            channel_address: self.channel_address,
            announcement_link: self.announcement_link,
            keyload_tag: self.keyload_tag,
            mss_height: self.mss_height as nat,
            remaining_signed_messages: self.remaining_signed_messages as nat,
            task: self.task@,
        }
    }
}

impl Channel {
    #[verifier::type_invariant]
    spec fn inv(&self) -> bool {
        self@.wf()
    }

    /// Initialize the channel at the address that the engine gave it.
    pub fn new(channel_address: String) -> (channel: Channel)
        ensures
            channel@ == ChannelView::fresh(channel_address, channel@.keyload_tag),
            channel@.keyload_tag@.len() == 0,
            channel@.wf(),
    {
        Channel {
            channel_address,
            announcement_link: None,
            keyload_tag: String::new(),
            mss_height: MSS_HEIGHT,
            remaining_signed_messages: power_of_two(MSS_HEIGHT),
            task: Task::Idle,
        }
    }

    /// The address of the channel.
    pub fn channel_address(&self) -> (address: &String)
        ensures
            *address == self@.channel_address,
    {
        &self.channel_address
    }

    /// How many messages can still be signed before the key is changed.
    pub fn remaining_signed_messages(&self) -> (remaining: u32)
        ensures
            remaining == self@.remaining_signed_messages,
            self@.wf(),
    {
        proof {
            use_type_invariant(self);
        }
        self.remaining_signed_messages
    }

    /// True when no operation is in flight.
    pub fn is_idle(&self) -> (idle: bool)
        ensures
            idle == (self@.task is Idle),
    {
        match &self.task {
            Task::Idle => true,
            _ => false,
        }
    }

    fn link_to(&self, tag: &String) -> (link: Link)
        ensures
            link == self@.link_to(*tag),
    {
        Link::within(&self.channel_address, tag)
    }

    fn wrap(&mut self, goal: Goal, kind: ContentType, link: Option<Link>, carried: Option<String>) -> (action: Action)
        ensures
            (final(self)@, action) == old(self)@.wrap(goal, kind, link, carried),
    {
        proof {
            use_type_invariant(&*self);
        }
        self.task = Task::Wrapping { goal, kind, carried };
        Action::Wrap { kind, link }
    }

    fn fetch(&mut self, goal: Goal, link: Link, scan: Scan) -> (action: Action)
        ensures
            (final(self)@, action) == old(self)@.fetch(goal, link, scan),
    {
        proof {
            use_type_invariant(&*self);
        }
        let asked = link.duplicate();
        self.task = Task::Reading { goal, link, inbox: Inbox::new(scan) };
        Action::Fetch(asked)
    }

    fn sign(&mut self, masked: bool, change_key_tag: Option<String>) -> (action: Action)
        ensures
            (final(self)@, action) == old(self)@.sign(masked, change_key_tag),
    {
        let link = if masked {
            Some(self.link_to(&self.keyload_tag))
        } else {
            duplicate_option(&self.announcement_link)
        };
        self.wrap(Goal::WriteSigned { masked }, ContentType::SignedPacket, link, change_key_tag)
    }

    fn change_key(&mut self, goal: Goal) -> (action: Action)
        ensures
            (final(self)@, action) == old(self)@.change_key(goal),
    {
        let link = duplicate_option(&self.announcement_link);
        self.wrap(goal, ContentType::ChangeKey, link, None)
    }

    /// Open a channel: announce it and send the announcement.
    pub fn open(&mut self) -> (action: Action)
        ensures
            (final(self)@, action) == old(self)@.begin_open(),
            final(self)@.wf(),
    {
        proof {
            use_type_invariant(&*self);
        }
        self.wrap(Goal::Open, ContentType::Announce, None, None)
    }

    /// Add subscriber: look for the subscription under `subscribe_tag`, then
    /// share a keyload with everyone.
    pub fn add_subscriber(&mut self, subscribe_tag: String) -> (action: Action)
        ensures
            (final(self)@, action) == old(self)@.begin_add_subscriber(subscribe_tag),
            final(self)@.wf(),
    {
        proof {
            use_type_invariant(&*self);
        }
        let link = Link::new(self.channel_address.clone(), subscribe_tag);
        self.fetch(Goal::AddSubscriber, link, Scan::Subscribe)
    }

    /// Write signed packet, after a change of key where the key is spent.
    pub fn write_signed(&mut self, masked: bool) -> (action: Action)
        ensures
            (final(self)@, action) == old(self)@.begin_write_signed(masked),
            final(self)@.wf(),
    {
        proof {
            use_type_invariant(&*self);
        }
        if self.remaining_signed_messages == 0 {
            self.change_key(Goal::WriteSigned { masked })
        } else {
            self.remaining_signed_messages = self.remaining_signed_messages - 1;
            self.sign(masked, None)
        }
    }

    /// Write tagged packet, attached to the keyload shared last.
    pub fn write_tagged(&mut self) -> (action: Action)
        ensures
            (final(self)@, action) == old(self)@.begin_write_tagged(),
            final(self)@.wf(),
    {
        proof {
            use_type_invariant(&*self);
        }
        let link = self.link_to(&self.keyload_tag);
        self.wrap(Goal::WriteTagged, ContentType::TaggedPacket, Some(link), None)
    }

    /// Remove subscriber: look for the unsubscription under `unsubscribe_tag`.
    pub fn remove_subscriber(&mut self, unsubscribe_tag: String) -> (action: Action)
        ensures
            (final(self)@, action) == old(self)@.begin_remove_subscriber(unsubscribe_tag),
            final(self)@.wf(),
    {
        proof {
            use_type_invariant(&*self);
        }
        let link = Link::new(self.channel_address.clone(), unsubscribe_tag);
        self.fetch(Goal::RemoveSubscriber, link, Scan::Unsubscribe)
    }

    /// Try to change the key: it is changed if it can sign nothing more, or
    /// if `force` says so. Otherwise one signature is counted off.
    pub fn try_change_key(&mut self, force: bool) -> (action: Action)
        ensures
            (final(self)@, action) == old(self)@.begin_try_change_key(force),
            final(self)@.wf(),
    {
        proof {
            use_type_invariant(&*self);
        }
        if self.remaining_signed_messages == 0 || force {
            self.change_key(Goal::TryChangeKey)
        } else {
            self.remaining_signed_messages = self.remaining_signed_messages - 1;
            self.task = Task::Idle;
            Action::Done(Outcome::KeyChange { change_key_tag: None })
        }
    }

    fn after_sending(&mut self, goal: Goal, kind: ContentType, link: Link, carried: Option<String>) -> (action: Action)
        requires
            old(self)@.task is Idle,
        ensures
            (final(self)@, action) == old(self)@.after_sending(goal, kind, link, carried),
    {
        proof {
            use_type_invariant(&*self);
        }
        match goal {
            Goal::Open => {
                let outcome = Outcome::Opened {
                    channel_address: self.channel_address.clone(),
                    announcement_tag: link.msgid.clone(),
                };
                self.announcement_link = Some(link);
                Action::Done(outcome)
            },
            Goal::AddSubscriber => {
                let outcome = Outcome::SubscriberAdded { keyload_tag: link.msgid.clone() };
                self.keyload_tag = link.msgid;
                Action::Done(outcome)
            },
            Goal::WriteSigned { masked } => match kind {
                ContentType::ChangeKey => self.sign(masked, Some(link.msgid)),
                _ => Action::Done(
                    Outcome::Signed(ResponseSigned::new(link.msgid, carried)),
                ),
            },
            Goal::WriteTagged => Action::Done(Outcome::Tagged { tagged_message_tag: link.msgid }),
            Goal::RemoveSubscriber => Action::Done(Outcome::SubscriberRemoved),
            Goal::TryChangeKey => Action::Done(
                Outcome::KeyChange { change_key_tag: Some(link.msgid) },
            ),
        }
    }

    /// Takes the answer to the action asked for last, and says what comes
    /// next. An operation ends with `Done` or `Abort`; the channel is idle
    /// after either.
    pub fn advance(&mut self, event: Event) -> (action: Action)
        ensures
            (final(self)@, action) == old(self)@.next(event),
            final(self)@.wf(),
    {
        proof {
            use_type_invariant(&*self);
        }
        let mut task = Task::Idle;
        core::mem::swap(&mut self.task, &mut task);
        match task {
            Task::Idle => Action::Abort(Reason::OutOfTurn),
            Task::Reading { goal, link, mut inbox } => {
                match inbox.advance(event) {
                    Progress::Unwrap { index, kind } => {
                        self.task = Task::Reading { goal, link, inbox };
                        Action::Unwrap { index, kind }
                    },
                    Progress::Note(notice) => {
                        self.task = Task::Reading { goal, link, inbox };
                        Action::Note(notice)
                    },
                    Progress::Finished => match goal {
                        Goal::AddSubscriber => self.wrap(goal, ContentType::Keyload, Some(link), None),
                        _ => Action::Done(Outcome::SubscriberRemoved),
                    },
                    Progress::Broken(reason) => Action::Abort(reason),
                }
            },
            Task::Wrapping { goal, kind, carried } => match event {
                Event::Wrapped(link) => {
                    match kind {
                        ContentType::ChangeKey => {
                            self.remaining_signed_messages = power_of_two(self.mss_height);
                        },
                        _ => {},
                    }
                    self.task = Task::Sending { goal, kind, link, carried };
                    Action::Send
                },
                Event::Failed => Action::Abort(Reason::Outside),
                _ => Action::Abort(Reason::OutOfTurn),
            },
            Task::Sending { goal, kind, link, carried } => match event {
                Event::Sent => self.after_sending(goal, kind, link, carried),
                Event::Failed => Action::Abort(Reason::Outside),
                _ => Action::Abort(Reason::OutOfTurn),
            },
        }
    }
}

/// The channel is idle exactly after an action that ends an operation, and
/// an event never changes the address or the height of the key tree.
pub proof fn lemma_idle_exactly_after_final(channel: ChannelView, event: Event)
    ensures
        ({
            let (after, action) = channel.next(event);
            &&& action.is_final() <==> after.task is Idle
            &&& after.channel_address == channel.channel_address
            &&& after.mss_height == channel.mss_height
        }),
{
}

/// No event takes the count of signatures that are left above what one key
/// can give.
pub proof fn lemma_count_stays_within_capacity(channel: ChannelView, event: Event)
    requires
        channel.wf(),
    ensures
        channel.next(event).0.wf(),
{
}

/// An event changes the count of signatures that are left only where it
/// reports that a change of key was wrapped, and then the new key is whole.
pub proof fn lemma_only_a_key_change_renews(channel: ChannelView, event: Event)
    ensures
        ({
            let after = channel.next(event).0;
            after.remaining_signed_messages != channel.remaining_signed_messages ==> {
                &&& channel.task matches TaskView::Wrapping { kind, .. }
                &&& kind is ChangeKey
                &&& event is Wrapped
                &&& after.remaining_signed_messages == channel.capacity()
            }
        }),
{
}

/// Signing asks for a change of key exactly when the key is spent, and
/// otherwise counts off exactly one signature.
pub proof fn lemma_signing_spends_or_changes(channel: ChannelView, masked: bool)
    requires
        channel.wf(),
    ensures
        ({
            let (after, action) = channel.begin_write_signed(masked);
            &&& after.wf()
            &&& action matches Action::Wrap { kind, link }
            &&& channel.key_is_spent() ==> {
                &&& kind is ChangeKey
                &&& link == channel.announcement_link
                &&& after.remaining_signed_messages == 0
            }
            &&& !channel.key_is_spent() ==> {
                &&& kind is SignedPacket
                &&& link == channel.signing_link(masked)
                &&& after.remaining_signed_messages + 1 == channel.remaining_signed_messages
            }
        }),
{
}

/// A key that is whole signs exactly as many messages as its capacity says
/// before a change is asked for: `count` signatures leave the rest, and the
/// key is spent when the rest is nothing.
pub proof fn lemma_whole_key_signs_capacity(channel: ChannelView, masked: bool, count: nat)
    requires
        channel.wf(),
        count <= channel.remaining_signed_messages,
    ensures
        signed(channel, masked, count).remaining_signed_messages + count
            == channel.remaining_signed_messages,
        signed(channel, masked, count).key_is_spent() <==> count
            == channel.remaining_signed_messages,
    decreases count,
{
    if count > 0 {
        lemma_whole_key_signs_capacity(channel, masked, (count - 1) as nat);
    }
}

/// The channel after `count` messages were signed and sent, one after the
/// other, as long as none of them asks for a change of key.
pub open spec fn signed(channel: ChannelView, masked: bool, count: nat) -> ChannelView
    decreases count,
{
    if count == 0 {
        channel
    } else {
        let before = signed(channel, masked, (count - 1) as nat);
        let (wrapping, _) = before.begin_write_signed(masked);
        let (sending, _) = wrapping.next(
            Event::Wrapped(Link { appinst: before.channel_address, msgid: before.keyload_tag }),
        );
        sending.next(Event::Sent).0
    }
}

/// The channel and its next action once the engine has wrapped the packet
/// asked for, into the message at `link`, and that message has been sent.
pub open spec fn wrapped_and_sent(channel: ChannelView, link: Link) -> (ChannelView, Action) {
    channel.next(Event::Wrapped(link)).0.next(Event::Sent)
}

/// Where the surroundings report a failure, the operation in flight is
/// given up and nothing else changes.
pub proof fn lemma_failure_gives_up(channel: ChannelView)
    requires
        !(channel.task is Idle),
    ensures
        channel.next(Event::Failed) == channel.abort(Reason::Outside),
{
}

/// Opening ends with the announcement on record, and reports the address
/// of the channel and the tag of the announcement.
pub proof fn lemma_open_completes(channel: ChannelView, announcement: Link)
    ensures
        channel.begin_open().0.next(Event::Wrapped(announcement)).1 == Action::Send,
        wrapped_and_sent(channel.begin_open().0, announcement) == channel.announced(
            announcement,
        ).done(
            Outcome::Opened {
                channel_address: channel.channel_address,
                announcement_tag: announcement.msgid,
            },
        ),
{
}

/// Once the subscriptions have been gone through, a keyload is shared,
/// linked to the place where they were looked for; when it has been sent,
/// its tag is on record and is what the operation reports.
pub proof fn lemma_add_subscriber_shares_keyload(channel: ChannelView, event: Event, keyload: Link)
    requires
        channel.finishes_reading(Goal::AddSubscriber, event),
    ensures
        channel.next(event).1 == (Action::Wrap {
            kind: ContentType::Keyload,
            link: Some(channel.task->Reading_link),
        }),
        wrapped_and_sent(channel.next(event).0, keyload) == channel.keyed(keyload.msgid).done(
            Outcome::SubscriberAdded { keyload_tag: keyload.msgid },
        ),
{
}

/// Once the unsubscriptions have been gone through, removing is complete.
pub proof fn lemma_remove_subscriber_completes(channel: ChannelView, event: Event)
    requires
        channel.finishes_reading(Goal::RemoveSubscriber, event),
    ensures
        channel.next(event) == channel.done(Outcome::SubscriberRemoved),
{
}

/// With a key that is not spent, signing counts off one signature and
/// reports the tag of the signed message, with no change of key.
pub proof fn lemma_write_signed_completes(channel: ChannelView, masked: bool, signed_message: Link)
    requires
        !channel.key_is_spent(),
    ensures
        wrapped_and_sent(channel.begin_write_signed(masked).0, signed_message)
            == channel.spend_one().done(
            Outcome::Signed(
                ResponseSigned {
                    signed_message_tag: signed_message.msgid,
                    change_key_tag: None,
                },
            ),
        ),
{
}

/// With a spent key, signing changes the key first: the new key is whole,
/// the message is signed with it and not counted off, and both tags are
/// reported.
pub proof fn lemma_write_signed_changes_key_first(
    channel: ChannelView,
    masked: bool,
    change_key: Link,
    signed_message: Link,
)
    requires
        channel.key_is_spent(),
    ensures
        wrapped_and_sent(channel.begin_write_signed(masked).0, change_key)
            == channel.renewed().sign(masked, Some(change_key.msgid)),
        wrapped_and_sent(
            wrapped_and_sent(channel.begin_write_signed(masked).0, change_key).0,
            signed_message,
        ) == channel.renewed().done(
            Outcome::Signed(
                ResponseSigned {
                    signed_message_tag: signed_message.msgid,
                    change_key_tag: Some(change_key.msgid),
                },
            ),
        ),
{
}

/// Writing a tagged packet counts off nothing and reports the packet's tag.
pub proof fn lemma_write_tagged_completes(channel: ChannelView, tagged_message: Link)
    ensures
        wrapped_and_sent(channel.begin_write_tagged().0, tagged_message) == channel.done(
            Outcome::Tagged { tagged_message_tag: tagged_message.msgid },
        ),
{
}

/// A change of key that is due or forced leaves a whole key and reports
/// the tag of the message that changed it.
pub proof fn lemma_try_change_key_completes(channel: ChannelView, force: bool, change_key: Link)
    requires
        channel.key_is_spent() || force,
    ensures
        wrapped_and_sent(channel.begin_try_change_key(force).0, change_key)
            == channel.renewed().done(
            Outcome::KeyChange { change_key_tag: Some(change_key.msgid) },
        ),
{
}

} // verus!
