//! Going through the messages fetched from one link.

use vstd::prelude::*;
use crate::channels::exchange::{ContentType, Event, Header, Notice, Reason};

verus! {

/// What an operation looks for among the messages fetched from a link.
#[derive(Debug, Clone, Copy, PartialEq, Eq)]
pub enum Scan {
    Announce,
    Subscribe,
    Unsubscribe,
    Keyload,
    ChangeKey,
    SignedPacket,
    TaggedPacket,
}

/// How a scan treats one message, judged by its header alone.
#[derive(Debug, Clone, Copy, PartialEq, Eq)]
pub enum Reaction {
    /// Pass over it in silence.
    Skip,
    /// Pass over it, and say so.
    Report,
    /// Offer it to the engine as a message of this kind.
    Offer(ContentType),
    /// Give the operation up.
    Abort,
}

impl Scan {
    /// The kinds of content that this scan offers to the engine.
    pub open spec fn wants(self, kind: ContentType) -> bool {
        match self {
            Scan::Announce => kind is Announce,
            Scan::Subscribe => kind is Subscribe,
            Scan::Unsubscribe => kind is Unsubscribe,
            Scan::Keyload => kind is Keyload || kind is ChangeKey,
            Scan::ChangeKey => kind is ChangeKey,
            Scan::SignedPacket => kind is SignedPacket,
            Scan::TaggedPacket => kind is TaggedPacket,
        }
    }

    /// True for the scans that say so when a message is of no use to them.
    pub open spec fn reports_strangers(self) -> bool {
        self is Keyload || self is ChangeKey
    }

    /// True for the scans that end with the first message the engine accepts;
    /// the others go through all of them.
    pub open spec fn stops_at_accept(self) -> bool {
        !(self is SignedPacket || self is TaggedPacket)
    }

    /// True for the scan that gives up when the engine refuses a message.
    pub open spec fn insists(self) -> bool {
        self is Announce
    }

    /// How this scan treats a message with this header.
    pub open spec fn reaction(self, header: Header) -> Reaction {
        match header {
            Header::Unreadable => Reaction::Abort,
            Header::Typed(kind) => if self.wants(kind) {
                Reaction::Offer(kind)
            } else if self.reports_strangers() {
                Reaction::Report
            } else {
                Reaction::Skip
            },
        }
    }

    /// Computes `reaction`.
    pub fn react(self, header: Header) -> (reaction: Reaction)
        ensures
            reaction == self.reaction(header),
    {
        match header {
            Header::Unreadable => Reaction::Abort,
            Header::Typed(kind) => {
                let wanted = match (self, kind) {
                    (Scan::Announce, ContentType::Announce) => true,
                    (Scan::Subscribe, ContentType::Subscribe) => true,
                    (Scan::Unsubscribe, ContentType::Unsubscribe) => true,
                    (Scan::Keyload, ContentType::Keyload) => true,
                    (Scan::Keyload, ContentType::ChangeKey) => true,
                    (Scan::ChangeKey, ContentType::ChangeKey) => true,
                    (Scan::SignedPacket, ContentType::SignedPacket) => true,
                    (Scan::TaggedPacket, ContentType::TaggedPacket) => true,
                    _ => false,
                };
                if wanted {
                    Reaction::Offer(kind)
                } else if self.ends_reporting() {
                    Reaction::Report
                } else {
                    Reaction::Skip
                }
            },
        }
    }

    fn ends_reporting(self) -> (b: bool)
        ensures
            b == self.reports_strangers(),
    {
        match self {
            Scan::Keyload => true,
            Scan::ChangeKey => true,
            _ => false,
        }
    }

    /// Computes `stops_at_accept`.
    pub fn ends_at_accept(self) -> (b: bool)
        ensures
            b == self.stops_at_accept(),
    {
        match self {
            Scan::SignedPacket => false,
            Scan::TaggedPacket => false,
            _ => true,
        }
    }

    /// Computes `insists`.
    pub fn gives_up_on_refusal(self) -> (b: bool)
        ensures
            b == self.insists(),
    {
        match self {
            Scan::Announce => true,
            _ => false,
        }
    }
}

/// The first place at or after `from` whose message the scan does not pass
/// over in silence; the number of messages where there is none.
pub open spec fn next_stop(scan: Scan, headers: Seq<Header>, from: int) -> int
    decreases headers.len() - from,
{
    if from < 0 || from >= headers.len() {
        headers.len() as int
    } else if scan.reaction(headers[from]) is Skip {
        next_stop(scan, headers, from + 1)
    } else {
        from
    }
}

/// `next_stop` is the least place from `from` on that is not skipped.
pub proof fn lemma_next_stop_is_least(scan: Scan, headers: Seq<Header>, from: int)
    requires
        0 <= from <= headers.len(),
    ensures
        from <= next_stop(scan, headers, from) <= headers.len(),
        forall|j: int|
            from <= j < next_stop(scan, headers, from) ==> scan.reaction(#[trigger] headers[j]) is Skip,
        next_stop(scan, headers, from) < headers.len() ==> !(scan.reaction(
            headers[next_stop(scan, headers, from)],
        ) is Skip),
    decreases headers.len() - from,
{
    if from < headers.len() && scan.reaction(headers[from]) is Skip {
        lemma_next_stop_is_least(scan, headers, from + 1);
    }
}

/// Finds `next_stop` by walking the headers.
pub fn find_next_stop(scan: Scan, headers: &Vec<Header>, from: usize) -> (stop: usize)
    ensures
        stop == next_stop(scan, headers@, from as int),
        stop <= headers.len(),
        from <= headers.len() ==> from <= stop,
{
    if from >= headers.len() {
        return headers.len();
    }
    let mut i: usize = from;
    while i < headers.len()
        invariant
            from <= i <= headers.len(),
            next_stop(scan, headers@, from as int) == next_stop(scan, headers@, i as int),
        decreases headers.len() - i,
    {
        match scan.react(headers[i]) {
            Reaction::Skip => {
                i = i + 1;
            },
            _ => {
                return i;
            },
        }
    }
    headers.len()
}

/// Where a scan stands.
#[derive(Debug, Clone, Copy, PartialEq, Eq)]
pub enum Cursor {
    /// The messages have been asked for.
    Fetching,
    /// The message at `index` has been offered to the engine as a `kind`.
    Offered { index: usize, kind: ContentType },
    /// A notice is on its way; the scan goes on at `next`.
    Noting { next: usize },
    /// The scan is over.
    Finished,
}

/// What a scan asks for next, or how it ended.
#[derive(Debug, Clone, Copy, PartialEq, Eq)]
pub enum Progress {
    /// Offer the message at `index` to the engine as a `kind`.
    Unwrap { index: usize, kind: ContentType },
    /// Tell the user.
    Note(Notice),
    /// The scan is over and went well.
    Finished,
    /// The scan is over and the operation has to be given up.
    Broken(Reason),
}

/// The scan of one link's messages, as contracts see it.
pub ghost struct InboxView {
    pub scan: Scan,
    pub headers: Seq<Header>,
    pub cursor: Cursor,
    /// How many messages the engine has accepted so far.
    pub accepted: nat,
}

impl InboxView {
    /// A scan that has asked for its messages and not yet got them.
    pub open spec fn fresh(scan: Scan) -> InboxView {
        InboxView { scan, headers: Seq::empty(), cursor: Cursor::Fetching, accepted: 0 }
    }

    /// The scan at its end.
    pub open spec fn finished(self) -> InboxView {
        InboxView { cursor: Cursor::Finished, ..self }
    }

    /// There are no more messages than can be counted, the cursor points
    /// into them, at a message that the scan does offer, and no more
    /// messages were accepted than were passed.
    pub open spec fn wf(self) -> bool {
        &&& self.headers.len() <= usize::MAX
        &&& self.well_placed()
    }

    /// What `wf` asks of the cursor and the count.
    pub open spec fn well_placed(self) -> bool {
        match self.cursor {
            Cursor::Fetching => self.accepted == 0 && self.headers.len() == 0,
            Cursor::Offered { index, kind } => {
                &&& index < self.headers.len()
                &&& self.scan.reaction(self.headers[index as int]) == Reaction::Offer(kind)
                &&& self.accepted <= index
            },
            Cursor::Noting { next } => next <= self.headers.len() && self.accepted <= next,
            Cursor::Finished => self.accepted <= self.headers.len(),
        }
    }

    /// Goes on from place `from`: passes over what the scan skips, and stops
    /// at the first message that asks for something else.
    pub open spec fn resume(self, from: int) -> (InboxView, Progress) {
        let stop = next_stop(self.scan, self.headers, from);
        if stop >= self.headers.len() {
            (self.finished(), Progress::Finished)
        } else {
            match self.scan.reaction(self.headers[stop]) {
                Reaction::Offer(kind) => (
                    InboxView { cursor: Cursor::Offered { index: stop as usize, kind }, ..self },
                    Progress::Unwrap { index: stop as usize, kind },
                ),
                Reaction::Report => (
                    InboxView { cursor: Cursor::Noting { next: (stop + 1) as usize }, ..self },
                    Progress::Note(Notice::Unexpected { index: stop as usize }),
                ),
                Reaction::Abort => (
                    self.finished(),
                    Progress::Broken(Reason::UnreadableHeader { index: stop as usize }),
                ),
                Reaction::Skip => (self.finished(), Progress::Finished),
            }
        }
    }

    /// The scan after `event`, and what it asks for.
    pub open spec fn next(self, event: Event) -> (InboxView, Progress) {
        match (self.cursor, event) {
            (_, Event::Failed) => (self.finished(), Progress::Broken(Reason::Outside)),
            (Cursor::Fetching, Event::Fetched(headers)) => InboxView {
                headers: headers@,
                ..self
            }.resume(0),
            (Cursor::Offered { index, kind }, Event::Accepted) => {
                let counted = InboxView { accepted: self.accepted + 1, ..self };
                if self.scan.stops_at_accept() {
                    (counted.finished(), Progress::Finished)
                } else {
                    counted.resume(index + 1)
                }
            },
            (Cursor::Offered { index, kind }, Event::Rejected) => if self.scan.insists() {
                (self.finished(), Progress::Broken(Reason::Refused { index }))
            } else {
                (
                    InboxView { cursor: Cursor::Noting { next: (index + 1) as usize }, ..self },
                    Progress::Note(Notice::Rejected { index, kind }),
                )
            },
            (Cursor::Noting { next }, Event::Noted) => self.resume(next as int),
            _ => (self.finished(), Progress::Broken(Reason::OutOfTurn)),
        }
    }
}

/// The scan of the messages fetched from one link.
pub struct Inbox {
    scan: Scan,
    headers: Vec<Header>,
    cursor: Cursor,
    accepted: usize,
}

impl View for Inbox {
    type V = InboxView;

    closed spec fn view(&self) -> InboxView {
        InboxView {
            scan: self.scan,
            headers: self.headers@,
            cursor: self.cursor,
            accepted: self.accepted as nat,
        }
    }
}

impl Inbox {
    #[verifier::type_invariant]
    spec fn inv(&self) -> bool {
        self@.wf()
    }

    /// A scan that waits for its messages.
    pub fn new(scan: Scan) -> (inbox: Inbox)
        ensures
            inbox@ == InboxView::fresh(scan),
            inbox@.wf(),
    {
        Inbox { scan, headers: Vec::new(), cursor: Cursor::Fetching, accepted: 0 }
    }

    /// How many messages the engine has accepted so far.
    pub fn accepted(&self) -> (n: usize)
        ensures
            n == self@.accepted,
    {
        self.accepted
    }

    fn resume(&mut self, from: usize) -> (progress: Progress)
        requires
            from <= old(self)@.headers.len(),
            old(self)@.accepted <= from,
        ensures
            (final(self)@, progress) == old(self)@.resume(from as int),
            final(self)@.wf(),
    {
        proof {
            lemma_next_stop_is_least(self.scan, self.headers@, from as int);
        }
        let stop = find_next_stop(self.scan, &self.headers, from);
        if stop >= self.headers.len() {
            self.cursor = Cursor::Finished;
            return Progress::Finished;
        }
        match self.scan.react(self.headers[stop]) {
            Reaction::Offer(kind) => {
                self.cursor = Cursor::Offered { index: stop, kind };
                Progress::Unwrap { index: stop, kind }
            },
            Reaction::Report => {
                self.cursor = Cursor::Noting { next: stop + 1 };
                Progress::Note(Notice::Unexpected { index: stop })
            },
            Reaction::Abort => {
                self.cursor = Cursor::Finished;
                Progress::Broken(Reason::UnreadableHeader { index: stop })
            },
            Reaction::Skip => {
                self.cursor = Cursor::Finished;
                Progress::Finished
            },
        }
    }

    /// Takes the answer to what was asked last and says what comes next.
    pub fn advance(&mut self, event: Event) -> (progress: Progress)
        ensures
            (final(self)@, progress) == old(self)@.next(event),
            old(self)@.wf(),
            final(self)@.wf(),
    {
        proof {
            use_type_invariant(&*self);
        }
        assert(self@.headers.len() == self.headers.len());
        match (self.cursor, event) {
            (_, Event::Failed) => {
                self.cursor = Cursor::Finished;
                Progress::Broken(Reason::Outside)
            },
            (Cursor::Fetching, Event::Fetched(headers)) => {
                assert(headers@.len() == headers.len());
                self.cursor = Cursor::Noting { next: 0 };
                self.headers = headers;
                self.resume(0)
            },
            (Cursor::Offered { index, kind }, Event::Accepted) => {
                self.cursor = Cursor::Noting { next: index + 1 };
                self.accepted = self.accepted + 1;
                if self.scan.ends_at_accept() {
                    self.cursor = Cursor::Finished;
                    Progress::Finished
                } else {
                    self.resume(index + 1)
                }
            },
            (Cursor::Offered { index, kind }, Event::Rejected) => {
                if self.scan.gives_up_on_refusal() {
                    self.cursor = Cursor::Finished;
                    Progress::Broken(Reason::Refused { index })
                } else {
                    self.cursor = Cursor::Noting { next: index + 1 };
                    Progress::Note(Notice::Rejected { index, kind })
                }
            },
            (Cursor::Noting { next }, Event::Noted) => self.resume(next),
            _ => {
                self.cursor = Cursor::Finished;
                Progress::Broken(Reason::OutOfTurn)
            },
        }
    }
}

impl InboxView {
    /// A bound on the number of answers that a scan under way still takes.
    pub open spec fn remaining(self) -> nat {
        match self.cursor {
            Cursor::Fetching => 0,
            Cursor::Offered { index, kind } => (2 * (self.headers.len() - index)) as nat,
            Cursor::Noting { next } => (2 * (self.headers.len() - next) + 1) as nat,
            Cursor::Finished => 0,
        }
    }

    /// True when `progress` is what the scan stands at.
    pub open spec fn stands_at(self, progress: Progress) -> bool {
        match progress {
            Progress::Unwrap { index, kind } => self.cursor == (Cursor::Offered { index, kind }),
            Progress::Note(_) => self.cursor is Noting,
            Progress::Finished => self.cursor is Finished,
            Progress::Broken(_) => self.cursor is Finished,
        }
    }
}

/// Going on from any place gives a well-formed scan of the same messages
/// with the same count. What it offers next lies at or after that place, and
/// is a message of a kind that the scan wants.
pub proof fn lemma_resume(inbox: InboxView, from: int)
    requires
        0 <= from <= inbox.headers.len() <= usize::MAX,
        inbox.accepted <= from,
    ensures
        ({
            let (after, progress) = inbox.resume(from);
            &&& after.wf()
            &&& after.stands_at(progress)
            &&& after == InboxView { cursor: after.cursor, ..inbox }
            &&& after.remaining() <= 2 * (inbox.headers.len() - from)
            &&& progress matches Progress::Unwrap { index, kind } ==> {
                &&& from <= index < inbox.headers.len()
                &&& inbox.headers[index as int] == Header::Typed(kind)
                &&& inbox.scan.wants(kind)
            }
        }),
{
    lemma_next_stop_is_least(inbox.scan, inbox.headers, from);
}

/// A well-formed scan stays well-formed whatever it is told, and keeps its
/// policy. Once the messages are there they stay the same, and every answer
/// that does not end the scan brings it nearer to its end: a scan of `n`
/// messages takes at most `2 * n` answers after them.
pub proof fn lemma_scan_moves_forward(inbox: InboxView, event: Event)
    requires
        inbox.wf(),
    ensures
        ({
            let (after, progress) = inbox.next(event);
            &&& after.wf()
            &&& after.stands_at(progress)
            &&& after.scan == inbox.scan
            &&& inbox.accepted <= after.accepted <= inbox.accepted + 1
            &&& inbox.cursor is Fetching ==> (event matches Event::Fetched(headers) ==> {
                &&& after.headers == headers@
                &&& after.remaining() <= 2 * headers@.len()
            })
            &&& !(inbox.cursor is Fetching) ==> {
                &&& after.headers == inbox.headers
                &&& after.cursor is Finished || after.remaining() < inbox.remaining()
            }
        }),
{
    match (inbox.cursor, event) {
        (Cursor::Fetching, Event::Fetched(headers)) => {
            assert(headers@.len() == headers.len());
            lemma_resume(InboxView { headers: headers@, ..inbox }, 0);
        },
        (Cursor::Offered { index, kind }, Event::Accepted) => {
            if !inbox.scan.stops_at_accept() {
                lemma_resume(InboxView { accepted: inbox.accepted + 1, ..inbox }, index + 1);
            }
        },
        (Cursor::Noting { next }, Event::Noted) => {
            lemma_resume(inbox, next as int);
        },
        _ => {},
    }
}

/// Whatever a scan offers to the engine is one of its messages, of a kind
/// that the scan wants.
pub proof fn lemma_scan_offers_what_it_wants(inbox: InboxView, event: Event)
    requires
        inbox.wf(),
    ensures
        inbox.next(event).1 matches Progress::Unwrap { index, kind } ==> {
            let after = inbox.next(event).0;
            &&& index < after.headers.len()
            &&& after.headers[index as int] == Header::Typed(kind)
            &&& after.scan.wants(kind)
        },
{
    lemma_scan_moves_forward(inbox, event);
}

/// A scan that ends with the first accepted message offers nothing after it.
pub proof fn lemma_scan_ends_with_first_accepted(inbox: InboxView)
    requires
        inbox.wf(),
        inbox.cursor is Offered,
        inbox.scan.stops_at_accept(),
    ensures
        inbox.next(Event::Accepted).1 == Progress::Finished,
        inbox.next(Event::Accepted).0.accepted == inbox.accepted + 1,
{
}

/// How a whole scan ended: how many messages the engine accepted, and why
/// the scan was given up if it was.
pub ghost struct Ending {
    pub accepted: nat,
    pub broken: Option<Reason>,
}

/// What going through `headers` from place `from` on comes to, message by
/// message, if the engine accepts the message at `i` exactly where
/// `verdicts[i]` holds.
pub open spec fn outcome(
    scan: Scan,
    headers: Seq<Header>,
    verdicts: Seq<bool>,
    from: int,
    accepted: nat,
) -> Ending
    decreases headers.len() - from,
{
    if from < 0 || from >= headers.len() {
        Ending { accepted, broken: None }
    } else {
        match scan.reaction(headers[from]) {
            Reaction::Skip => outcome(scan, headers, verdicts, from + 1, accepted),
            Reaction::Report => outcome(scan, headers, verdicts, from + 1, accepted),
            Reaction::Abort => Ending {
                accepted,
                broken: Some(Reason::UnreadableHeader { index: from as usize }),
            },
            Reaction::Offer(_) => if verdicts[from] {
                if scan.stops_at_accept() {
                    Ending { accepted: accepted + 1, broken: None }
                } else {
                    outcome(scan, headers, verdicts, from + 1, accepted + 1)
                }
            } else if scan.insists() {
                Ending { accepted, broken: Some(Reason::Refused { index: from as usize }) }
            } else {
                outcome(scan, headers, verdicts, from + 1, accepted)
            },
        }
    }
}

/// The answer to `progress` of surroundings whose engine accepts the
/// message at `i` exactly where `verdicts[i]` holds.
pub open spec fn answer(progress: Progress, verdicts: Seq<bool>) -> Event {
    match progress {
        Progress::Unwrap { index, kind } => if verdicts[index as int] {
            Event::Accepted
        } else {
            Event::Rejected
        },
        _ => Event::Noted,
    }
}

/// What a scan that stands at `progress` comes to when each thing it asks
/// for is answered by `answer`.
pub open spec fn run(inbox: InboxView, progress: Progress, verdicts: Seq<bool>) -> Ending
    decreases inbox.remaining(),
    when inbox.wf() && inbox.stands_at(progress)
{
    match progress {
        Progress::Finished => Ending { accepted: inbox.accepted, broken: None },
        Progress::Broken(reason) => Ending { accepted: inbox.accepted, broken: Some(reason) },
        _ => {
            proof {
                lemma_scan_moves_forward(inbox, answer(progress, verdicts));
            }
            let (after, then) = inbox.next(answer(progress, verdicts));
            run(after, then, verdicts)
        },
    }
}

proof fn lemma_outcome_passes_over_skipped(
    scan: Scan,
    headers: Seq<Header>,
    verdicts: Seq<bool>,
    from: int,
    accepted: nat,
)
    requires
        0 <= from <= headers.len(),
    ensures
        outcome(scan, headers, verdicts, from, accepted) == outcome(
            scan,
            headers,
            verdicts,
            next_stop(scan, headers, from),
            accepted,
        ),
    decreases headers.len() - from,
{
    if from < headers.len() && scan.reaction(headers[from]) is Skip {
        lemma_outcome_passes_over_skipped(scan, headers, verdicts, from + 1, accepted);
    }
}

proof fn lemma_run_from(inbox: InboxView, from: int, verdicts: Seq<bool>)
    requires
        0 <= from <= inbox.headers.len() <= usize::MAX,
        inbox.accepted <= from,
    ensures
        run(inbox.resume(from).0, inbox.resume(from).1, verdicts) == outcome(
            inbox.scan,
            inbox.headers,
            verdicts,
            from,
            inbox.accepted,
        ),
    decreases inbox.headers.len() - from,
{
    let scan = inbox.scan;
    let headers = inbox.headers;
    let stop = next_stop(scan, headers, from);
    let (at_stop, progress) = inbox.resume(from);
    lemma_resume(inbox, from);
    lemma_next_stop_is_least(scan, headers, from);
    lemma_outcome_passes_over_skipped(scan, headers, verdicts, from, inbox.accepted);
    if stop < headers.len() {
        match scan.reaction(headers[stop]) {
            Reaction::Offer(kind) => {
                let event = answer(progress, verdicts);
                lemma_scan_moves_forward(at_stop, event);
                let (after, then) = at_stop.next(event);
                assert(run(at_stop, progress, verdicts) == run(after, then, verdicts));
                if verdicts[stop] {
                    if !scan.stops_at_accept() {
                        let counted = InboxView { accepted: inbox.accepted + 1, ..inbox };
                        assert(at_stop.next(event) == counted.resume(stop + 1));
                        lemma_run_from(counted, stop + 1, verdicts);
                    }
                } else if !scan.insists() {
                    lemma_scan_moves_forward(after, Event::Noted);
                    assert(run(after, then, verdicts) == run(
                        after.next(Event::Noted).0,
                        after.next(Event::Noted).1,
                        verdicts,
                    ));
                    assert(after.next(Event::Noted) == inbox.resume(stop + 1));
                    lemma_run_from(inbox, stop + 1, verdicts);
                }
            },
            Reaction::Report => {
                lemma_scan_moves_forward(at_stop, Event::Noted);
                assert(run(at_stop, progress, verdicts) == run(
                    at_stop.next(Event::Noted).0,
                    at_stop.next(Event::Noted).1,
                    verdicts,
                ));
                assert(at_stop.next(Event::Noted) == inbox.resume(stop + 1));
                lemma_run_from(inbox, stop + 1, verdicts);
            },
            _ => {},
        }
    }
}

/// Driving a scan step by step comes to the same as going through the
/// messages one by one: the scan asks for no more and no less than that.
pub proof fn lemma_scan_comes_to_outcome(scan: Scan, headers: Vec<Header>, verdicts: Seq<bool>)
    ensures
        ({
            let (inbox, progress) = InboxView::fresh(scan).next(Event::Fetched(headers));
            run(inbox, progress, verdicts) == outcome(scan, headers@, verdicts, 0, 0)
        }),
{
    assert(headers@.len() == headers.len());
    lemma_run_from(InboxView { headers: headers@, ..InboxView::fresh(scan) }, 0, verdicts);
}

} // verus!
