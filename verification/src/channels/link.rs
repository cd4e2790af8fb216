//! Links to messages.

use vstd::prelude::*;

verus! {

/// The place of one message on the ledger: the channel's address and the
/// message's tag, both as they are written out.
#[derive(Debug, Clone, PartialEq, Eq)]
pub struct Link {
    pub appinst: String,
    pub msgid: String,
}

impl Link {
    /// The link made of an address and a tag.
    pub fn new(appinst: String, msgid: String) -> (link: Link)
        ensures
            link == (Link { appinst, msgid }),
    {
        Link { appinst, msgid }
    }

    /// The link to the message with tag `msgid` in the channel at `appinst`.
    pub fn within(appinst: &String, msgid: &String) -> (link: Link)
        ensures
            link == (Link { appinst: *appinst, msgid: *msgid }),
    {
        Link { appinst: appinst.clone(), msgid: msgid.clone() }
    }

    /// A second copy of this link.
    pub fn duplicate(&self) -> (link: Link)
        ensures
            link == *self,
    {
        Link { appinst: self.appinst.clone(), msgid: self.msgid.clone() }
    }
}

/// The tag of an optional link.
pub open spec fn tag_of(link: Option<Link>) -> Option<String> {
    match link {
        Some(l) => Some(l.msgid),
        None => None,
    }
}

/// A second copy of an optional link.
pub fn duplicate_option(link: &Option<Link>) -> (copy: Option<Link>)
    ensures
        copy == *link,
{
    match link {
        Some(l) => Some(l.duplicate()),
        None => None,
    }
}

} // verus!
