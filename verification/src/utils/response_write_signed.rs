//! What signing answers.

use vstd::prelude::*;

verus! {

/// Object returned by `write_signed`: the tag of the signed message, and the
/// tag of the key-change message where the key was changed first.
#[derive(Debug, Clone, PartialEq, Eq)]
pub struct ResponseSigned {
    pub signed_message_tag: String,
    pub change_key_tag: Option<String>,
}

impl ResponseSigned {
    /// True when the signing key was changed before the message was signed.
    pub open spec fn changed_key(&self) -> bool {
        self.change_key_tag is Some
    }

    /// The answer made of the two tags.
    pub fn new(signed_message_tag: String, change_key_tag: Option<String>) -> (response: ResponseSigned)
        ensures
            response.signed_message_tag == signed_message_tag,
            response.change_key_tag == change_key_tag,
    {
        ResponseSigned { signed_message_tag, change_key_tag }
    }
}

} // verus!
