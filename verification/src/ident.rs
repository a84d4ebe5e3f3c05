use vstd::prelude::*;

use crate::models::{Channel, Member, Message, Server, User};
use crate::ulid::{created_at, is_ulid_text, ulid_timestamp, Ulid};

verus! {

/// A model that a ULID identifies.
pub trait Identifiable {
    /// The text of the identifier.
    spec fn identity(&self) -> Seq<char>;

    /// The identifier.
    fn id(&self) -> (r: &str)
        ensures
            r@ == self.identity(),
    ;

    /// When the model was created, in milliseconds since the Unix epoch.
    fn created_at(&self) -> (r: u64)
        requires
            is_ulid_text(self.identity()),
        ensures
            r as nat == ulid_timestamp(self.identity()),
    {
        created_at(self.id())
    }
}

impl Identifiable for Ulid {
    open spec fn identity(&self) -> Seq<char> {
        self@
    }

    fn id(&self) -> (r: &str) {
        self.as_str()
    }
}

impl Identifiable for User {
    open spec fn identity(&self) -> Seq<char> {
        self.id@
    }

    fn id(&self) -> (r: &str) {
        self.id.as_str()
    }
}

impl Identifiable for Member {
    /// A member is identified by its user.
    open spec fn identity(&self) -> Seq<char> {
        self.id.user@
    }

    fn id(&self) -> (r: &str) {
        self.id.user.as_str()
    }
}

impl Identifiable for Channel {
    open spec fn identity(&self) -> Seq<char> {
        self.id_view()
    }

    fn id(&self) -> (r: &str) {
        Channel::id(self).as_str()
    }
}

impl Identifiable for Server {
    open spec fn identity(&self) -> Seq<char> {
        self.id@
    }

    fn id(&self) -> (r: &str) {
        self.id.as_str()
    }
}

impl Identifiable for Message {
    open spec fn identity(&self) -> Seq<char> {
        self.id@
    }

    fn id(&self) -> (r: &str) {
        self.id.as_str()
    }
}

} // verus!
