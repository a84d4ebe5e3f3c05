use vstd::prelude::*;

use crate::text::{concat2, is_prefix, starts_with};

verus! {

/// A local file ready to be uploaded: its name and its bytes.
#[derive(Debug, Clone)]
pub struct LocalFile {
    pub name: String,
    pub body: Vec<u8>,
}

/// The prefix that marks the name of a file as a spoiler.
pub open spec fn spoiler_prefix() -> Seq<char> {
    "SPOILER_"@
}

/// The name of a file once it is marked as a spoiler.
pub open spec fn spoiler_name(name: Seq<char>) -> Seq<char> {
    if is_prefix(spoiler_prefix(), name) {
        name
    } else {
        spoiler_prefix() + name
    }
}

/// Marking a file as a spoiler twice names it as marking it once does.
pub proof fn lemma_spoiler_idempotent(name: Seq<char>)
    ensures
        spoiler_name(spoiler_name(name)) == spoiler_name(name),
{
    let p = spoiler_prefix();
    if !is_prefix(p, name) {
        assert((p + name).take(p.len() as int) =~= p);
    }
}

impl LocalFile {
    /// A file with the name `name` and the bytes `body`.
    pub fn new(name: String, body: Vec<u8>) -> (r: LocalFile)
        ensures
            r.name == name,
            r.body == body,
    {
        LocalFile { name, body }
    }

    /// Whether the file is marked as a spoiler: its name starts with `SPOILER_`.
    pub fn is_spoiler(&self) -> (r: bool)
        ensures
            r == is_prefix(spoiler_prefix(), self.name@),
    {
        starts_with(self.name.as_str(), "SPOILER_")
    }

    /// The file marked as a spoiler; a file that is one already stays as it is.
    pub fn spoiler(self) -> (r: LocalFile)
        ensures
            r.body == self.body,
            r.name@ == spoiler_name(self.name@),
    {
        if self.is_spoiler() {
            self
        } else {
            let name = concat2("SPOILER_", self.name.as_str());
            LocalFile { name, body: self.body }
        }
    }
}

} // verus!
