use vstd::prelude::*;

use crate::error::Error;
use crate::text::str_eq;

verus! {

/// The kind of a file that the file server stores, which is also the first part
/// of its address there.
#[derive(Debug, Clone, Copy, PartialEq, Eq, Structural)]
pub enum Tag {
    Attachments,
    Avatars,
    Backgrounds,
    Icons,
    Banners,
    Emojis,
}

/// The name of a tag.
pub open spec fn tag_name(t: Tag) -> Seq<char> {
    match t {
        Tag::Attachments => "attachments"@,
        Tag::Avatars => "avatars"@,
        Tag::Backgrounds => "backgrounds"@,
        Tag::Icons => "icons"@,
        Tag::Banners => "banners"@,
        Tag::Emojis => "emojis"@,
    }
}

/// No two tags share a name, so reading a tag's name gives back the tag.
pub proof fn lemma_tag_names_distinct(a: Tag, b: Tag)
    ensures
        tag_name(a) == tag_name(b) ==> a == b,
{
    reveal_strlit("attachments");
    reveal_strlit("avatars");
    reveal_strlit("backgrounds");
    reveal_strlit("icons");
    reveal_strlit("banners");
    reveal_strlit("emojis");
    if tag_name(a) == tag_name(b) && a != b {
        assert(tag_name(a).len() != tag_name(b).len() || tag_name(a)[0] != tag_name(b)[0] || tag_name(a)[1] != tag_name(b)[1]);
    }
}

impl Tag {
    /// The tag's name.
    pub fn as_str(self) -> (r: &'static str)
        ensures
            r@ == tag_name(self),
    {
        match self {
            Tag::Attachments => "attachments",
            Tag::Avatars => "avatars",
            Tag::Backgrounds => "backgrounds",
            Tag::Icons => "icons",
            Tag::Banners => "banners",
            Tag::Emojis => "emojis",
        }
    }

    /// The tag's name, as an owned string.
    pub fn to_string(self) -> (r: String)
        ensures
            r@ == tag_name(self),
    {
        String::from_str(self.as_str())
    }

    /// The tag with the name `value`; any other text is an invalid tag.
    pub fn try_from(value: &str) -> (r: Result<Tag, Error>)
        ensures
            match r {
                Ok(t) => tag_name(t) == value@,
                Err(e) => e is InvalidTag && forall|t: Tag| tag_name(t) != value@,
            },
    {
        if str_eq(value, "attachments") {
            Ok(Tag::Attachments)
        } else if str_eq(value, "avatars") {
            Ok(Tag::Avatars)
        } else if str_eq(value, "backgrounds") {
            Ok(Tag::Backgrounds)
        } else if str_eq(value, "icons") {
            Ok(Tag::Icons)
        } else if str_eq(value, "banners") {
            Ok(Tag::Banners)
        } else if str_eq(value, "emojis") {
            Ok(Tag::Emojis)
        } else {
            Err(Error::InvalidTag)
        }
    }
}

} // verus!
