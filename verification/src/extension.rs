//! The closed set of image file extensions, used to build destination file
//! names.

use vstd::prelude::*;
use crate::text::str_eq;

verus! {

/// An image file type, a closed set.
#[derive(Clone, Copy, Debug, PartialEq, Eq, Structural)]
pub enum Extension {
    Jpg,
    Jpeg,
    Png,
    Webp,
    Gif,
}

impl Extension {
    /// The fixed string tag of this extension.
    pub open spec fn tag_spec(self) -> Seq<char> {
        match self {
            Extension::Jpg => "jpg"@,
            Extension::Jpeg => "jpeg"@,
            Extension::Png => "png"@,
            Extension::Webp => "webp"@,
            Extension::Gif => "gif"@,
        }
    }

    /// The extension whose tag is `s`, if any.
    pub open spec fn from_tag_spec(s: Seq<char>) -> Option<Extension> {
        if s == "jpg"@ {
            Some(Extension::Jpg)
        } else if s == "jpeg"@ {
            Some(Extension::Jpeg)
        } else if s == "png"@ {
            Some(Extension::Png)
        } else if s == "webp"@ {
            Some(Extension::Webp)
        } else if s == "gif"@ {
            Some(Extension::Gif)
        } else {
            None
        }
    }

    /// Returns this extension's tag.
    pub fn tag(&self) -> (r: &'static str)
        ensures
            r@ == self.tag_spec(),
    {
        match self {
            Extension::Jpg => "jpg",
            Extension::Jpeg => "jpeg",
            Extension::Png => "png",
            Extension::Webp => "webp",
            Extension::Gif => "gif",
        }
    }

    /// Parses a tag back into its extension.
    pub fn from_tag(s: &str) -> (r: Option<Extension>)
        ensures
            r == Extension::from_tag_spec(s@),
    {
        if str_eq(s, "jpg") {
            Some(Extension::Jpg)
        } else if str_eq(s, "jpeg") {
            Some(Extension::Jpeg)
        } else if str_eq(s, "png") {
            Some(Extension::Png)
        } else if str_eq(s, "webp") {
            Some(Extension::Webp)
        } else if str_eq(s, "gif") {
            Some(Extension::Gif)
        } else {
            None
        }
    }
}

/// Law: an extension's tag parses back to the same extension, so serializing
/// and deserializing the tag of any extension is lossless.
pub proof fn lemma_extension_tag_round_trip(e: Extension)
    ensures
        Extension::from_tag_spec(e.tag_spec()) == Some(e),
{
    reveal_strlit("jpg");
    reveal_strlit("jpeg");
    reveal_strlit("png");
    reveal_strlit("webp");
    reveal_strlit("gif");
    assert(("jpg"@)[0] == 'j');
    assert(("png"@)[0] == 'p');
    assert(("gif"@)[0] == 'g');
    assert(("jpeg"@)[0] == 'j');
    assert(("webp"@)[0] == 'w');
    assert(("jpg"@).len() == 3);
    assert(("jpeg"@).len() == 4);
    assert(("png"@).len() == 3);
    assert(("webp"@).len() == 4);
    assert(("gif"@).len() == 3);
}

} // verus!
