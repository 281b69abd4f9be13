//! The closed set of image channels. A channel's tag is used both as the API
//! filter value and as the destination subdirectory name.

use vstd::prelude::*;
use crate::text::str_eq;

verus! {

/// A named image category, a closed set.
#[derive(Clone, Copy, Debug, PartialEq, Eq, Structural)]
pub enum Channel {
    Media,
    NsfwGeneral,
    Furry,
    Futa,
    Yaoi,
    Yuri,
    Traps,
    Irl3D,
}

impl Channel {
    /// The fixed string tag of this channel.
    pub open spec fn tag_spec(self) -> Seq<char> {
        match self {
            Channel::Media => "media"@,
            Channel::NsfwGeneral => "nsfw-general"@,
            Channel::Furry => "furry"@,
            Channel::Futa => "futa"@,
            Channel::Yaoi => "yaoi"@,
            Channel::Yuri => "yuri"@,
            Channel::Traps => "traps"@,
            Channel::Irl3D => "irl-3d"@,
        }
    }

    /// The channel whose tag is `s`, if any.
    pub open spec fn from_tag_spec(s: Seq<char>) -> Option<Channel> {
        if s == "media"@ {
            Some(Channel::Media)
        } else if s == "nsfw-general"@ {
            Some(Channel::NsfwGeneral)
        } else if s == "furry"@ {
            Some(Channel::Furry)
        } else if s == "futa"@ {
            Some(Channel::Futa)
        } else if s == "yaoi"@ {
            Some(Channel::Yaoi)
        } else if s == "yuri"@ {
            Some(Channel::Yuri)
        } else if s == "traps"@ {
            Some(Channel::Traps)
        } else if s == "irl-3d"@ {
            Some(Channel::Irl3D)
        } else {
            None
        }
    }

    /// Returns this channel's tag.
    pub fn tag(&self) -> (r: &'static str)
        ensures
            r@ == self.tag_spec(),
    {
        match self {
            Channel::Media => "media",
            Channel::NsfwGeneral => "nsfw-general",
            Channel::Furry => "furry",
            Channel::Futa => "futa",
            Channel::Yaoi => "yaoi",
            Channel::Yuri => "yuri",
            Channel::Traps => "traps",
            Channel::Irl3D => "irl-3d",
        }
    }

    /// Parses a tag back into its channel.
    pub fn from_tag(s: &str) -> (r: Option<Channel>)
        ensures
            r == Channel::from_tag_spec(s@),
    {
        if str_eq(s, "media") {
            Some(Channel::Media)
        } else if str_eq(s, "nsfw-general") {
            Some(Channel::NsfwGeneral)
        } else if str_eq(s, "furry") {
            Some(Channel::Furry)
        } else if str_eq(s, "futa") {
            Some(Channel::Futa)
        } else if str_eq(s, "yaoi") {
            Some(Channel::Yaoi)
        } else if str_eq(s, "yuri") {
            Some(Channel::Yuri)
        } else if str_eq(s, "traps") {
            Some(Channel::Traps)
        } else if str_eq(s, "irl-3d") {
            Some(Channel::Irl3D)
        } else {
            None
        }
    }

    /// Every channel, in declaration order.
    pub fn all() -> (r: Vec<Channel>)
        ensures
            r@ == seq![
                Channel::Media,
                Channel::NsfwGeneral,
                Channel::Furry,
                Channel::Futa,
                Channel::Yaoi,
                Channel::Yuri,
                Channel::Traps,
                Channel::Irl3D,
            ],
    {
        let mut v: Vec<Channel> = Vec::new();
        v.push(Channel::Media);
        v.push(Channel::NsfwGeneral);
        v.push(Channel::Furry);
        v.push(Channel::Futa);
        v.push(Channel::Yaoi);
        v.push(Channel::Yuri);
        v.push(Channel::Traps);
        v.push(Channel::Irl3D);
        proof {
            assert(v@ =~= seq![
                Channel::Media,
                Channel::NsfwGeneral,
                Channel::Furry,
                Channel::Futa,
                Channel::Yaoi,
                Channel::Yuri,
                Channel::Traps,
                Channel::Irl3D,
            ]);
        }
        v
    }
}

/// Law: a channel's tag parses back to the same channel, so serializing and
/// deserializing the tag of any channel is lossless.
pub proof fn lemma_channel_tag_round_trip(c: Channel)
    ensures
        Channel::from_tag_spec(c.tag_spec()) == Some(c),
{
    reveal_strlit("media");
    reveal_strlit("nsfw-general");
    reveal_strlit("furry");
    reveal_strlit("futa");
    reveal_strlit("yaoi");
    reveal_strlit("yuri");
    reveal_strlit("traps");
    reveal_strlit("irl-3d");
    assert(("media"@)[0] == 'm');
    assert(("furry"@)[0] == 'f');
    assert(("traps"@)[0] == 't');
    assert(("futa"@)[0] == 'f');
    assert(("yaoi"@)[0] == 'y');
    assert(("yuri"@)[0] == 'y');
    assert(("yaoi"@)[1] == 'a');
    assert(("yuri"@)[1] == 'u');
    assert(("futa"@)[1] == 'u');
    assert(("media"@).len() == 5);
    assert(("nsfw-general"@).len() == 12);
    assert(("furry"@).len() == 5);
    assert(("futa"@).len() == 4);
    assert(("yaoi"@).len() == 4);
    assert(("yuri"@).len() == 4);
    assert(("traps"@).len() == 5);
    assert(("irl-3d"@).len() == 6);
}

} // verus!
