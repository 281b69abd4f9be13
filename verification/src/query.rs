//! Query parameters of the listing endpoint: the per-channel filter pairs and
//! the page offset, together with the page arithmetic.

use vstd::prelude::*;
use crate::channel::Channel;
use crate::text::{dec_rep, u64_to_string};

verus! {

/// Items per page; offsets advance by this much per page index.
pub const PAGE_SIZE: u64 = 96;

/// The listing offset that one page index starts at.
pub fn page_offset(page: u64) -> (r: u64)
    requires
        page * PAGE_SIZE <= u64::MAX,
    ensures
        r == page * PAGE_SIZE,
{
    page * PAGE_SIZE
}

/// The theoretical maximum number of items `max_pages` pages can hold; the
/// reporter and the final summary use it as their denominator.
pub fn expected_total(max_pages: u64) -> (r: u64)
    requires
        max_pages * PAGE_SIZE <= u64::MAX,
    ensures
        r == max_pages * PAGE_SIZE,
{
    max_pages * PAGE_SIZE
}

/// One `channel_name__in[]=<tag>` pair per selected channel, in order.
pub fn build_query(channels: &Vec<Channel>) -> (q: Vec<(String, String)>)
    ensures
        q@.len() == channels@.len(),
        forall|i: int|
            0 <= i < q@.len() ==> (#[trigger] q@[i]).0@ == "channel_name__in[]"@ && q@[i].1@
                == channels@[i].tag_spec(),
{
    let mut q: Vec<(String, String)> = Vec::new();
    let mut i: usize = 0;
    while i < channels.len()
        invariant
            i <= channels@.len(),
            q@.len() == i,
            forall|j: int|
                0 <= j < i ==> (#[trigger] q@[j]).0@ == "channel_name__in[]"@ && q@[j].1@
                    == channels@[j].tag_spec(),
        decreases channels@.len() - i,
    {
        let key = "channel_name__in[]".to_owned();
        let val = channels[i].tag().to_owned();
        q.push((key, val));
        i += 1;
    }
    q
}

/// The `__offset=<n>` pair carrying one page's offset.
pub fn offset_param(offset: u64) -> (p: (String, String))
    ensures
        p.0@ == "__offset"@,
        p.1@ == dec_rep(offset as nat),
{
    ("__offset".to_owned(), u64_to_string(offset))
}

} // verus!
