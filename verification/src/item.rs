//! The listing API's data model: one item of image metadata and the paginated
//! envelope it arrives in.

use vstd::prelude::*;
use crate::channel::Channel;
use crate::extension::Extension;

verus! {

/// One discovered image's metadata record, read-only once built.
#[derive(Debug, Clone)]
pub struct Data {
    pub id: i64,
    pub channel_name: Channel,
    pub url: String,
    pub extension: Extension,
    pub width: i64,
    pub height: i64,
    pub filesize: u64,
}

/// Pagination metadata of one listing response. The error indicator carries
/// the error's rendered text when the endpoint reported one.
#[derive(Debug, Clone)]
pub struct Meta {
    pub total: i64,
    pub offset: i64,
    pub count: i64,
    pub error: Option<String>,
}

/// One paginated listing response: metadata plus one page of items.
#[derive(Debug, Clone)]
pub struct Response {
    pub meta: Meta,
    pub data: Vec<Data>,
}

impl Response {
    /// The items of this page, in order; the metadata is discarded.
    pub fn items(self) -> (r: Vec<Data>)
        ensures
            r@ == self.data@,
    {
        self.data
    }
}

/// The items of one page fetch: the page's data when the fetch produced an
/// envelope, nothing on any failure (network error, bad body, schema
/// mismatch).
pub fn items_or_empty(r: Option<Response>) -> (v: Vec<Data>)
    ensures
        r is Some ==> v@ == r.unwrap().data@,
        r is None ==> v@ == Seq::<Data>::empty(),
{
    match r {
        Some(resp) => resp.items(),
        None => Vec::new(),
    }
}

} // verus!
