//! Stored artifacts: headers and a body, served as they are.

use vstd::prelude::*;

verus! {

/// A payload and its headers, stored under a path.
pub struct Asset {
    pub headers: Vec<(String, String)>,
    pub body: Vec<u8>,
}

pub open spec fn content_type_name() -> Seq<char> {
    seq!['C', 'o', 'n', 't', 'e', 'n', 't', '-', 'T', 'y', 'p', 'e']
}

/// The asset's headers are exactly one, declaring `media` as content type.
pub open spec fn has_content_type(a: &Asset, media: Seq<char>) -> bool {
    &&& a.headers@.len() == 1
    &&& a.headers@[0].0@ == content_type_name()
    &&& a.headers@[0].1@ == media
}

/// An asset with a single content-type header.
pub fn typed_asset(media: &str, body: Vec<u8>) -> (r: Asset)
    ensures
        has_content_type(&r, media@),
        r.body@ == body@,
{
    let name = "Content-Type";
    proof {
        reveal_strlit("Content-Type");
        assert(name@ =~= content_type_name());
    }
    let mut headers: Vec<(String, String)> = Vec::new();
    headers.push((name.to_string(), media.to_string()));
    Asset { headers, body }
}

} // verus!
