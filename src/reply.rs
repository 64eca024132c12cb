//! A response as plain values: status, media type and body text.

use vstd::prelude::*;

verus! {

/// Media type of a plain text body.
pub open spec fn text_plain() -> Seq<char> {
    "text/plain; charset=utf-8"@
}

/// Media type of an XML body.
pub open spec fn application_xml() -> Seq<char> {
    "application/xml"@
}

/// What a handler sends back: the framework writes it out unchanged.
pub struct Reply {
    pub status: u16,
    /// Value of the `Content-Type` response header.
    pub content_type: String,
    pub body: String,
}

impl Reply {
    /// A plain text response.
    pub fn text(status: u16, body: String) -> (r: Reply)
        ensures
            r.status == status,
            r.content_type@ == text_plain(),
            r.body == body,
    {
        Reply { status, content_type: "text/plain; charset=utf-8".to_owned(), body }
    }

    /// A 200 response with an XML body.
    pub fn xml(body: String) -> (r: Reply)
        ensures
            r.status == 200,
            r.content_type@ == application_xml(),
            r.body == body,
    {
        Reply { status: 200, content_type: "application/xml".to_owned(), body }
    }
}

} // verus!
