//! Every way XML extraction can fail, and the response each one becomes.

use vstd::prelude::*;

use axum_core::extract::rejection::BytesRejection;
use quick_xml::DeError;

use crate::reply::{text_plain, Reply};

verus! {

#[verifier::external_type_specification]
#[verifier::external_body]
pub struct ExDeError(quick_xml::DeError);

#[verifier::external_type_specification]
#[verifier::external_body]
pub struct ExBytesRejection(axum_core::extract::rejection::BytesRejection);

/// Body text of a request whose body is not XML of the expected shape.
pub open spec fn invalid_body_text() -> Seq<char> {
    "Failed to parse the request body as XML"@
}

/// Body text of a request whose `Content-Type` is not XML.
pub open spec fn missing_content_type_text() -> Seq<char> {
    "Expected request with `Content-Type: application/xml`"@
}

/// Start of the body text the framework gives a body it could not buffer.
pub open spec fn buffer_failure_text() -> Seq<char> {
    "Failed to buffer the request body"@
}

/// Relies on axum_core's `BytesRejection::status`: a body that could not be
/// buffered is answered 413 (over the length limit) or 400 (any other error).
#[verifier::external_body]
fn bytes_rejection_status(e: &BytesRejection) -> (r: u16)
    ensures
        r == 413 || r == 400,
{
    e.status().as_u16()
}

/// Relies on axum_core's `BytesRejection::body_text`: the text opens with
/// "Failed to buffer the request body".
#[verifier::external_body]
fn bytes_rejection_body_text(e: &BytesRejection) -> (r: String)
    ensures
        buffer_failure_text().is_prefix_of(r@),
{
    e.body_text()
}

/// Why a request body could not be extracted as XML.
#[derive(Debug)]
pub enum XmlRejection {
    /// The body is not XML, or not XML that fits the target type.
    InvalidXMLBody(DeError),
    /// The request's `Content-Type` is absent or not an XML media type.
    MissingXMLContentType,
    /// The framework could not collect the body; its own answer is kept.
    BytesRejection(BytesRejection),
}

impl XmlRejection {
    /// The status this library assigns; `None` where the framework's own
    /// answer to a body-collection failure is passed on.
    pub open spec fn own_status(&self) -> Option<u16> {
        match self {
            XmlRejection::InvalidXMLBody(_) => Some(422u16),
            XmlRejection::MissingXMLContentType => Some(415u16),
            XmlRejection::BytesRejection(_) => None,
        }
    }

    /// The body text this library assigns; `None` as for `own_status`.
    pub open spec fn own_body_text(&self) -> Option<Seq<char>> {
        match self {
            XmlRejection::InvalidXMLBody(_) => Some(invalid_body_text()),
            XmlRejection::MissingXMLContentType => Some(missing_content_type_text()),
            XmlRejection::BytesRejection(_) => None,
        }
    }

    /// The HTTP status code of the response to this rejection.
    pub fn status(&self) -> (r: u16)
        ensures
            self.own_status() matches Some(s) ==> r == s,
            self is BytesRejection ==> r == 413 || r == 400,
    {
        match self {
            XmlRejection::InvalidXMLBody(_) => 422,
            XmlRejection::MissingXMLContentType => 415,
            XmlRejection::BytesRejection(e) => bytes_rejection_status(e),
        }
    }

    /// The text body of the response to this rejection.
    pub fn body_text(&self) -> (r: String)
        ensures
            self.own_body_text() matches Some(t) ==> r@ == t,
            self is BytesRejection ==> buffer_failure_text().is_prefix_of(r@),
    {
        match self {
            XmlRejection::InvalidXMLBody(_) => "Failed to parse the request body as XML".to_owned(),
            XmlRejection::MissingXMLContentType => {
                "Expected request with `Content-Type: application/xml`".to_owned()
            },
            XmlRejection::BytesRejection(e) => bytes_rejection_body_text(e),
        }
    }

    /// The response to this rejection: its status and its text as a plain
    /// text body.
    pub fn into_response(self) -> (r: Reply)
        ensures
            r.content_type@ == text_plain(),
            self.own_status() matches Some(s) ==> r.status == s,
            self.own_body_text() matches Some(t) ==> r.body@ == t,
            self is BytesRejection ==> (r.status == 413 || r.status == 400)
                && buffer_failure_text().is_prefix_of(r.body@),
    {
        let status = self.status();
        let body = self.body_text();
        Reply::text(status, body)
    }
}

impl From<DeError> for XmlRejection {
    fn from(e: DeError) -> (r: XmlRejection) {
        XmlRejection::InvalidXMLBody(e)
    }
}

impl vstd::std_specs::convert::FromSpecImpl<DeError> for XmlRejection {
    open spec fn obeys_from_spec() -> bool {
        true
    }

    open spec fn from_spec(e: DeError) -> XmlRejection {
        XmlRejection::InvalidXMLBody(e)
    }
}

impl From<BytesRejection> for XmlRejection {
    fn from(e: BytesRejection) -> (r: XmlRejection) {
        XmlRejection::BytesRejection(e)
    }
}

impl vstd::std_specs::convert::FromSpecImpl<BytesRejection> for XmlRejection {
    open spec fn obeys_from_spec() -> bool {
        true
    }

    open spec fn from_spec(e: BytesRejection) -> XmlRejection {
        XmlRejection::BytesRejection(e)
    }
}

} // verus!
