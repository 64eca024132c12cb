//! The typed XML body: the steps of extracting it from a request, and the
//! response it becomes.
//!
//! Extraction runs in order: the `Content-Type` is checked first, and only an
//! XML request has its body collected and then decoded. Each step takes what
//! the framework or the codec produced and returns the outcome.

use vstd::prelude::*;

use axum_core::extract::rejection::BytesRejection;
use quick_xml::DeError;

use crate::content_type::{accepts_xml, header_view, is_xml_content_type, is_xml_media_type};
use crate::rejection::{invalid_body_text, missing_content_type_text, XmlRejection};
use crate::reply::{application_xml, text_plain, Reply};

verus! {

/// A value carried as an XML body, in a request or in a response.
pub struct Xml<T>(pub T);

/// Outcome of the `Content-Type` check.
pub open spec fn content_type_verdict(content_type: Option<Seq<char>>) -> Result<(), XmlRejection> {
    if accepts_xml(content_type) {
        Ok(())
    } else {
        Err(XmlRejection::MissingXMLContentType)
    }
}

/// Outcome of collecting the body.
pub open spec fn collect_verdict<B>(collected: Result<B, BytesRejection>) -> Result<B, XmlRejection> {
    match collected {
        Ok(b) => Ok(b),
        Err(e) => Err(XmlRejection::BytesRejection(e)),
    }
}

/// Outcome of decoding the body.
pub open spec fn decode_verdict<T>(decoded: Result<T, DeError>) -> Result<Xml<T>, XmlRejection> {
    match decoded {
        Ok(v) => Ok(Xml(v)),
        Err(e) => Err(XmlRejection::InvalidXMLBody(e)),
    }
}

/// First step: a request whose `Content-Type` (`None` when absent) is not
/// XML is rejected before its body is touched.
pub fn check_content_type(content_type: Option<&str>) -> (r: Result<(), XmlRejection>)
    ensures
        r == content_type_verdict(header_view(content_type)),
{
    if is_xml_content_type(content_type) {
        Ok(())
    } else {
        Err(XmlRejection::MissingXMLContentType)
    }
}

/// Second step: a body the framework failed to collect keeps the
/// framework's own rejection.
pub fn collect_body<B>(collected: Result<B, BytesRejection>) -> (r: Result<B, XmlRejection>)
    ensures
        r == collect_verdict(collected),
{
    match collected {
        Ok(b) => Ok(b),
        Err(e) => Err(XmlRejection::BytesRejection(e)),
    }
}

impl<T> Xml<T> {
    /// Last step: the codec's result for the collected body.
    pub fn from_decoded(decoded: Result<T, DeError>) -> (r: Result<Xml<T>, XmlRejection>)
        ensures
            r == decode_verdict(decoded),
    {
        match decoded {
            Ok(v) => Ok(Xml(v)),
            Err(e) => Err(XmlRejection::InvalidXMLBody(e)),
        }
    }

    /// The carried value.
    pub fn into_inner(self) -> (r: T)
        ensures
            r == self.0,
    {
        self.0
    }
}

/// The response for a value the codec serialized to `serialized`: the XML
/// text with media type `application/xml`, or a 500 whose text is the
/// codec's message when serialization failed.
pub fn xml_response(serialized: Result<String, DeError>) -> (r: Reply)
    ensures
        serialized is Ok ==> r.status == 200 && r.content_type@ == application_xml()
            && r.body == serialized->Ok_0,
        serialized is Err ==> r.status == 500 && r.content_type@ == text_plain(),
{
    match serialized {
        Ok(body) => Reply::xml(body),
        Err(e) => Reply::text(500, e.to_string()),
    }
}

/// An XML request whose body the codec rejects passes the `Content-Type`
/// check and is answered 422 with the fixed parse-failure text.
pub proof fn lemma_malformed_body_unprocessable<T>(content_type: Seq<char>, e: DeError)
    requires
        is_xml_media_type(content_type),
    ensures
        content_type_verdict(Some(content_type)) is Ok,
        decode_verdict::<T>(Err(e)) == Err::<Xml<T>, XmlRejection>(XmlRejection::InvalidXMLBody(e)),
        XmlRejection::InvalidXMLBody(e).own_status() == Some(422u16),
        XmlRejection::InvalidXMLBody(e).own_body_text() == Some(invalid_body_text()),
{
}

/// A request whose `Content-Type` is not XML is rejected as such, answered
/// 415 and never 422, whatever its body holds: the check comes first.
pub proof fn lemma_content_type_checked_first(content_type: Option<Seq<char>>)
    requires
        !accepts_xml(content_type),
    ensures
        content_type_verdict(content_type) == Err::<(), XmlRejection>(
            XmlRejection::MissingXMLContentType,
        ),
        XmlRejection::MissingXMLContentType.own_status() == Some(415u16),
        XmlRejection::MissingXMLContentType.own_body_text() == Some(missing_content_type_text()),
{
}

/// The matcher is a function of the header alone, and a request without a
/// `Content-Type` is never taken as XML.
pub proof fn lemma_matcher_pure(a: Option<Seq<char>>, b: Option<Seq<char>>)
    requires
        a == b,
    ensures
        accepts_xml(a) == accepts_xml(b),
        !accepts_xml(None),
        content_type_verdict(a) == content_type_verdict(b),
{
}

} // verus!
