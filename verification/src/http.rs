//! Plain-value model of the HTTP responses the service gives.

use crate::manifest::{Manifest, ManifestView};
use vstd::prelude::*;

verus! {

/// Response status.
#[derive(Debug, Clone, Copy, PartialEq, Eq, Structural)]
pub enum Status {
    Success,
    Created,
    Forbidden,
    NotFound,
    InternalServerError,
}

/// The numeric code that goes on the wire for a status.
pub open spec fn status_code(s: Status) -> nat {
    match s {
        Status::Success => 200,
        Status::Created => 201,
        Status::Forbidden => 403,
        Status::NotFound => 404,
        Status::InternalServerError => 500,
    }
}

impl Status {
    /// The numeric code that goes on the wire.
    pub fn code(&self) -> (r: u16)
        ensures
            r == status_code(*self),
    {
        match self {
            Status::Success => 200,
            Status::Created => 201,
            Status::Forbidden => 403,
            Status::NotFound => 404,
            Status::InternalServerError => 500,
        }
    }
}

/// Media type of a response body.
#[derive(Debug, Clone, Copy, PartialEq, Eq, Structural)]
pub enum ContentType {
    Json,
    Yaml,
    Png,
}

/// The `Content-Type` header value of a media type.
pub open spec fn content_type_text(c: ContentType) -> Seq<char> {
    match c {
        ContentType::Json => "application/json"@,
        ContentType::Yaml => "application/yaml"@,
        ContentType::Png => "image/png"@,
    }
}

impl ContentType {
    /// The `Content-Type` header value.
    pub fn header_value(&self) -> (r: &'static str)
        ensures
            r@ == content_type_text(*self),
    {
        match self {
            ContentType::Json => "application/json",
            ContentType::Yaml => "application/yaml",
            ContentType::Png => "image/png",
        }
    }
}

/// What a response carries: the manifest (to be written as JSON), text, or
/// raw bytes.
#[derive(Debug, PartialEq, Eq)]
pub enum Body {
    Manifest(Manifest),
    Text(String),
    Bytes(Vec<u8>),
}

/// Mathematical content of a [`Body`].
pub enum BodyView {
    Manifest(ManifestView),
    Text(Seq<char>),
    Bytes(Seq<u8>),
}

impl View for Body {
    type V = BodyView;

    open spec fn view(&self) -> BodyView {
        match *self {
            Body::Manifest(m) => BodyView::Manifest(m@),
            Body::Text(t) => BodyView::Text(t@),
            Body::Bytes(b) => BodyView::Bytes(b@),
        }
    }
}

/// A response: status, media type and body.
#[derive(Debug, PartialEq, Eq)]
pub struct Response {
    pub status: Status,
    pub content_type: ContentType,
    pub body: Body,
}

/// Mathematical content of a [`Response`].
pub struct ResponseView {
    pub status: Status,
    pub content_type: ContentType,
    pub body: BodyView,
}

impl View for Response {
    type V = ResponseView;

    open spec fn view(&self) -> ResponseView {
        ResponseView { status: self.status, content_type: self.content_type, body: self.body@ }
    }
}

} // verus!
