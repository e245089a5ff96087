//! The five HTTP responses of IEEE 2030.5 and their form on the wire.

use vstd::prelude::*;

verus! {

/// A response an IEEE 2030.5 endpoint may send or receive. None carries a body.
#[derive(Debug)]
pub enum SepResponse {
    /// HTTP 201, with the value of the `Location` header.
    Created(String),
    /// HTTP 204.
    NoContent,
    /// HTTP 400.
    BadRequest,
    /// HTTP 404.
    NotFound,
    /// HTTP 405, with the value of the `Allow` header.
    MethodNotAllowed(String),
}

/// The mathematical value of a [`SepResponse`].
pub enum SepResponseView {
    Created(Seq<char>),
    NoContent,
    BadRequest,
    NotFound,
    MethodNotAllowed(Seq<char>),
}

impl View for SepResponse {
    type V = SepResponseView;

    open spec fn view(&self) -> SepResponseView {
        match self {
            SepResponse::Created(location) => SepResponseView::Created(location@),
            SepResponse::NoContent => SepResponseView::NoContent,
            SepResponse::BadRequest => SepResponseView::BadRequest,
            SepResponse::NotFound => SepResponseView::NotFound,
            SepResponse::MethodNotAllowed(allow) => SepResponseView::MethodNotAllowed(allow@),
        }
    }
}

/// The part of an HTTP response that the model speaks of: the status code and
/// the two headers that a variant may carry. The body is always empty.
#[derive(Debug)]
pub struct ResponseHead {
    pub status: u16,
    pub location: Option<String>,
    pub allow: Option<String>,
}

/// The mathematical value of a [`ResponseHead`].
pub struct ResponseHeadView {
    pub status: u16,
    pub location: Option<Seq<char>>,
    pub allow: Option<Seq<char>>,
}

/// The view of an optional header value.
pub open spec fn header_view(header: Option<String>) -> Option<Seq<char>> {
    match header {
        Some(text) => Some(text@),
        None => None,
    }
}

impl View for ResponseHead {
    type V = ResponseHeadView;

    open spec fn view(&self) -> ResponseHeadView {
        ResponseHeadView {
            status: self.status,
            location: header_view(self.location),
            allow: header_view(self.allow),
        }
    }
}

/// The status code of each variant.
pub open spec fn status_of(response: SepResponseView) -> u16 {
    match response {
        SepResponseView::Created(_) => 201,
        SepResponseView::NoContent => 204,
        SepResponseView::BadRequest => 400,
        SepResponseView::NotFound => 404,
        SepResponseView::MethodNotAllowed(_) => 405,
    }
}

/// The head that a response is sent with: its status code, `Location` on 201,
/// `Allow` on 405, and no other header.
pub open spec fn head_of(response: SepResponseView) -> ResponseHeadView {
    ResponseHeadView {
        status: status_of(response),
        location: match response {
            SepResponseView::Created(location) => Some(location),
            _ => None,
        },
        allow: match response {
            SepResponseView::MethodNotAllowed(allow) => Some(allow),
            _ => None,
        },
    }
}

/// The response that a head stands for, if it stands for one: the status picks
/// the variant, 201 needs a `Location` and 405 an `Allow` header, and headers
/// that the variant does not carry are ignored.
pub open spec fn response_of(head: ResponseHeadView) -> Option<SepResponseView> {
    if head.status == 201 {
        match head.location {
            Some(location) => Some(SepResponseView::Created(location)),
            None => None,
        }
    } else if head.status == 204 {
        Some(SepResponseView::NoContent)
    } else if head.status == 400 {
        Some(SepResponseView::BadRequest)
    } else if head.status == 404 {
        Some(SepResponseView::NotFound)
    } else if head.status == 405 {
        match head.allow {
            Some(allow) => Some(SepResponseView::MethodNotAllowed(allow)),
            None => None,
        }
    } else {
        None
    }
}

/// The view of an optional response.
pub open spec fn response_view(response: Option<SepResponse>) -> Option<SepResponseView> {
    match response {
        Some(value) => Some(value@),
        None => None,
    }
}

impl SepResponse {
    /// Whether the value keeps the data model's rule that a `Created`
    /// response names a location, that is, a non-empty one.
    pub open spec fn well_formed(self) -> bool {
        self matches SepResponse::Created(location) ==> location@.len() > 0
    }

    /// Tells whether the value is well formed.
    pub fn is_well_formed(&self) -> (ok: bool)
        ensures
            ok == self.well_formed(),
    {
        match self {
            SepResponse::Created(location) => location.as_str().unicode_len() > 0,
            _ => true,
        }
    }

    /// The HTTP status code of the response.
    pub fn status(&self) -> (code: u16)
        ensures
            code == status_of(self@),
    {
        match self {
            SepResponse::Created(_) => 201,
            SepResponse::NoContent => 204,
            SepResponse::BadRequest => 400,
            SepResponse::NotFound => 404,
            SepResponse::MethodNotAllowed(_) => 405,
        }
    }

    /// Turns the response into the head it is sent with.
    pub fn into_head(self) -> (head: ResponseHead)
        ensures
            head@ == head_of(self@),
    {
        match self {
            SepResponse::Created(location) => ResponseHead {
                status: 201,
                location: Some(location),
                allow: None,
            },
            SepResponse::NoContent => ResponseHead { status: 204, location: None, allow: None },
            SepResponse::BadRequest => ResponseHead { status: 400, location: None, allow: None },
            SepResponse::NotFound => ResponseHead { status: 404, location: None, allow: None },
            SepResponse::MethodNotAllowed(allow) => ResponseHead {
                status: 405,
                location: None,
                allow: Some(allow),
            },
        }
    }

    /// Reads a response back from a head. `None` when the status is none of
    /// the five, or when the header that the status calls for is missing.
    pub fn from_head(head: ResponseHead) -> (response: Option<SepResponse>)
        ensures
            response_view(response) == response_of(head@),
    {
        if head.status == 201 {
            match head.location {
                Some(location) => Some(SepResponse::Created(location)),
                None => None,
            }
        } else if head.status == 204 {
            Some(SepResponse::NoContent)
        } else if head.status == 400 {
            Some(SepResponse::BadRequest)
        } else if head.status == 404 {
            Some(SepResponse::NotFound)
        } else if head.status == 405 {
            match head.allow {
                Some(allow) => Some(SepResponse::MethodNotAllowed(allow)),
                None => None,
            }
        } else {
            None
        }
    }
}

/// Sending a response and reading it back gives the same response: the status
/// code and the header of a variant determine it.
pub proof fn lemma_head_round_trip(response: SepResponseView)
    ensures
        response_of(head_of(response)) == Some(response),
{
}

/// Two responses that are sent with the same head are the same response.
pub proof fn lemma_head_injective(a: SepResponseView, b: SepResponseView)
    requires
        head_of(a) == head_of(b),
    ensures
        a == b,
{
    lemma_head_round_trip(a);
    lemma_head_round_trip(b);
}

} // verus!
