//! The request body as the handlers see it: absent, textual, or binary.
//! No other attribute of a request (headers, method, path) is consulted.

use vstd::prelude::*;

verus! {

/// An incoming request body. The hosting runtime classifies every request
/// into exactly one of these three variants before a handler runs.
pub enum Body {
    Empty,
    Text(String),
    Binary(Vec<u8>),
}

/// The mathematical shape of a request body: the text as a sequence of
/// characters, the binary content as a sequence of bytes.
pub enum BodyView {
    Empty,
    Text(Seq<char>),
    Binary(Seq<u8>),
}

impl View for Body {
    type V = BodyView;

    open spec fn view(&self) -> BodyView {
        match *self {
            Body::Empty => BodyView::Empty,
            Body::Text(t) => BodyView::Text(t@),
            Body::Binary(b) => BodyView::Binary(b@),
        }
    }
}

} // verus!
