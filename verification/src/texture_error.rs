//! Error values for texture creation and loading. The loading itself is
//! GPU and file work done outside this crate; what travels through the
//! game's error paths is the text carried here.

use vstd::prelude::*;

verus! {

/// Relies on std's `String::push_str`: appends the given string slice
/// onto the end of the string.
pub assume_specification[ String::push_str ](s: &mut String, other: &str)
    ensures
        final(s)@ == old(s)@ + other@,
;

/// An error from making or loading a texture: the text of an underlying
/// error, an explanatory detail, or both.
#[derive(Debug)]
pub struct TextureError {
    pub error: Option<String>,
    pub detail: Option<String>,
}

impl TextureError {
    /// The rendered message: the detail, the underlying error text, or
    /// `"detail: error"` when both are present.
    pub open spec fn spec_message(&self) -> Seq<char> {
        match (&self.error, &self.detail) {
            (Some(e), Some(d)) => d@ + ": "@ + e@,
            (Some(e), None) => e@,
            (None, Some(d)) => d@,
            (None, None) => "texture error, but no information supplied"@,
        }
    }

    /// Wraps the text of an underlying error.
    pub fn from_error(error: String) -> (r: TextureError)
        ensures
            r.error == Some(error),
            r.detail == None::<String>,
    {
        TextureError { error: Some(error), detail: None }
    }

    /// Wraps the text of an underlying error together with a detail that
    /// says what was being done when it happened.
    pub fn from_error_with_detail(error: String, detail: &str) -> (r: TextureError)
        ensures
            r.error == Some(error),
            r.detail matches Some(d) && d@ == detail@,
    {
        TextureError { error: Some(error), detail: Some(detail.to_owned()) }
    }

    /// An error that is nothing but a message.
    pub fn from_message(message: String) -> (r: TextureError)
        ensures
            r.error == None::<String>,
            r.detail == Some(message),
    {
        TextureError { error: None, detail: Some(message) }
    }

    /// A human-readable description of the error.
    pub fn message(&self) -> (r: String)
        ensures
            r@ == self.spec_message(),
    {
        match (&self.error, &self.detail) {
            (Some(e), Some(d)) => {
                let mut s = d.clone();
                s.push_str(": ");
                s.push_str(e.as_str());
                s
            },
            (Some(e), None) => e.clone(),
            (None, Some(d)) => d.clone(),
            (None, None) => "texture error, but no information supplied".to_owned(),
        }
    }
}

} // verus!
