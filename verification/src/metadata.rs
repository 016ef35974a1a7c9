//! The off-chain metadata of a token.

use vstd::prelude::*;

verus! {

/// What the document behind a token's URI holds under the three keys that
/// are read from it: the text, where the key holds one.
pub struct MetadataFields {
    pub description: Option<String>,
    pub twitter: Option<String>,
    pub website: Option<String>,
}

/// The text of a field, which is empty where the field is absent.
pub open spec fn text_or_empty(field: Option<String>) -> Seq<char> {
    match field {
        Some(text) => text@,
        None => Seq::empty(),
    }
}

/// Gives the text of a field, an empty one where the field is absent.
pub fn unwrap_text(field: Option<String>) -> (r: String)
    ensures
        r@ == text_or_empty(field),
{
    match field {
        Some(text) => text,
        None => String::new(),
    }
}

/// Gives the description, the Twitter address and the website of a token,
/// each empty where the metadata does not hold it as a text.
pub fn token_metadata(fields: MetadataFields) -> (r: (String, String, String))
    ensures
        r.0@ == text_or_empty(fields.description),
        r.1@ == text_or_empty(fields.twitter),
        r.2@ == text_or_empty(fields.website),
{
    let MetadataFields { description, twitter, website } = fields;
    (unwrap_text(description), unwrap_text(twitter), unwrap_text(website))
}

} // verus!
