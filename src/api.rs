use vstd::prelude::*;
use crate::util::{TranslationType, style_name};

verus! {

/// The query form of `s` that urlencoding gives: the percent-encoding of its
/// UTF-8 bytes.
pub uninterp spec fn url_encoded(s: Seq<char>) -> Seq<char>;

/// Relies on urlencoding::encode: the encoded form depends on `s` alone.
#[verifier::external_body]
fn encode_text(s: &str) -> (r: String)
    ensures
        r@ == url_encoded(s@),
{
    urlencoding::encode(s).into_owned()
}

/// Relies on String::push_str: `s` is appended to `to`.
#[verifier::external_body]
fn append(to: &mut String, s: &str)
    ensures
        final(to)@ == old(to)@ + s@,
{
    to.push_str(s)
}

/// The path under which the species service describes `name`.
pub open spec fn species_path_of(name: Seq<char>) -> Seq<char> {
    "/api/v2/pokemon-species/"@ + name
}

/// The path that asks the translation service for `style`, with the query
/// text already encoded.
pub open spec fn translation_path_of(style: TranslationType, encoded: Seq<char>) -> Seq<char> {
    "/translate/"@ + style_name(style) + "?text="@ + encoded
}

/// The path under which the species service describes `name`.
pub fn species_path(name: &str) -> (r: String)
    ensures
        r@ == species_path_of(name@),
{
    let mut path = "/api/v2/pokemon-species/".to_owned();
    append(&mut path, name);
    path
}

/// The path that asks the translation service to render a text in `style`,
/// given the text in its encoded form.
pub fn translation_query(style: TranslationType, encoded: &str) -> (r: String)
    requires
        style != TranslationType::Plain,
    ensures
        r@ == translation_path_of(style, encoded@),
{
    let mut path = "/translate/".to_owned();
    let name = style.to_string();
    append(&mut path, name.as_str());
    append(&mut path, "?text=");
    append(&mut path, encoded);
    path
}

/// The path that asks the translation service to render `text` in `style`.
pub fn translation_path(text: &str, style: TranslationType) -> (r: String)
    requires
        style != TranslationType::Plain,
    ensures
        r@ == translation_path_of(style, url_encoded(text@)),
{
    let encoded = encode_text(text);
    translation_query(style, encoded.as_str())
}

} // verus!
