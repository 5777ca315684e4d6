use vstd::prelude::*;
use vstd::utf8::encode_utf8;
use crate::markup::{is_supported_markup, markup_supported};

verus! {

/// What the markup converter hands back for one markup string: the Markdown
/// document, or `None` where the markup is malformed.
pub uninterp spec fn markdown_of(html: Seq<char>) -> Option<Seq<char>>;

#[verifier::external_type_specification]
#[verifier::external_body]
pub struct ExParseHTMLError(html2md_rs::parser::ParseHTMLError);

/// Relies on `html2md_rs::to_md::safe_from_html_to_md`: parses the markup and
/// renders it as Markdown, or reports a parse error. The result depends on the
/// markup alone. The converter panics or overflows the stack on some
/// markup; `markup_supported` admits only markup on which its scan, tag
/// reader and renderer cannot reach those cases.
#[verifier::external_body]
fn html_to_markdown(html: String) -> (r: Result<String, html2md_rs::parser::ParseHTMLError>)
    requires
        markup_supported(encode_utf8(html@)),
    ensures
        match r {
            Ok(doc) => markdown_of(html@) == Some(doc@),
            Err(_) => markdown_of(html@) is None,
        },
{
    html2md_rs::to_md::safe_from_html_to_md(html)
}

/// The markup could not be turned into a document.
#[derive(Debug, Clone, Copy, PartialEq, Eq, Structural)]
pub enum ConvertError {
    MalformedMarkup,
}

/// The outcome of converting `html`, as a model. Where `markup_supported`
/// holds it is the converter's own result, document or error, unchanged.
/// Other markup is never handed to the converter, which would panic or
/// could exhaust the stack on it, and counts as malformed: a `<!DOCTYPE`
/// that the scan reaches with no later `>`; a tag that the converter takes
/// as self-closing while the byte before its `>` lies inside a multi-byte
/// character (the converter would slice the string there); elements nested
/// deeper than `MAX_NESTING`; a `start` value inside a tag with 19 digits or
/// more, however the attribute reader gathers them (counting the items after
/// it could pass `usize::MAX`).
pub open spec fn conversion(html: Seq<char>) -> Result<Seq<char>, ConvertError> {
    if !markup_supported(encode_utf8(html)) {
        Err(ConvertError::MalformedMarkup)
    } else {
        match markdown_of(html) {
            Some(doc) => Ok(doc),
            None => Err(ConvertError::MalformedMarkup),
        }
    }
}

/// Converts markup to a Markdown document. A malformed input is reported as
/// `ConvertError::MalformedMarkup` instead of aborting the caller.
pub fn convert_html_to_markdown(html: String) -> (r: Result<String, ConvertError>)
    ensures
        match (r, conversion(html@)) {
            (Ok(doc), Ok(d)) => doc@ == d,
            (Err(e), Err(f)) => e == f,
            _ => false,
        },
{
    if !is_supported_markup(html.as_str().as_bytes()) {
        return Err(ConvertError::MalformedMarkup);
    }
    match html_to_markdown(html) {
        Ok(doc) => Ok(doc),
        Err(_) => Err(ConvertError::MalformedMarkup),
    }
}

} // verus!
