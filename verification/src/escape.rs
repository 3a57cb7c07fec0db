use vstd::prelude::*;

verus! {

/// What a character becomes in HTML text: `&`, `<` and `>` become character references, and the others stay.
pub open spec fn text_char_escape(c: char) -> Seq<char> {
    if c == '&' {
        seq!['&', 'a', 'm', 'p', ';']
    } else if c == '<' {
        seq!['&', 'l', 't', ';']
    } else if c == '>' {
        seq!['&', 'g', 't', ';']
    } else {
        seq![c]
    }
}

/// What a character becomes in a double-quoted attribute: as in HTML text, and `"` becomes a character reference.
pub open spec fn attribute_char_escape(c: char) -> Seq<char> {
    if c == '"' {
        seq!['&', 'q', 'u', 'o', 't', ';']
    } else {
        text_char_escape(c)
    }
}

/// A text escaped for HTML text.
pub open spec fn escaped_text(s: Seq<char>) -> Seq<char>
    decreases s.len(),
{
    if s.len() == 0 {
        Seq::empty()
    } else {
        escaped_text(s.drop_last()) + text_char_escape(s.last())
    }
}

/// A text escaped for a double-quoted attribute.
pub open spec fn escaped_attribute(s: Seq<char>) -> Seq<char>
    decreases s.len(),
{
    if s.len() == 0 {
        Seq::empty()
    } else {
        escaped_attribute(s.drop_last()) + attribute_char_escape(s.last())
    }
}

/// What `html_escape::encode_style` makes of a stylesheet so that it stays inside a `<style>` element.
pub uninterp spec fn style_encoded(css: Seq<char>) -> Seq<char>;

/// What `html_escape::encode_script` makes of a script so that it stays inside a `<script>` element.
pub uninterp spec fn script_encoded(js: Seq<char>) -> Seq<char>;

/// Escape a text for HTML text.
///
/// Calls `html_escape::encode_text`, which replaces `&`, `<` and `>` by `&amp;`, `&lt;` and `&gt;` and keeps every
/// other character.
#[verifier::external_body]
pub(crate) fn encode_text(text: &str) -> (escaped: String)
    ensures
        escaped@ == escaped_text(text@),
{
    html_escape::encode_text(text).into_owned()
}

/// Escape a text for a double-quoted attribute.
///
/// Calls `html_escape::encode_double_quoted_attribute`, which replaces `&`, `<`, `>` and `"` by `&amp;`, `&lt;`,
/// `&gt;` and `&quot;` and keeps every other character.
#[verifier::external_body]
pub(crate) fn encode_double_quoted_attribute(text: &str) -> (escaped: String)
    ensures
        escaped@ == escaped_attribute(text@),
{
    html_escape::encode_double_quoted_attribute(text).into_owned()
}

/// Escape a stylesheet for a `<style>` element.
///
/// Calls `html_escape::encode_style`. The contract names the result: a function of the stylesheet alone.
#[verifier::external_body]
pub(crate) fn encode_style(css: &str) -> (escaped: String)
    ensures
        escaped@ == style_encoded(css@),
{
    html_escape::encode_style(css).into_owned()
}

/// Escape a script for a `<script>` element.
///
/// Calls `html_escape::encode_script`. The contract names the result: a function of the script alone.
#[verifier::external_body]
pub(crate) fn encode_script(js: &str) -> (escaped: String)
    ensures
        escaped@ == script_encoded(js@),
{
    html_escape::encode_script(js).into_owned()
}

} // verus!
