use html_minifier::HTMLMinifierError;
use vstd::prelude::*;
use vstd::string::*;

use crate::escape::{
    encode_double_quoted_attribute, encode_script, encode_style, encode_text, escaped_attribute,
    escaped_text, script_encoded, style_encoded,
};
use crate::markdown::{
    build_comrak_options, document_title, document_title_of, markdown_nodes, markdown_settings_of,
    opt_text, pair_texts, parse_markdown, render_markdown, rendered_html, used_assets, used_assets_of, DocNode, UsedAssets,
};
use crate::options::{math_mode_is_katex, theme_name, ConvertOptions, MathMode, MermaidMode, Theme};
use crate::output::{
    external_script_pieces, joined, minified_html, script_pieces, style_parts_pieces, style_pieces,
    stylesheet_link_pieces, utf8, wrote, Output,
};
use crate::resources::{
    FALLBACK_TITLE, FONT_CJK_CSS, FONT_CJK_MONO_CSS, GENERATOR_META, HIGHLIGHT_CODE_JS,
    HIGHLIGHT_CSS_DARK, HIGHLIGHT_CSS_LIGHT, HIGHLIGHT_JS, KATEX_CDN_CSS, KATEX_CDN_JS, KATEX_CSS,
    KATEX_JS, KATEX_RENDER_JS, MARKDOWN_CSS, MARKDOWN_CSS_DARK, MARKDOWN_CSS_LIGHT, MATH_JAX_CDN_JS,
    MATH_JAX_CONFIG_JS, MATH_JAX_JS, MERMAID_CDN_JS, MERMAID_JS, MERMAID_RENDER_JS, PAGE_CSS,
    PAGE_CSS_DARK, PAGE_CSS_LIGHT,
};
use crate::text::{trim, trimmed};

verus! {

/// The `<html>` element: its `lang` attribute when the language is not empty, and its `data-theme` attribute when
/// the theme is fixed.
pub open spec fn html_element_of(options: ConvertOptions) -> Seq<char> {
    "<html"@ + (if options.lang@.len() > 0 {
        " lang=\""@ + escaped_attribute(options.lang@) + "\""@
    } else {
        Seq::empty()
    }) + (if options.theme != Theme::Auto {
        " data-theme=\""@ + theme_name(options.theme) + "\""@
    } else {
        Seq::empty()
    }) + ">"@
}

/// Write the `<html>` element.
pub fn html_element(options: &ConvertOptions) -> (element: String)
    ensures
        element@ == html_element_of(*options),
{
    let mut element = String::from_str("<html");
    if !options.lang.is_empty() {
        element.append(" lang=\"");
        element.append(encode_double_quoted_attribute(options.lang).as_str());
        element.append("\"");
    }
    match options.theme.attribute_value() {
        Some(theme) => {
            element.append(" data-theme=\"");
            element.append(theme);
            element.append("\"");
        },
        None => {},
    }
    element.append(">");
    proof {
        let lang_part = if options.lang@.len() > 0 {
            " lang=\""@ + escaped_attribute(options.lang@) + "\""@
        } else {
            Seq::<char>::empty()
        };
        let theme_part = if options.theme != Theme::Auto {
            " data-theme=\""@ + theme_name(options.theme) + "\""@
        } else {
            Seq::<char>::empty()
        };
        assert(element@ =~= "<html"@ + lang_part + theme_part + ">"@);
    }
    element
}

/// The text of an optional string, trimmed, when that is not empty.
pub open spec fn non_empty_trimmed(s: Option<&str>) -> Option<Seq<char>> {
    match s {
        Some(t) => if trimmed(t@).len() > 0 {
            Some(trimmed(t@))
        } else {
            None
        },
        None => None,
    }
}

/// Trim an optional string, and drop it when nothing is left of it.
fn trim_non_empty(s: Option<&str>) -> (t: Option<&str>)
    ensures
        opt_text(t) == non_empty_trimmed(s),
{
    match s {
        Some(text) => {
            let trimmed_text = trim(text);
            if trimmed_text.is_empty() {
                None
            } else {
                Some(trimmed_text)
            }
        },
        None => None,
    }
}

/// The title of the page: the given title; else the title of the document; else the default title; else the
/// fallback title. A title that is empty once trimmed is passed over.
pub open spec fn page_title_of(nodes: Seq<DocNode>, options: ConvertOptions) -> Seq<char> {
    match non_empty_trimmed(options.title) {
        Some(title) => title,
        None => match document_title_of(nodes) {
            Some(title) => title,
            None => match non_empty_trimmed(options.default_title) {
                Some(title) => title,
                None => FALLBACK_TITLE@,
            },
        },
    }
}

/// Find the title of the page.
pub fn page_title(nodes: &[DocNode], options: &ConvertOptions) -> (title: String)
    ensures
        title@ == page_title_of(nodes@, *options),
{
    match trim_non_empty(options.title) {
        Some(title) => title.to_owned(),
        None => match document_title(nodes) {
            Some(title) => title,
            None => match trim_non_empty(options.default_title) {
                Some(title) => title.to_owned(),
                None => FALLBACK_TITLE.to_owned(),
            },
        },
    }
}

/// The byte length of a text.
pub open spec fn byte_len(s: &str) -> int {
    s.len() as int
}

/// The byte length of a custom asset, or the given length when there is none.
pub open spec fn len_or(s: Option<&str>, default: int) -> int {
    match s {
        Some(text) => byte_len(text),
        None => default,
    }
}

/// How big the output is estimated to be: the HTML of the Markdown text and the assets which are going to be written.
pub open spec fn output_capacity_of(
    options: ConvertOptions,
    html_len: int,
    has_code: bool,
    math_mode: Option<MathMode>,
    mermaid_mode: Option<MermaidMode>,
) -> int {
    let code = if has_code {
        len_or(options.highlight_js, byte_len(HIGHLIGHT_JS)) + len_or(
            options.highlight_css,
            byte_len(HIGHLIGHT_CSS_LIGHT) + byte_len(HIGHLIGHT_CSS_DARK),
        )
    } else {
        0
    };
    let math = match math_mode {
        Some(MathMode::MathJaxEmbedded) => len_or(options.mathjax_js, byte_len(MATH_JAX_JS)),
        Some(MathMode::KatexEmbedded) => len_or(options.katex_js, byte_len(KATEX_JS)) + len_or(
            options.katex_css,
            byte_len(KATEX_CSS),
        ),
        _ => 0,
    };
    let mermaid = match mermaid_mode {
        Some(MermaidMode::Embedded) => len_or(options.mermaid_js, byte_len(MERMAID_JS)),
        _ => 0,
    };
    let cjk_fonts = if options.cjk_fonts {
        byte_len(FONT_CJK_CSS) + byte_len(FONT_CJK_MONO_CSS)
    } else {
        0
    };
    html_len + byte_len(PAGE_CSS) + len_or(options.css, byte_len(MARKDOWN_CSS)) + len_or(options.extra_css, 0)
        + cjk_fonts + code + math + mermaid
}

/// The smaller of two integers.
pub open spec fn min_int(a: int, b: int) -> int {
    if a <= b {
        a
    } else {
        b
    }
}

/// The byte length of a custom asset, or the given length when there is none.
fn len_or_else(s: Option<&str>, default: u128) -> (len: u128)
    requires
        default <= 2 * (usize::MAX as int),
    ensures
        len == len_or(s, default as int),
        len <= 2 * (usize::MAX as int),
{
    match s {
        Some(text) => text.len() as u128,
        None => default,
    }
}

/// The byte length of an asset.
fn asset_len(s: &str) -> (len: u128)
    ensures
        len == byte_len(s),
        len <= usize::MAX,
{
    s.len() as u128
}

/// The part of the estimate which the highlighted code adds.
fn code_capacity(options: &ConvertOptions, has_code: bool) -> (len: u128)
    ensures
        len == (if has_code {
            len_or(options.highlight_js, byte_len(HIGHLIGHT_JS)) + len_or(
                options.highlight_css,
                byte_len(HIGHLIGHT_CSS_LIGHT) + byte_len(HIGHLIGHT_CSS_DARK),
            )
        } else {
            0
        }),
        len <= 4 * (usize::MAX as int),
{
    if has_code {
        let js = len_or_else(options.highlight_js, asset_len(HIGHLIGHT_JS));
        let css = len_or_else(options.highlight_css, asset_len(HIGHLIGHT_CSS_LIGHT) + asset_len(HIGHLIGHT_CSS_DARK));
        js + css
    } else {
        0
    }
}

/// The part of the estimate which the math adds.
fn math_capacity(options: &ConvertOptions, math_mode: Option<MathMode>) -> (len: u128)
    ensures
        len == (match math_mode {
            Some(MathMode::MathJaxEmbedded) => len_or(options.mathjax_js, byte_len(MATH_JAX_JS)),
            Some(MathMode::KatexEmbedded) => len_or(options.katex_js, byte_len(KATEX_JS)) + len_or(
                options.katex_css,
                byte_len(KATEX_CSS),
            ),
            _ => 0,
        }),
        len <= 4 * (usize::MAX as int),
{
    match math_mode {
        Some(MathMode::MathJaxEmbedded) => len_or_else(options.mathjax_js, asset_len(MATH_JAX_JS)),
        Some(MathMode::KatexEmbedded) => len_or_else(options.katex_js, asset_len(KATEX_JS)) + len_or_else(
            options.katex_css,
            asset_len(KATEX_CSS),
        ),
        _ => 0,
    }
}

/// Estimate how big the output is going to be, up to the largest `usize`. The assets are what makes it big, so only
/// the ones which are going to be written are counted.
pub fn output_capacity(
    options: &ConvertOptions,
    markdown_html: &str,
    has_code: bool,
    math_mode: Option<MathMode>,
    mermaid_mode: Option<MermaidMode>,
) -> (capacity: usize)
    ensures
        capacity == min_int(
            output_capacity_of(*options, byte_len(markdown_html), has_code, math_mode, mermaid_mode),
            usize::MAX as int,
        ),
{
    let code = code_capacity(options, has_code);
    let math = math_capacity(options, math_mode);
    let mermaid: u128 = match mermaid_mode {
        Some(MermaidMode::Embedded) => len_or_else(options.mermaid_js, asset_len(MERMAID_JS)),
        _ => 0,
    };
    let cjk_fonts: u128 = if options.cjk_fonts {
        asset_len(FONT_CJK_CSS) + asset_len(FONT_CJK_MONO_CSS)
    } else {
        0
    };
    let base: u128 = asset_len(markdown_html) + asset_len(PAGE_CSS) + len_or_else(
        options.css,
        asset_len(MARKDOWN_CSS),
    ) + len_or_else(options.extra_css, 0);
    let total: u128 = base + cjk_fonts + code + math + mermaid;
    if total > usize::MAX as u128 {
        usize::MAX
    } else {
        total as usize
    }
}

/// Whether the code blocks are highlighted: **highlight.js** is wanted and some code block needs it.
pub open spec fn has_code_of(options: ConvertOptions, used: UsedAssets) -> bool {
    options.highlight && used.highlight
}

/// How the math is rendered: as the options say, when the document has math.
pub open spec fn math_mode_of(options: ConvertOptions, used: UsedAssets) -> Option<MathMode> {
    if used.math {
        options.math
    } else {
        None
    }
}

/// How the diagrams are drawn: as the options say, when the document has diagrams.
pub open spec fn mermaid_mode_of(options: ConvertOptions, used: UsedAssets) -> Option<MermaidMode> {
    if used.mermaid {
        options.mermaid
    } else {
        None
    }
}

/// The pieces of a `<style>` element with a custom stylesheet.
pub open spec fn custom_style_pieces(css: &str) -> Seq<Seq<u8>> {
    style_pieces(style_encoded(css@))
}

/// The pieces of a `<script>` element with a custom script.
pub open spec fn custom_script_pieces(js: &str) -> Seq<Seq<u8>> {
    script_pieces(script_encoded(js@))
}

/// The start of the page, up to its title.
pub open spec fn head_start_pieces(options: ConvertOptions, title: Seq<char>) -> Seq<Seq<u8>> {
    seq![
        utf8("<!DOCTYPE html>"@),
        utf8(html_element_of(options)),
        utf8("<head>"@),
        utf8("<meta charset=UTF-8>"@),
        utf8("<meta name=\"viewport\" content=\"width=device-width, initial-scale=1, shrink-to-fit=no\">"@),
        utf8(GENERATOR_META@),
        utf8("<title>"@),
        utf8(escaped_text(title)),
        utf8("</title>"@),
    ]
}

/// The stylesheets of the page: its layout, its theme, the style of the Markdown content and the CJK fonts.
pub open spec fn styles_pieces(options: ConvertOptions) -> Seq<Seq<u8>> {
    style_pieces(PAGE_CSS@) + match options.theme {
        Theme::Auto => Seq::empty(),
        Theme::Light => style_pieces(PAGE_CSS_LIGHT@),
        Theme::Dark => style_pieces(PAGE_CSS_DARK@),
    } + match options.css {
        Some(css) => custom_style_pieces(css),
        None => style_pieces(
            match options.theme {
                Theme::Auto => MARKDOWN_CSS@,
                Theme::Light => MARKDOWN_CSS_LIGHT@,
                Theme::Dark => MARKDOWN_CSS_DARK@,
            },
        ),
    } + if options.cjk_fonts {
        style_pieces(FONT_CJK_CSS@) + style_pieces(FONT_CJK_MONO_CSS@)
    } else {
        Seq::empty()
    }
}

/// The parts of the **highlight.js** stylesheet which follows the color scheme of the system.
pub open spec fn auto_highlight_css_parts() -> Seq<&'static str> {
    seq![
        "@media (prefers-color-scheme:light){",
        HIGHLIGHT_CSS_LIGHT,
        "}@media (prefers-color-scheme:dark){",
        HIGHLIGHT_CSS_DARK,
        "}",
    ]
}

/// The stylesheet of **highlight.js**.
pub open spec fn highlight_style_pieces(options: ConvertOptions) -> Seq<Seq<u8>> {
    match options.highlight_css {
        Some(css) => custom_style_pieces(css),
        None => match options.theme {
            Theme::Auto => style_parts_pieces(auto_highlight_css_parts()),
            Theme::Light => style_pieces(HIGHLIGHT_CSS_LIGHT@),
            Theme::Dark => style_pieces(HIGHLIGHT_CSS_DARK@),
        },
    }
}

/// The stylesheet of **KaTeX**.
pub open spec fn katex_style_pieces(options: ConvertOptions) -> Seq<Seq<u8>> {
    match options.katex_css {
        Some(css) => custom_style_pieces(css),
        None => style_pieces(KATEX_CSS@),
    }
}

/// The assets of **highlight.js**, when the code blocks are highlighted.
pub open spec fn code_pieces(options: ConvertOptions, has_code: bool) -> Seq<Seq<u8>> {
    if has_code {
        highlight_style_pieces(options) + match options.highlight_js {
            Some(js) => custom_script_pieces(js),
            None => script_pieces(HIGHLIGHT_JS@),
        }
    } else {
        Seq::empty()
    }
}

/// The assets of the math renderer.
pub open spec fn math_pieces(options: ConvertOptions, math_mode: Option<MathMode>) -> Seq<Seq<u8>> {
    match math_mode {
        Some(MathMode::MathJaxEmbedded) => script_pieces(MATH_JAX_CONFIG_JS@) + match options.mathjax_js {
            Some(js) => custom_script_pieces(js),
            None => script_pieces(MATH_JAX_JS@),
        },
        Some(MathMode::MathJaxClient) => script_pieces(MATH_JAX_CONFIG_JS@) + external_script_pieces(
            MATH_JAX_CDN_JS@,
        ),
        Some(MathMode::KatexEmbedded) => katex_style_pieces(options) + match options.katex_js {
            Some(js) => custom_script_pieces(js),
            None => script_pieces(KATEX_JS@),
        },
        Some(MathMode::KatexClient) => stylesheet_link_pieces(KATEX_CDN_CSS@) + external_script_pieces(
            KATEX_CDN_JS@,
        ),
        None => Seq::empty(),
    }
}

/// The assets of **Mermaid**.
pub open spec fn mermaid_pieces(options: ConvertOptions, mermaid_mode: Option<MermaidMode>) -> Seq<Seq<u8>> {
    match mermaid_mode {
        Some(MermaidMode::Embedded) => match options.mermaid_js {
            Some(js) => custom_script_pieces(js),
            None => script_pieces(MERMAID_JS@),
        },
        Some(MermaidMode::Client) => external_script_pieces(MERMAID_CDN_JS@),
        None => Seq::empty(),
    }
}

/// The extra stylesheet, if any.
pub open spec fn extra_style_pieces(options: ConvertOptions) -> Seq<Seq<u8>> {
    match options.extra_css {
        Some(css) => custom_style_pieces(css),
        None => Seq::empty(),
    }
}

/// The extra stylesheet, the end of the head and the content.
pub open spec fn body_pieces(options: ConvertOptions, markdown_html: Seq<char>) -> Seq<Seq<u8>> {
    extra_style_pieces(options) + seq![
        utf8("</head>"@),
        utf8("<body>"@),
        utf8("<article class=\"markdown-body\">"@),
        utf8(markdown_html),
        utf8("</article>"@),
    ]
}

/// The scripts which run once the content is there, and the end of the page.
pub open spec fn tail_pieces(
    has_code: bool,
    math_mode: Option<MathMode>,
    mermaid_mode: Option<MermaidMode>,
) -> Seq<Seq<u8>> {
    (if mermaid_mode is Some {
        script_pieces(MERMAID_RENDER_JS@)
    } else {
        Seq::empty()
    }) + (if has_code {
        script_pieces(HIGHLIGHT_CODE_JS@)
    } else {
        Seq::empty()
    }) + (if math_mode matches Some(mode) && math_mode_is_katex(mode) {
        script_pieces(KATEX_RENDER_JS@)
    } else {
        Seq::empty()
    }) + seq![utf8("</body>"@), utf8("</html>"@)]
}

/// The head of the page of a document, but for the extra stylesheet and the end of the head.
pub open spec fn head_pieces(nodes: Seq<DocNode>, options: ConvertOptions) -> Seq<Seq<u8>> {
    let used = used_assets_of(nodes, options);
    head_start_pieces(options, page_title_of(nodes, options)) + styles_pieces(options) + code_pieces(
        options,
        has_code_of(options, used),
    ) + math_pieces(options, math_mode_of(options, used)) + mermaid_pieces(options, mermaid_mode_of(options, used))
}

/// The pieces of the page of a document, in order.
pub open spec fn page_pieces(nodes: Seq<DocNode>, options: ConvertOptions, markdown_html: Seq<char>) -> Seq<
    Seq<u8>,
> {
    let used = used_assets_of(nodes, options);
    let has_code = has_code_of(options, used);
    let math_mode = math_mode_of(options, used);
    let mermaid_mode = mermaid_mode_of(options, used);
    head_pieces(nodes, options) + body_pieces(options, markdown_html) + tail_pieces(has_code, math_mode, mermaid_mode)
}

/// The HTML file of a Markdown text whose content **comrak** rendered as the given HTML: the pieces of its page, one
/// after the other, minified when the options say so.
pub open spec fn converted_html(markdown: Seq<char>, options: ConvertOptions, markdown_html: Seq<char>) -> Seq<u8> {
    let pieces = page_pieces(markdown_nodes(markdown, markdown_settings_of(options)), options, markdown_html);
    if options.minify {
        minified_html(pieces)
    } else {
        joined(pieces)
    }
}

/// Write the start of the page, up to its title.
fn write_head_start(output: &mut Output, options: &ConvertOptions, title: &str) -> (res: Result<(), HTMLMinifierError>)
    ensures
        wrote(*old(output), *final(output), res, head_start_pieces(*options, title@)),
{
    output.digest("<!DOCTYPE html>")?;
    let element = html_element(options);
    output.digest(element.as_str())?;
    output.digest("<head>")?;
    output.digest("<meta charset=UTF-8>")?;
    output.digest(
        "<meta name=\"viewport\" content=\"width=device-width, initial-scale=1, shrink-to-fit=no\">",
    )?;
    output.digest(GENERATOR_META)?;
    output.digest("<title>")?;
    let escaped = encode_text(title);
    output.digest(escaped.as_str())?;
    let res = output.digest("</title>");
    proof {
        if res is Ok {
            assert(output.pieces() =~= old(output).pieces() + head_start_pieces(*options, title@));
        }
    }
    res
}

/// Write a `<style>` element with a custom stylesheet.
fn write_custom_style(output: &mut Output, css: &str) -> (res: Result<(), HTMLMinifierError>)
    ensures
        wrote(*old(output), *final(output), res, custom_style_pieces(css)),
{
    let encoded = encode_style(css);
    output.style(encoded.as_str())
}

/// Write a `<script>` element with a custom script.
fn write_custom_script(output: &mut Output, js: &str) -> (res: Result<(), HTMLMinifierError>)
    ensures
        wrote(*old(output), *final(output), res, custom_script_pieces(js)),
{
    let encoded = encode_script(js);
    output.script(encoded.as_str())
}

/// Write the stylesheets of the page.
fn write_styles(output: &mut Output, options: &ConvertOptions) -> (res: Result<(), HTMLMinifierError>)
    ensures
        wrote(*old(output), *final(output), res, styles_pieces(*options)),
{
    let ghost start = output.pieces();
    output.style(PAGE_CSS)?;
    match options.theme {
        Theme::Auto => {},
        Theme::Light => output.style(PAGE_CSS_LIGHT)?,
        Theme::Dark => output.style(PAGE_CSS_DARK)?,
    }
    match options.css {
        Some(css) => write_custom_style(output, css)?,
        None => output.style(
            match options.theme {
                Theme::Auto => MARKDOWN_CSS,
                Theme::Light => MARKDOWN_CSS_LIGHT,
                Theme::Dark => MARKDOWN_CSS_DARK,
            },
        )?,
    }
    if options.cjk_fonts {
        output.style(FONT_CJK_CSS)?;
        output.style(FONT_CJK_MONO_CSS)?;
    }
    proof {
        assert(output.pieces() =~= start + styles_pieces(*options));
    }
    Ok(())
}

/// Write the assets of **highlight.js**, when the code blocks are highlighted.
fn write_code(output: &mut Output, options: &ConvertOptions, has_code: bool) -> (res: Result<(), HTMLMinifierError>)
    ensures
        wrote(*old(output), *final(output), res, code_pieces(*options, has_code)),
{
    if has_code {
        match options.highlight_css {
            Some(css) => write_custom_style(output, css)?,
            None => match options.theme {
                Theme::Auto => {
                    let parts = [
                        "@media (prefers-color-scheme:light){",
                        HIGHLIGHT_CSS_LIGHT,
                        "}@media (prefers-color-scheme:dark){",
                        HIGHLIGHT_CSS_DARK,
                        "}",
                    ];
                    assert(parts@ =~= auto_highlight_css_parts());
                    output.style_parts(&parts)?
                },
                Theme::Light => output.style(HIGHLIGHT_CSS_LIGHT)?,
                Theme::Dark => output.style(HIGHLIGHT_CSS_DARK)?,
            },
        }
        match options.highlight_js {
            Some(js) => write_custom_script(output, js)?,
            None => output.script(HIGHLIGHT_JS)?,
        }
        proof {
            assert(output.pieces() =~= old(output).pieces() + code_pieces(*options, has_code));
        }
    } else {
        proof {
            assert(output.pieces() =~= old(output).pieces() + code_pieces(*options, has_code));
        }
    }
    Ok(())
}

/// Write the assets of the math renderer.
fn write_math(output: &mut Output, options: &ConvertOptions, math_mode: Option<MathMode>) -> (res: Result<
    (),
    HTMLMinifierError,
>)
    ensures
        wrote(*old(output), *final(output), res, math_pieces(*options, math_mode)),
{
    // The math library has to be defined before the code which uses it runs, so nothing here is deferred or async.
    match math_mode {
        Some(MathMode::MathJaxEmbedded) => {
            output.script(MATH_JAX_CONFIG_JS)?;
            match options.mathjax_js {
                Some(js) => write_custom_script(output, js)?,
                None => output.script(MATH_JAX_JS)?,
            }
        },
        Some(MathMode::MathJaxClient) => {
            output.script(MATH_JAX_CONFIG_JS)?;
            output.external_script(MATH_JAX_CDN_JS)?;
        },
        Some(MathMode::KatexEmbedded) => {
            match options.katex_css {
                Some(css) => write_custom_style(output, css)?,
                None => output.style(KATEX_CSS)?,
            }
            match options.katex_js {
                Some(js) => write_custom_script(output, js)?,
                None => output.script(KATEX_JS)?,
            }
        },
        Some(MathMode::KatexClient) => {
            output.stylesheet_link(KATEX_CDN_CSS)?;
            output.external_script(KATEX_CDN_JS)?;
        },
        None => {},
    }
    proof {
        assert(output.pieces() =~= old(output).pieces() + math_pieces(*options, math_mode));
    }
    Ok(())
}

/// Write the assets of **Mermaid**.
fn write_mermaid(output: &mut Output, options: &ConvertOptions, mermaid_mode: Option<MermaidMode>) -> (res: Result<
    (),
    HTMLMinifierError,
>)
    ensures
        wrote(*old(output), *final(output), res, mermaid_pieces(*options, mermaid_mode)),
{
    // Mermaid is loaded here for the same reason as the math library, and it also has to be ready before highlight.js
    // looks at the code blocks.
    match mermaid_mode {
        Some(MermaidMode::Embedded) => match options.mermaid_js {
            Some(js) => write_custom_script(output, js)?,
            None => output.script(MERMAID_JS)?,
        },
        Some(MermaidMode::Client) => output.external_script(MERMAID_CDN_JS)?,
        None => {},
    }
    proof {
        assert(output.pieces() =~= old(output).pieces() + mermaid_pieces(*options, mermaid_mode));
    }
    Ok(())
}

/// Write the extra stylesheet, the end of the head and the content.
fn write_body(output: &mut Output, options: &ConvertOptions, markdown_html: &str) -> (res: Result<(), HTMLMinifierError>)
    ensures
        wrote(*old(output), *final(output), res, body_pieces(*options, markdown_html@)),
{
    match options.extra_css {
        Some(css) => write_custom_style(output, css)?,
        None => {},
    }
    output.digest("</head>")?;
    output.digest("<body>")?;
    output.digest("<article class=\"markdown-body\">")?;
    output.digest(markdown_html)?;
    let res = output.digest("</article>");
    proof {
        if res is Ok {
            assert(output.pieces() =~= old(output).pieces() + body_pieces(*options, markdown_html@));
        }
    }
    res
}

/// Write the scripts which run once the content is there, and the end of the page.
fn write_tail(
    output: &mut Output,
    has_code: bool,
    math_mode: Option<MathMode>,
    mermaid_mode: Option<MermaidMode>,
) -> (res: Result<(), HTMLMinifierError>)
    ensures
        wrote(*old(output), *final(output), res, tail_pieces(has_code, math_mode, mermaid_mode)),
{
    // This runs first so that the code blocks it turns into diagrams are gone by the time highlight.js walks the
    // document.
    if mermaid_mode.is_some() {
        output.script(MERMAID_RENDER_JS)?;
    }
    if has_code {
        output.script(HIGHLIGHT_CODE_JS)?;
    }
    let katex = match math_mode {
        Some(mode) => mode.is_katex(),
        None => false,
    };
    if katex {
        output.script(KATEX_RENDER_JS)?;
    }
    output.digest("</body>")?;
    let res = output.digest("</html>");
    proof {
        if res is Ok {
            assert(output.pieces() =~= old(output).pieces() + tail_pieces(has_code, math_mode, mermaid_mode));
        }
    }
    res
}

/// Convert a Markdown text to a single HTML file with built-in CSS and JS.
///
/// **comrak** renders the text with the settings that [`build_comrak_options`] gives, and the URL of each image is
/// replaced by the `data` URL which `images` gives for it, when the images are embedded. Raw HTML and dangerous URLs
/// are left out of the rendering whatever `allow_unsafe` says; a caller which keeps them renders the text itself and
/// calls [`convert_rendered`]. The conversion always succeeds.
pub fn convert(markdown: &str, options: &ConvertOptions, images: &[(String, String)]) -> (res: Result<
    Vec<u8>,
    HTMLMinifierError,
>)
    ensures
        res is Ok,
        res matches Ok(html) ==> html@ == converted_html(
            markdown@,
            *options,
            rendered_html(markdown@, markdown_settings_of(*options), pair_texts(images@)),
        ),
{
    let settings = build_comrak_options(options);
    let markdown_html = render_markdown(markdown, &settings, images);
    convert_rendered(markdown, options, markdown_html.as_str())
}

/// Convert a Markdown text to a single HTML file with built-in CSS and JS, around the HTML which **comrak** rendered
/// out of the text with the settings that [`build_comrak_options`] gives.
///
/// The conversion always succeeds: the page is written as it is, or as the minifier makes it.
pub fn convert_rendered(markdown: &str, options: &ConvertOptions, markdown_html: &str) -> (res: Result<
    Vec<u8>,
    HTMLMinifierError,
>)
    ensures
        res is Ok,
        res matches Ok(html) ==> html@ == converted_html(markdown@, *options, markdown_html@),
{
    let settings = build_comrak_options(options);
    let nodes = parse_markdown(markdown, &settings);
    let title = page_title(nodes.as_slice(), options);
    let used = used_assets(nodes.as_slice(), options);
    let has_code = options.highlight && used.highlight;
    let math_mode = if used.math {
        options.math
    } else {
        None
    };
    let mermaid_mode = if used.mermaid {
        options.mermaid
    } else {
        None
    };
    let capacity = output_capacity(options, markdown_html, has_code, math_mode, mermaid_mode);
    let mut output = Output::new(options.minify, capacity);
    write_head_start(&mut output, options, title.as_str())?;
    write_styles(&mut output, options)?;
    write_code(&mut output, options, has_code)?;
    write_math(&mut output, options, math_mode)?;
    write_mermaid(&mut output, options, mermaid_mode)?;
    write_body(&mut output, options, markdown_html)?;
    write_tail(&mut output, has_code, math_mode, mermaid_mode)?;
    proof {
        assert(output.pieces() =~= page_pieces(nodes@, *options, markdown_html@));
    }
    Ok(output.into_html())
}

} // verus!
