use vstd::prelude::*;
use vstd::utf8::*;

use crate::markdown::{
    document_title_of, markdown_nodes, markdown_settings_of, needs_highlight, needs_math, needs_mermaid,
    used_assets_of, DocNode, NodeKind, front_matter_title_of, node_text_of, title_from, node_title, highlighted,
};
use crate::text::first_word;
use crate::cli::{file_stem_of, output_plan_of};
use crate::images::file_name_start;
use crate::options::{
    math_mode_name, mermaid_mode_name, theme_name, ConvertOptions, MathMode, MermaidMode, Theme,
};
use crate::output::{joined, style_pieces, utf8};
use crate::page::{
    body_pieces, code_pieces, extra_style_pieces, head_pieces, converted_html, has_code_of, math_mode_of, math_pieces, mermaid_mode_of,
    mermaid_pieces, non_empty_trimmed, page_pieces, page_title_of, tail_pieces, head_start_pieces, styles_pieces,
};
use crate::resources::{
    FALLBACK_TITLE, MARKDOWN_CSS, MARKDOWN_CSS_DARK, MARKDOWN_CSS_LIGHT, PAGE_CSS_DARK, PAGE_CSS_LIGHT,
};
use crate::cli::{misplaced_math_asset_of, misplaced_mermaid_asset_of, CLIArgs};
use crate::images::{is_absolute_path, local_image_of};
use crate::url::{
    has_escape, is_ascii_alpha, is_scheme_char, lemma_percent_decoded_without_escape, percent_decoded_text,
    starts_with_scheme,
};

verus! {

/// Each theme has a name of its own, so parsing the name of a theme gives that theme back.
pub proof fn theme_names_are_distinct(a: Theme, b: Theme)
    ensures
        theme_name(a) == theme_name(b) ==> a == b,
{
    reveal_strlit("auto");
    reveal_strlit("light");
    reveal_strlit("dark");
    assert("auto"@[0] != "light"@[0] && "auto"@[0] != "dark"@[0] && "light"@[0] != "dark"@[0]);
}

/// Each math mode has a name of its own, so parsing the name of a math mode gives that mode back.
pub proof fn math_mode_names_are_distinct(a: MathMode, b: MathMode)
    ensures
        math_mode_name(a) == math_mode_name(b) ==> a == b,
{
    reveal_strlit("mathjax-embedded");
    reveal_strlit("mathjax-client");
    reveal_strlit("katex-embedded");
    reveal_strlit("katex-client");
    assert("mathjax-embedded"@.len() != "mathjax-client"@.len());
    assert("katex-embedded"@.len() != "katex-client"@.len());
    assert("mathjax-embedded"@[0] != "katex-embedded"@[0]);
    assert("mathjax-embedded"@[0] != "katex-client"@[0]);
    assert("mathjax-client"@[0] != "katex-embedded"@[0]);
    assert("mathjax-client"@[0] != "katex-client"@[0]);
}

/// Each Mermaid mode has a name of its own, so parsing the name of a Mermaid mode gives that mode back.
pub proof fn mermaid_mode_names_are_distinct(a: MermaidMode, b: MermaidMode)
    ensures
        mermaid_mode_name(a) == mermaid_mode_name(b) ==> a == b,
{
    reveal_strlit("embedded");
    reveal_strlit("client");
    assert("embedded"@[0] != "client"@[0]);
}

/// The title of a page is the given title when it is not blank; else the title of the document, from its front
/// matter or its first level-1 heading; else the default title when it is not blank; else `Untitled`.
pub proof fn title_precedence(nodes: Seq<DocNode>, options: ConvertOptions)
    ensures
        non_empty_trimmed(options.title) matches Some(title) ==> page_title_of(nodes, options) == title,
        non_empty_trimmed(options.title) is None ==> (document_title_of(nodes) matches Some(title)
            ==> page_title_of(nodes, options) == title),
        non_empty_trimmed(options.title) is None && document_title_of(nodes) is None ==> (non_empty_trimmed(
            options.default_title,
        ) matches Some(title) ==> page_title_of(nodes, options) == title),
        non_empty_trimmed(options.title) is None && document_title_of(nodes) is None
            && non_empty_trimmed(options.default_title) is None ==> page_title_of(nodes, options)
            == FALLBACK_TITLE@,
{
}

/// A code block is math, a diagram, or highlighted code, and never two of these at once.
pub proof fn a_code_block_has_one_use(node: DocNode, options: ConvertOptions)
    ensures
        !(needs_math(node) && needs_highlight(node, options)),
        !(needs_mermaid(node, options.mermaid is Some) && needs_highlight(node, options)),
        !(needs_math(node) && needs_mermaid(node, options.mermaid is Some)),
{
    reveal_strlit("math");
    reveal_strlit("mermaid");
    assert("math"@.len() != "mermaid"@.len());
}

/// A document without math gets none of the math assets and no math rendering script.
pub proof fn math_assets_only_for_math(nodes: Seq<DocNode>, options: ConvertOptions)
    requires
        forall|i: int| 0 <= i < nodes.len() ==> !#[trigger] needs_math(nodes[i]),
    ensures
        math_mode_of(options, used_assets_of(nodes, options)) is None,
        math_pieces(options, math_mode_of(options, used_assets_of(nodes, options))) == Seq::<Seq<u8>>::empty(),
{
}

/// A document without code that **highlight.js** handles gets none of its assets and no highlighting script, and so
/// does every document when highlighting is off.
pub proof fn highlight_assets_only_for_highlighted_code(nodes: Seq<DocNode>, options: ConvertOptions)
    requires
        !options.highlight || forall|i: int| 0 <= i < nodes.len() ==> !#[trigger] needs_highlight(nodes[i], options),
    ensures
        !has_code_of(options, used_assets_of(nodes, options)),
        code_pieces(options, has_code_of(options, used_assets_of(nodes, options))) == Seq::<Seq<u8>>::empty(),
{
}

/// A document without diagrams that **Mermaid** draws gets none of its assets and no diagram script, and so does
/// every document when **Mermaid** is off.
pub proof fn mermaid_assets_only_for_diagrams(nodes: Seq<DocNode>, options: ConvertOptions)
    requires
        options.mermaid is None || forall|i: int| 0 <= i < nodes.len() ==> !#[trigger] needs_mermaid(nodes[i], true),
    ensures
        mermaid_mode_of(options, used_assets_of(nodes, options)) is None,
        mermaid_pieces(options, mermaid_mode_of(options, used_assets_of(nodes, options))) == Seq::<Seq<u8>>::empty(),
{
    if options.mermaid is Some {
        assert forall|i: int| 0 <= i < nodes.len() implies !#[trigger] needs_mermaid(
            nodes[i],
            options.mermaid is Some,
        ) by {
            assert(!needs_mermaid(nodes[i], true));
        }
    }
}

/// Two runs of pieces, joined one after the other, join into the two joined runs one after the other.
proof fn joined_concat(a: Seq<Seq<u8>>, b: Seq<Seq<u8>>)
    ensures
        joined(a + b) == joined(a) + joined(b),
    decreases b.len(),
{
    if b.len() == 0 {
        assert(a + b =~= a);
        assert(joined(a) + joined(b) =~= joined(a));
    } else {
        assert((a + b).drop_last() =~= a + b.drop_last());
        joined_concat(a, b.drop_last());
        assert(joined(a + b) =~= joined(a) + joined(b));
    }
}

/// The pieces of the extra stylesheet, the end of the head and the content, one after the other.
proof fn joined_body(options: ConvertOptions, markdown_html: Seq<char>)
    ensures
        joined(body_pieces(options, markdown_html)) == joined(
            extra_style_pieces(options) + seq![utf8("</head>"@), utf8("<body>"@)],
        ) + content_bytes(markdown_html),
{
    let opening = extra_style_pieces(options) + seq![utf8("</head>"@), utf8("<body>"@)];
    let a = utf8("<article class=\"markdown-body\">"@);
    let b = utf8(markdown_html);
    let c = utf8("</article>"@);
    let s0 = Seq::<Seq<u8>>::empty();
    let s1 = s0.push(a);
    let s2 = s1.push(b);
    let s3 = s2.push(c);
    assert(body_pieces(options, markdown_html) =~= opening + s3);
    joined_concat(opening, s3);
    assert(s1.drop_last() =~= s0);
    assert(s2.drop_last() =~= s1);
    assert(s3.drop_last() =~= s2);
    assert(joined(s0) =~= Seq::<u8>::empty());
    assert(joined(s1) =~= a);
    assert(joined(s2) =~= a + b);
    assert(joined(s3) =~= content_bytes(markdown_html));
}

/// The bytes of the `<article class="markdown-body">` element around the HTML of the Markdown content.
pub open spec fn content_bytes(markdown_html: Seq<char>) -> Seq<u8> {
    utf8("<article class=\"markdown-body\">"@) + utf8(markdown_html) + utf8("</article>"@)
}

/// A page which is not minified holds the HTML of the Markdown content as it is, inside the
/// `<article class="markdown-body">` element.
pub proof fn a_plain_page_holds_the_content(markdown: Seq<char>, options: ConvertOptions, markdown_html: Seq<char>)
    requires
        !options.minify,
    ensures
        exists|start: int|
            0 <= start && start + content_bytes(markdown_html).len() <= converted_html(
                markdown,
                options,
                markdown_html,
            ).len() && #[trigger] converted_html(markdown, options, markdown_html).subrange(
                start,
                start + content_bytes(markdown_html).len(),
            ) == content_bytes(markdown_html),
{
    let nodes = markdown_nodes(markdown, markdown_settings_of(options));
    let used = used_assets_of(nodes, options);
    let head = head_pieces(nodes, options);
    let body = body_pieces(options, markdown_html);
    let tail = tail_pieces(has_code_of(options, used), math_mode_of(options, used), mermaid_mode_of(options, used));
    let opening = extra_style_pieces(options) + seq![utf8("</head>"@), utf8("<body>"@)];
    let content = content_bytes(markdown_html);
    assert(page_pieces(nodes, options, markdown_html) == head + body + tail);
    joined_concat(head + body, tail);
    joined_concat(head, body);
    joined_body(options, markdown_html);
    let page = converted_html(markdown, options, markdown_html);
    assert(page == joined(head) + joined(opening) + content + joined(tail));
    let start: int = joined(head).len() as int + joined(opening).len() as int;
    assert(page.subrange(start, start + content.len()) =~= content);
}

/// A URL which has nothing to decode, because none of its `%` starts two hexadecimal digits, is decoded into itself.
pub proof fn a_url_with_nothing_to_decode_is_kept(url: Seq<char>)
    requires
        !has_escape(encode_utf8(url)),
    ensures
        percent_decoded_text(url) == url,
{
    lemma_percent_decoded_without_escape(encode_utf8(url));
    encode_utf8_valid_utf8(url);
    encode_utf8_decode_utf8(url);
}

/// A single letter before `:` is no scheme, so that a Windows drive letter is left to the absolute path check.
pub proof fn a_drive_letter_is_no_scheme(url: Seq<char>)
    requires
        url.len() > 1,
        url[1] == ':',
    ensures
        !starts_with_scheme(url),
{
    if starts_with_scheme(url) {
        let i = choose|i: int|
            #![trigger url[i]]
            1 < i < url.len() && url[i] == ':' && is_ascii_alpha(url[0]) && forall|j: int|
                0 <= j < i ==> is_scheme_char(#[trigger] url[j]);
        assert(is_scheme_char(url[1]));
    }
}

/// Remote URLs, `data` URLs, absolute paths and bare fragments never refer to a local image.
pub proof fn only_relative_urls_refer_to_local_images(url: Seq<char>)
    requires
        url.len() == 0 || url[0] == '/' || url[0] == '\\' || url[0] == '#' || starts_with_scheme(url),
    ensures
        local_image_of(url) is None,
{
}

/// The path of a local image is never absolute, however it was percent-encoded: `/pictures/pic.png`,
/// `%2Fpictures/pic.png` and `C:\pictures\pic.png` all stay untouched.
pub proof fn a_local_image_path_is_relative(url: Seq<char>)
    ensures
        local_image_of(url) matches Some((path, _)) ==> !is_absolute_path(path),
{
}

/// An asset option is accepted exactly when the chosen mode is the one it belongs to: a **MathJax** bundle needs
/// `mathjax-embedded`, a **KaTeX** script or stylesheet needs `katex-embedded`, and a **Mermaid** bundle needs
/// `embedded`.
pub proof fn an_asset_needs_its_mode(args: CLIArgs)
    ensures
        misplaced_math_asset_of(args) is None <==> (args.mathjax_js_path is Some ==> args.math_mode
            == MathMode::MathJaxEmbedded) && ((args.katex_js_path is Some || args.katex_css_path is Some)
            ==> args.math_mode == MathMode::KatexEmbedded),
        misplaced_mermaid_asset_of(args) is None <==> (args.mermaid_js_path is Some ==> args.mermaid_mode
            == MermaidMode::Embedded),
{
}

/// A math or Mermaid library is written only when the document uses it, so for a document without math and without
/// diagrams, the chosen math and Mermaid modes and their custom assets change nothing in the page: neither the
/// settings it is rendered with nor the page around what is rendered.
pub proof fn unused_modes_change_nothing(
    markdown: Seq<char>,
    options: ConvertOptions,
    other: ConvertOptions,
    markdown_html: Seq<char>,
)
    requires
        options.math is Some,
        other.math is Some,
        options.mermaid is Some,
        other.mermaid is Some,
        other == (ConvertOptions {
            math: other.math,
            mermaid: other.mermaid,
            mathjax_js: other.mathjax_js,
            katex_js: other.katex_js,
            katex_css: other.katex_css,
            mermaid_js: other.mermaid_js,
            ..options
        }),
        forall|i: int|
            0 <= i < markdown_nodes(markdown, markdown_settings_of(options)).len() ==> !#[trigger] needs_math(
                markdown_nodes(markdown, markdown_settings_of(options))[i],
            ) && !needs_mermaid(markdown_nodes(markdown, markdown_settings_of(options))[i], true),
    ensures
        markdown_settings_of(options) == markdown_settings_of(other),
        converted_html(markdown, options, markdown_html) == converted_html(markdown, other, markdown_html),
{
    assert(markdown_settings_of(options) == markdown_settings_of(other));
    let nodes = markdown_nodes(markdown, markdown_settings_of(options));
    assert forall|i: int| 0 <= i < nodes.len() implies #[trigger] needs_highlight(nodes[i], options)
        == needs_highlight(nodes[i], other) by {}
    let used = used_assets_of(nodes, options);
    let used_other = used_assets_of(nodes, other);
    assert(used.highlight == used_other.highlight) by {
        if used.highlight {
            let i = choose|i: int| 0 <= i < nodes.len() && #[trigger] needs_highlight(nodes[i], options);
            assert(needs_highlight(nodes[i], other));
        }
        if used_other.highlight {
            let i = choose|i: int| 0 <= i < nodes.len() && #[trigger] needs_highlight(nodes[i], other);
            assert(needs_highlight(nodes[i], options));
        }
    }
    assert(!used.math && !used_other.math) by {
        assert forall|i: int| 0 <= i < nodes.len() implies !#[trigger] needs_math(nodes[i]) by {}
    }
    assert(!used.mermaid && !used_other.mermaid) by {
        assert forall|i: int| 0 <= i < nodes.len() implies !#[trigger] needs_mermaid(nodes[i], true) by {
            assert(!needs_math(nodes[i]));
        }
    }
    assert(used == used_other);
    assert(head_pieces(nodes, options) == head_pieces(nodes, other));
    assert(page_pieces(nodes, options, markdown_html) == page_pieces(nodes, other, markdown_html));
}

/// Without a custom stylesheet, the page carries the Markdown stylesheet of the chosen theme: the one which follows
/// the color scheme of the system for `auto`, the light one for `light` and the dark one for `dark`; a fixed theme
/// also carries the page colors of that theme.
pub proof fn the_stylesheets_follow_the_theme(nodes: Seq<DocNode>, options: ConvertOptions, markdown_html: Seq<char>)
    requires
        options.css is None,
    ensures
        options.theme == Theme::Auto ==> page_pieces(nodes, options, markdown_html).contains(utf8(MARKDOWN_CSS@)),
        options.theme == Theme::Light ==> page_pieces(nodes, options, markdown_html).contains(utf8(MARKDOWN_CSS_LIGHT@))
            && page_pieces(nodes, options, markdown_html).contains(utf8(PAGE_CSS_LIGHT@)),
        options.theme == Theme::Dark ==> page_pieces(nodes, options, markdown_html).contains(utf8(MARKDOWN_CSS_DARK@))
            && page_pieces(nodes, options, markdown_html).contains(utf8(PAGE_CSS_DARK@)),
{
    let x = match options.theme {
        Theme::Auto => MARKDOWN_CSS@,
        Theme::Light => MARKDOWN_CSS_LIGHT@,
        Theme::Dark => MARKDOWN_CSS_DARK@,
    };
    lemma_style_contains(x);
    let page_part = match options.theme {
        Theme::Auto => Seq::<Seq<u8>>::empty(),
        Theme::Light => style_pieces(PAGE_CSS_LIGHT@),
        Theme::Dark => style_pieces(PAGE_CSS_DARK@),
    };
    let layout = style_pieces(crate::resources::PAGE_CSS@);
    let cjk = if options.cjk_fonts {
        style_pieces(crate::resources::FONT_CJK_CSS@) + style_pieces(crate::resources::FONT_CJK_MONO_CSS@)
    } else {
        Seq::empty()
    };
    assert(styles_pieces(options) == layout + page_part + style_pieces(x) + cjk);
    lemma_contains_right(layout + page_part, style_pieces(x), utf8(x));
    lemma_contains_left(layout + page_part + style_pieces(x), cjk, utf8(x));
    if options.theme == Theme::Light {
        lemma_style_contains(PAGE_CSS_LIGHT@);
        lemma_contains_right(layout, page_part, utf8(PAGE_CSS_LIGHT@));
        lemma_contains_left(layout + page_part, style_pieces(x), utf8(PAGE_CSS_LIGHT@));
        lemma_contains_left(layout + page_part + style_pieces(x), cjk, utf8(PAGE_CSS_LIGHT@));
    }
    if options.theme == Theme::Dark {
        lemma_style_contains(PAGE_CSS_DARK@);
        lemma_contains_right(layout, page_part, utf8(PAGE_CSS_DARK@));
        lemma_contains_left(layout + page_part, style_pieces(x), utf8(PAGE_CSS_DARK@));
        lemma_contains_left(layout + page_part + style_pieces(x), cjk, utf8(PAGE_CSS_DARK@));
    }
    lemma_page_holds_styles(nodes, options, markdown_html, utf8(x));
    if options.theme == Theme::Light {
        lemma_page_holds_styles(nodes, options, markdown_html, utf8(PAGE_CSS_LIGHT@));
    }
    if options.theme == Theme::Dark {
        lemma_page_holds_styles(nodes, options, markdown_html, utf8(PAGE_CSS_DARK@));
    }
}

proof fn lemma_style_contains(css: Seq<char>)
    ensures
        style_pieces(css).contains(utf8(css)),
{
    assert(style_pieces(css)[1] == utf8(css));
}

proof fn lemma_contains_right(a: Seq<Seq<u8>>, b: Seq<Seq<u8>>, x: Seq<u8>)
    requires
        b.contains(x),
    ensures
        (a + b).contains(x),
{
    let i = choose|i: int| 0 <= i < b.len() && b[i] == x;
    assert((a + b)[a.len() + i] == x);
}

proof fn lemma_contains_left(a: Seq<Seq<u8>>, b: Seq<Seq<u8>>, x: Seq<u8>)
    requires
        a.contains(x),
    ensures
        (a + b).contains(x),
{
    let i = choose|i: int| 0 <= i < a.len() && a[i] == x;
    assert((a + b)[i] == x);
}

proof fn lemma_page_holds_styles(nodes: Seq<DocNode>, options: ConvertOptions, markdown_html: Seq<char>, x: Seq<u8>)
    requires
        styles_pieces(options).contains(x),
    ensures
        page_pieces(nodes, options, markdown_html).contains(x),
{
    let used = used_assets_of(nodes, options);
    let start = head_start_pieces(options, page_title_of(nodes, options));
    let styles = styles_pieces(options);
    let code = code_pieces(options, has_code_of(options, used));
    let math = math_pieces(options, math_mode_of(options, used));
    let mermaid = mermaid_pieces(options, mermaid_mode_of(options, used));
    let head = head_pieces(nodes, options);
    assert(head == start + styles + code + math + mermaid);
    lemma_contains_right(start, styles, x);
    lemma_contains_left(start + styles, code, x);
    lemma_contains_left(start + styles + code, math, x);
    lemma_contains_left(start + styles + code + math, mermaid, x);
    let rest = body_pieces(options, markdown_html) + tail_pieces(
        has_code_of(options, used),
        math_mode_of(options, used),
        mermaid_mode_of(options, used),
    );
    assert(page_pieces(nodes, options, markdown_html) =~= head + rest);
    lemma_contains_left(head, rest, x);
}

/// A child of the document which is a level-1 heading with some text gives the document a title, whatever comes
/// before it, front matters without a title included.
pub proof fn a_level_one_heading_gives_a_title(nodes: Seq<DocNode>, j: int)
    requires
        0 <= j < nodes.len(),
        nodes[j].depth == 2,
        nodes[j].kind matches NodeKind::Heading(level) && level == 1,
        node_text_of(nodes, j).len() > 0,
    ensures
        document_title_of(nodes) is Some,
{
    lemma_title_from_reaches(nodes, 0, j);
}

proof fn lemma_title_from_reaches(nodes: Seq<DocNode>, i: int, j: int)
    requires
        0 <= i <= j < nodes.len(),
        nodes[j].depth == 2,
        nodes[j].kind matches NodeKind::Heading(level) && level == 1,
        node_text_of(nodes, j).len() > 0,
    ensures
        title_from(nodes, i) is Some,
    decreases j - i,
{
    if i < j {
        lemma_title_from_reaches(nodes, i + 1, j);
    }
}

/// Whether the `k`-th node is a child of the document which gives a title: a front matter with a title, or a level-1
/// heading with some text.
pub open spec fn gives_title(nodes: Seq<DocNode>, k: int) -> bool {
    &&& nodes[k].depth == 2
    &&& {
        ||| nodes[k].kind matches NodeKind::FrontMatter(front_matter) && front_matter_title_of(front_matter@) is Some
        ||| nodes[k].kind matches NodeKind::Heading(level) && level == 1 && node_text_of(nodes, k).len() > 0
    }
}

/// The title of a document is the one which its first title-giving child gives: the title of a front matter, or the
/// text of a level-1 heading. Children before it which give none are passed over.
pub proof fn the_first_title_wins(nodes: Seq<DocNode>, j: int)
    requires
        0 <= j < nodes.len(),
        gives_title(nodes, j),
        forall|k: int| 0 <= k < j ==> !#[trigger] gives_title(nodes, k),
    ensures
        nodes[j].kind matches NodeKind::FrontMatter(front_matter) ==> document_title_of(nodes)
            == front_matter_title_of(front_matter@),
        nodes[j].kind is Heading ==> document_title_of(nodes) == Some(node_text_of(nodes, j)),
{
    lemma_title_from_skips(nodes, 0, j);
}

proof fn lemma_title_from_skips(nodes: Seq<DocNode>, i: int, j: int)
    requires
        0 <= i <= j < nodes.len(),
        gives_title(nodes, j),
        forall|k: int| 0 <= k < j ==> !#[trigger] gives_title(nodes, k),
    ensures
        nodes[j].kind matches NodeKind::FrontMatter(front_matter) ==> title_from(nodes, i)
            == front_matter_title_of(front_matter@),
        nodes[j].kind is Heading ==> title_from(nodes, i) == Some(node_text_of(nodes, j)),
    decreases j - i,
{
    if i < j {
        assert(!gives_title(nodes, i));
        lemma_title_from_skips(nodes, i + 1, j);
    }
}

/// A document title always comes from a title-giving child: a front matter whose title it is, or a level-1 heading
/// whose text it is.
pub proof fn a_title_comes_from_a_child(nodes: Seq<DocNode>)
    ensures
        document_title_of(nodes) matches Some(title) ==> exists|k: int|
            0 <= k < nodes.len() && #[trigger] gives_title(nodes, k) && (nodes[k].kind matches NodeKind::FrontMatter(
                front_matter,
            ) ==> front_matter_title_of(front_matter@) == Some(title)) && (nodes[k].kind is Heading
                ==> node_text_of(nodes, k) == title),
{
    lemma_title_from_source(nodes, 0);
}

proof fn lemma_title_from_source(nodes: Seq<DocNode>, i: int)
    requires
        0 <= i,
    ensures
        title_from(nodes, i) matches Some(title) ==> exists|k: int|
            i <= k < nodes.len() && #[trigger] gives_title(nodes, k) && (nodes[k].kind matches NodeKind::FrontMatter(
                front_matter,
            ) ==> front_matter_title_of(front_matter@) == Some(title)) && (nodes[k].kind is Heading
                ==> node_text_of(nodes, k) == title),
    decreases nodes.len() - i,
{
    if i < nodes.len() {
        lemma_title_from_source(nodes, i + 1);
        if node_title(nodes, i) is Some {
            assert(gives_title(nodes, i));
        }
    }
}

/// The rendering settings turn on the GFM extensions, alerts, footnotes, description lists, front matters and heading
/// anchors whatever the options, the math syntaxes exactly when the math is rendered, and follow the options for raw
/// HTML, hard line breaks and image embedding.
pub proof fn the_rendering_settings_follow_the_options(options: ConvertOptions)
    ensures
        ({
            let settings = markdown_settings_of(options);
            &&& settings.strikethrough && settings.table && settings.autolink && settings.tasklist
            &&& settings.tagfilter && settings.footnotes && settings.alerts && settings.description_lists
            &&& settings.multiline_block_quotes && settings.subscript && settings.superscript
            &&& settings.cjk_friendly_emphasis && settings.gfm_quirks && settings.tasklist_classes
            &&& settings.relaxed_tasklist_matching
            &&& settings.front_matter_delimiter == Some("---"@)
            &&& settings.header_id_prefix == Some(""@)
            &&& settings.math_code == (options.math is Some) && settings.math_dollars == (options.math is Some)
                && settings.math_latex == (options.math is Some)
            &&& settings.allow_unsafe == options.allow_unsafe
            &&& settings.hardbreaks == options.hardbreaks
            &&& settings.embed_images == options.embed_images
        }),
{
}

/// Whether a node, at whatever depth, is a code block whose first info word is a highlighted language other than
/// `math`, and other than `mermaid` when **Mermaid** draws the diagrams.
pub open spec fn highlighted_block(node: DocNode, options: ConvertOptions) -> bool {
    match node.kind {
        NodeKind::CodeBlock(info) => {
            let lang = first_word(info@);
            lang != "math"@ && !(options.mermaid is Some && lang == "mermaid"@) && highlighted(
                options.highlight_languages,
                lang,
            )
        },
        _ => false,
    }
}

/// Whether a node, at whatever depth, is math or a ```` ```math ```` block.
pub open spec fn math_node(node: DocNode) -> bool {
    match node.kind {
        NodeKind::Math => true,
        NodeKind::CodeBlock(info) => first_word(info@) == "math"@,
        _ => false,
    }
}

/// Whether a node, at whatever depth, is a ```` ```mermaid ```` block.
pub open spec fn mermaid_block(node: DocNode) -> bool {
    match node.kind {
        NodeKind::CodeBlock(info) => first_word(info@) == "mermaid"@,
        _ => false,
    }
}

/// A document needs **highlight.js** exactly when one of its code blocks, at any depth, has a first info word which is
/// a highlighted language other than `math`, and other than `mermaid` when **Mermaid** draws the diagrams; it needs
/// the math renderer exactly when it has math or a ```` ```math ```` block; and it needs **Mermaid** exactly when
/// **Mermaid** is on and it has a ```` ```mermaid ```` block.
pub proof fn the_assets_follow_the_code_blocks(nodes: Seq<DocNode>, options: ConvertOptions)
    ensures
        used_assets_of(nodes, options).highlight <==> exists|i: int|
            0 <= i < nodes.len() && #[trigger] highlighted_block(nodes[i], options),
        used_assets_of(nodes, options).math <==> exists|i: int| 0 <= i < nodes.len() && #[trigger] math_node(nodes[i]),
        used_assets_of(nodes, options).mermaid <==> options.mermaid is Some && exists|i: int|
            0 <= i < nodes.len() && #[trigger] mermaid_block(nodes[i]),
{
    let used = used_assets_of(nodes, options);
    if used.highlight {
        let i = choose|i: int| 0 <= i < nodes.len() && #[trigger] needs_highlight(nodes[i], options);
        assert(highlighted_block(nodes[i], options));
    }
    assert forall|i: int| 0 <= i < nodes.len() && #[trigger] highlighted_block(nodes[i], options) implies used.highlight by {
        assert(needs_highlight(nodes[i], options));
    }
    if used.math {
        let i = choose|i: int| 0 <= i < nodes.len() && #[trigger] needs_math(nodes[i]);
        assert(math_node(nodes[i]));
    }
    assert forall|i: int| 0 <= i < nodes.len() && #[trigger] math_node(nodes[i]) implies used.math by {
        assert(needs_math(nodes[i]));
    }
    if used.mermaid {
        let i = choose|i: int| 0 <= i < nodes.len() && #[trigger] needs_mermaid(nodes[i], options.mermaid is Some);
        assert(mermaid_block(nodes[i]));
    }
    assert forall|i: int| options.mermaid is Some && 0 <= i < nodes.len() && #[trigger] mermaid_block(nodes[i])
        implies used.mermaid by {
        assert(needs_mermaid(nodes[i], options.mermaid is Some));
    }
}

/// Where the input comes from and the output goes, and the default title: `-` stands for the standard input and
/// output; a Markdown text read from the standard input and written to the standard output has no default title; an
/// output file gives the default title by its file stem; else the Markdown file does, and its HTML file is written
/// next to it, with the `.html` extension in place of its own.
pub proof fn the_output_follows_the_paths(markdown_path: Seq<char>, output: Option<Seq<char>>)
    ensures
        ({
            let (from_stdin, default_title, html_path) = output_plan_of(markdown_path, output);
            &&& from_stdin == (markdown_path == "-"@)
            &&& markdown_path == "-"@ && (output is None || output == Some("-"@)) ==> default_title.len() == 0
                && html_path is None
            &&& forall|path: Seq<char>| output == Some(path) && path != "-"@ ==> default_title == file_stem_of(path)
                && html_path == Some(path)
            &&& markdown_path != "-"@ && output == Some("-"@) ==> default_title == file_stem_of(markdown_path)
                && html_path is None
            &&& markdown_path != "-"@ && output is None ==> default_title == file_stem_of(markdown_path)
                && html_path == Some(
                markdown_path.subrange(0, file_name_start(markdown_path)) + file_stem_of(markdown_path) + ".html"@,
            )
        }),
{
}

} // verus!
