use std::sync::Arc;

use comrak::nodes::NodeValue;
use vstd::prelude::*;
use vstd::string::*;

use crate::options::{ConvertOptions, HighlightLanguages};
use crate::resources::HIGHLIGHT_LANGUAGES;
use crate::text::{eq_ignore_ascii_case, first_word, first_word_of, same_ignoring_ascii_case, str_eq, trim, trimmed};

verus! {

#[verifier::external_type_specification]
#[verifier::external_body]
pub struct ExNodeValue(NodeValue);

#[verifier::external_type_specification]
#[verifier::external_body]
pub struct ExExtension<'c>(comrak::options::Extension<'c>);

#[verifier::external_type_specification]
#[verifier::external_body]
pub struct ExComrakOptions<'c>(comrak::Options<'c>);

/// How **comrak** parses and renders a Markdown text. Each field but the last two stands for the **comrak** option
/// of the same name; `embed_images` says that image URLs are rewritten into `data` URLs, resolved against
/// `base_path`.
pub struct MarkdownSettings<'a> {
    pub allow_unsafe: bool,
    pub hardbreaks: bool,
    pub gfm_quirks: bool,
    pub tasklist_classes: bool,
    pub alerts: bool,
    pub autolink: bool,
    pub cjk_friendly_emphasis: bool,
    pub description_lists: bool,
    pub footnotes: bool,
    pub front_matter_delimiter: Option<&'static str>,
    pub header_id_prefix: Option<&'static str>,
    pub multiline_block_quotes: bool,
    pub strikethrough: bool,
    pub subscript: bool,
    pub superscript: bool,
    pub table: bool,
    pub tagfilter: bool,
    pub tasklist: bool,
    pub relaxed_tasklist_matching: bool,
    pub math_code: bool,
    pub math_dollars: bool,
    pub math_latex: bool,
    pub embed_images: bool,
    pub base_path: Option<&'a str>,
}

/// The settings of **comrak** as plain values.
pub struct MarkdownSettingsView {
    pub allow_unsafe: bool,
    pub hardbreaks: bool,
    pub gfm_quirks: bool,
    pub tasklist_classes: bool,
    pub alerts: bool,
    pub autolink: bool,
    pub cjk_friendly_emphasis: bool,
    pub description_lists: bool,
    pub footnotes: bool,
    pub front_matter_delimiter: Option<Seq<char>>,
    pub header_id_prefix: Option<Seq<char>>,
    pub multiline_block_quotes: bool,
    pub strikethrough: bool,
    pub subscript: bool,
    pub superscript: bool,
    pub table: bool,
    pub tagfilter: bool,
    pub tasklist: bool,
    pub relaxed_tasklist_matching: bool,
    pub math_code: bool,
    pub math_dollars: bool,
    pub math_latex: bool,
    pub embed_images: bool,
    pub base_path: Option<Seq<char>>,
}

/// The text of an optional string.
pub open spec fn opt_text(s: Option<&str>) -> Option<Seq<char>> {
    match s {
        Some(t) => Some(t@),
        None => None,
    }
}

impl<'a> View for MarkdownSettings<'a> {
    type V = MarkdownSettingsView;

    open spec fn view(&self) -> MarkdownSettingsView {
        MarkdownSettingsView {
            allow_unsafe: self.allow_unsafe,
            hardbreaks: self.hardbreaks,
            gfm_quirks: self.gfm_quirks,
            tasklist_classes: self.tasklist_classes,
            alerts: self.alerts,
            autolink: self.autolink,
            cjk_friendly_emphasis: self.cjk_friendly_emphasis,
            description_lists: self.description_lists,
            footnotes: self.footnotes,
            front_matter_delimiter: opt_text(self.front_matter_delimiter),
            header_id_prefix: opt_text(self.header_id_prefix),
            multiline_block_quotes: self.multiline_block_quotes,
            strikethrough: self.strikethrough,
            subscript: self.subscript,
            superscript: self.superscript,
            table: self.table,
            tagfilter: self.tagfilter,
            tasklist: self.tasklist,
            relaxed_tasklist_matching: self.relaxed_tasklist_matching,
            math_code: self.math_code,
            math_dollars: self.math_dollars,
            math_latex: self.math_latex,
            embed_images: self.embed_images,
            base_path: opt_text(self.base_path),
        }
    }
}

/// The **comrak** settings which match the given conversion options: the GFM extensions, alerts, front matter,
/// footnotes and the other extensions always; the math syntaxes only when the math is rendered; the rewriting of
/// image URLs only when the images are embedded.
pub open spec fn markdown_settings_of(options: ConvertOptions) -> MarkdownSettingsView {
    MarkdownSettingsView {
        allow_unsafe: options.allow_unsafe,
        hardbreaks: options.hardbreaks,
        gfm_quirks: true,
        tasklist_classes: true,
        alerts: true,
        autolink: true,
        cjk_friendly_emphasis: true,
        description_lists: true,
        footnotes: true,
        front_matter_delimiter: Some("---"@),
        header_id_prefix: Some(""@),
        multiline_block_quotes: true,
        strikethrough: true,
        subscript: true,
        superscript: true,
        table: true,
        tagfilter: true,
        tasklist: true,
        relaxed_tasklist_matching: true,
        math_code: options.math is Some,
        math_dollars: options.math is Some,
        math_latex: options.math is Some,
        embed_images: options.embed_images,
        base_path: opt_text(options.base_path),
    }
}

/// Build the **comrak** settings matching the given conversion options.
pub fn build_comrak_options<'a>(options: &ConvertOptions<'a>) -> (settings: MarkdownSettings<'a>)
    ensures
        settings@ == markdown_settings_of(*options),
{
    // Without a renderer the math would be shown as raw TeX, so the delimiters are better left alone.
    let math = options.math.is_some();
    MarkdownSettings {
        allow_unsafe: options.allow_unsafe,
        hardbreaks: options.hardbreaks,
        gfm_quirks: true,
        tasklist_classes: true,
        alerts: true,
        autolink: true,
        cjk_friendly_emphasis: true,
        description_lists: true,
        footnotes: true,
        front_matter_delimiter: Some("---"),
        header_id_prefix: Some(""),
        multiline_block_quotes: true,
        strikethrough: true,
        subscript: true,
        superscript: true,
        table: true,
        tagfilter: true,
        tasklist: true,
        relaxed_tasklist_matching: true,
        math_code: math,
        math_dollars: math,
        math_latex: math,
        embed_images: options.embed_images,
        base_path: options.base_path,
    }
}

/// What the logic reads of a node of a Markdown syntax tree.
#[derive(Debug, Clone, PartialEq, Eq)]
pub enum NodeKind {
    /// A front matter, with its delimiters.
    FrontMatter(String),
    /// A heading of the given level.
    Heading(u8),
    /// A code block, with its info string.
    CodeBlock(String),
    /// Some inline or display math.
    Math,
    /// A piece of text.
    Text(String),
    /// An inline code span, with its text.
    Code(String),
    /// A hard line break.
    LineBreak,
    /// A soft line break.
    SoftBreak,
    /// An image, with its URL.
    Image(String),
    /// Any other node.
    Other,
}

/// A node of a Markdown syntax tree: what the logic reads of it, and its depth, which is 1 for the document itself,
/// 2 for its children, and so on. A tree is listed in tree order, so the descendants of a node are the nodes which
/// follow it and are deeper than it.
#[derive(Debug, Clone, PartialEq, Eq)]
pub struct DocNode {
    pub depth: usize,
    pub kind: NodeKind,
}

/// What the logic reads of the value of a **comrak** node: each variant of `comrak::nodes::NodeValue` that the logic
/// reads is moved into the variant of the same name, with the field it reads. It states nothing and is only
/// used by [`parse_markdown`] to convert the nodes it hands out.
#[verifier::external_body]
fn node_kind(value: &NodeValue) -> NodeKind {
    match value {
        NodeValue::FrontMatter(text) => NodeKind::FrontMatter(text.clone()),
        NodeValue::Heading(heading) => NodeKind::Heading(heading.level),
        NodeValue::CodeBlock(block) => NodeKind::CodeBlock(block.info.clone()),
        NodeValue::Math(_) => NodeKind::Math,
        NodeValue::Text(text) => NodeKind::Text(text.to_string()),
        NodeValue::Code(code) => NodeKind::Code(code.literal.clone()),
        NodeValue::LineBreak => NodeKind::LineBreak,
        NodeValue::SoftBreak => NodeKind::SoftBreak,
        NodeValue::Image(link) => NodeKind::Image(link.url.clone()),
        _ => NodeKind::Other,
    }
}

/// The extension options of **comrak** which the settings give, field by field; the others keep their defaults. It
/// states nothing and is only used by [`comrak_options`].
#[verifier::external_body]
fn comrak_extension(s: &MarkdownSettings) -> comrak::options::Extension<'static> {
    comrak::options::Extension { alerts: s.alerts, autolink: s.autolink,
        cjk_friendly_emphasis: s.cjk_friendly_emphasis, description_lists: s.description_lists,
        footnotes: s.footnotes, front_matter_delimiter: s.front_matter_delimiter.map(String::from),
        header_id_prefix: s.header_id_prefix.map(String::from), multiline_block_quotes: s.multiline_block_quotes,
        strikethrough: s.strikethrough, subscript: s.subscript, superscript: s.superscript, table: s.table,
        tagfilter: s.tagfilter, tasklist: s.tasklist, math_code: s.math_code, math_dollars: s.math_dollars,
        math_latex: s.math_latex, ..Default::default() }
}

/// The options of **comrak** which the settings give, field by field, with the image URLs rewritten by
/// [`rewrite_image_url`] through the table when the images are embedded. `render.unsafe` keeps its default, so raw
/// HTML and dangerous URLs are left out. It states nothing and is only used by [`parse_markdown`] and
/// [`render_markdown`].
#[verifier::external_body]
fn comrak_options(s: &MarkdownSettings, images: &[(String, String)]) -> comrak::Options<'static> {
    let table = images.to_vec();
    let rewriter: Arc<dyn comrak::options::URLRewriter> = Arc::new(move |url: &str| rewrite_image_url(&table, url));
    let mut extension = comrak_extension(s);
    extension.image_url_rewriter = s.embed_images.then_some(rewriter);
    let render = comrak::options::Render { hardbreaks: s.hardbreaks, gfm_quirks: s.gfm_quirks,
        tasklist_classes: s.tasklist_classes, ..Default::default() };
    let parse = comrak::options::Parse { relaxed_tasklist_matching: s.relaxed_tasklist_matching, ..Default::default() };
    comrak::Options { extension, parse, render }
}

/// The nodes of the syntax tree which **comrak** parses out of a Markdown text with the given settings, in tree order.
pub uninterp spec fn markdown_nodes(markdown: Seq<char>, settings: MarkdownSettingsView) -> Seq<DocNode>;

/// Parse a Markdown text and list the nodes of its syntax tree in tree order.
///
/// Calls `comrak::parse_document` with the options which the settings give, and walks the tree it gives with
/// `descendants`, which starts at the document itself. The contract names the result: a function of the text and of
/// the settings alone.
#[verifier::external_body]
pub(crate) fn parse_markdown(markdown: &str, settings: &MarkdownSettings) -> (nodes: Vec<DocNode>)
    ensures
        nodes@ == markdown_nodes(markdown@, settings@),
{
    let arena = comrak::Arena::new();
    let root = comrak::parse_document(&arena, markdown, &comrak_options(settings, &[]));
    root.descendants().map(|n| DocNode { depth: n.ancestors().count(), kind: node_kind(&n.data().value) }).collect()
}

/// The HTML which **comrak** renders out of a Markdown text with the given settings, raw HTML and dangerous URLs left
/// out, and with the URL of each image replaced by the one which the table gives it, if any, when the images are
/// embedded.
pub uninterp spec fn rendered_html(
    markdown: Seq<char>,
    settings: MarkdownSettingsView,
    images: Seq<(Seq<char>, Seq<char>)>,
) -> Seq<char>;

/// Render a Markdown text to HTML.
///
/// Calls `comrak::markdown_to_html` with the options which the settings give. The contract names the result: a
/// function of the text, the settings and the table of image URLs. Raw HTML and dangerous URLs are left out whatever
/// `allow_unsafe` says, because the `render.unsafe` option of **comrak** is not set here.
#[verifier::external_body]
pub(crate) fn render_markdown(markdown: &str, settings: &MarkdownSettings, images: &[(String, String)]) -> (html:
    String)
    ensures
        html@ == rendered_html(markdown@, settings@, pair_texts(images@)),
{
    comrak::markdown_to_html(markdown, &comrak_options(settings, images))
}

/// The texts of a table of pairs of strings.
pub open spec fn pair_texts(table: Seq<(String, String)>) -> Seq<(Seq<char>, Seq<char>)> {
    table.map_values(|p: (String, String)| (p.0@, p.1@))
}

/// The URL which an image gets: the one that the first entry of the table for its URL gives it, or its own.
pub open spec fn rewritten_image_url(table: Seq<(Seq<char>, Seq<char>)>, url: Seq<char>) -> Seq<char>
    decreases table.len(),
{
    if table.len() == 0 {
        url
    } else if table[0].0 == url {
        table[0].1
    } else {
        rewritten_image_url(table.drop_first(), url)
    }
}

/// Look an image URL up in a table of replacements.
pub fn rewrite_image_url(table: &[(String, String)], url: &str) -> (new_url: String)
    ensures
        new_url@ == rewritten_image_url(pair_texts(table@), url@),
{
    let mut i: usize = 0;
    assert(pair_texts(table@).subrange(0, table@.len() as int) =~= pair_texts(table@));
    while i < table.len()
        invariant
            i <= table@.len(),
            rewritten_image_url(pair_texts(table@).subrange(i as int, table@.len() as int), url@)
                == rewritten_image_url(pair_texts(table@), url@),
        decreases table@.len() - i,
    {
        let ghost rest = pair_texts(table@).subrange(i as int, table@.len() as int);
        assert(rest.drop_first() =~= pair_texts(table@).subrange(i + 1, table@.len() as int));
        if str_eq(table[i].0.as_str(), url) {
            return table[i].1.clone();
        }
        i += 1;
    }
    assert(pair_texts(table@).subrange(i as int, table@.len() as int) =~= Seq::<(Seq<char>, Seq<char>)>::empty());
    url.to_owned()
}

/// The URLs of the images among the nodes, in order.
pub open spec fn image_urls_of(nodes: Seq<DocNode>) -> Seq<Seq<char>>
    decreases nodes.len(),
{
    if nodes.len() == 0 {
        Seq::empty()
    } else {
        let rest = image_urls_of(nodes.drop_last());
        match nodes.last().kind {
            NodeKind::Image(url) => rest.push(url@),
            _ => rest,
        }
    }
}

/// The texts of a list of strings.
pub open spec fn string_texts(strings: Seq<String>) -> Seq<Seq<char>> {
    strings.map_values(|s: String| s@)
}

/// List the URLs of the images among the nodes, in order.
pub fn image_urls(nodes: &[DocNode]) -> (urls: Vec<String>)
    ensures
        string_texts(urls@) == image_urls_of(nodes@),
{
    let mut urls: Vec<String> = Vec::new();
    let mut j: usize = 0;
    while j < nodes.len()
        invariant
            j <= nodes@.len(),
            string_texts(urls@) == image_urls_of(nodes@.take(j as int)),
        decreases nodes@.len() - j,
    {
        assert(nodes@.take(j + 1).drop_last() =~= nodes@.take(j as int));
        match &nodes[j].kind {
            NodeKind::Image(url) => {
                urls.push(url.clone());
                assert(string_texts(urls@) =~= image_urls_of(nodes@.take(j as int)).push(url@));
            },
            _ => {},
        }
        j += 1;
    }
    assert(nodes@.take(nodes@.len() as int) =~= nodes@);
    urls
}

/// The URLs of the images of a Markdown text, in order, as **comrak** parses them with the settings which the options
/// give.
pub fn markdown_image_urls(markdown: &str, options: &ConvertOptions) -> (urls: Vec<String>)
    ensures
        string_texts(urls@) == image_urls_of(markdown_nodes(markdown@, markdown_settings_of(*options))),
{
    let settings = build_comrak_options(options);
    let nodes = parse_markdown(markdown, &settings);
    image_urls(nodes.as_slice())
}

/// The text which a node itself holds: that of a piece of text or of a code span, and a space for a line break.
pub open spec fn node_piece(node: DocNode) -> Seq<char> {
    match node.kind {
        NodeKind::Text(text) => text@,
        NodeKind::Code(code) => code@,
        NodeKind::LineBreak => seq![' '],
        NodeKind::SoftBreak => seq![' '],
        _ => Seq::empty(),
    }
}

/// The text of the nodes from the `j`-th on, as long as they are deeper than `depth`.
pub open spec fn text_from(nodes: Seq<DocNode>, depth: int, j: int) -> Seq<char>
    decreases nodes.len() - j,
{
    if 0 <= j < nodes.len() && nodes[j].depth > depth {
        node_piece(nodes[j]) + text_from(nodes, depth, j + 1)
    } else {
        Seq::empty()
    }
}

/// The plain text of the `i`-th node and of all its descendants, trimmed.
pub open spec fn node_text_of(nodes: Seq<DocNode>, i: int) -> Seq<char> {
    trimmed(node_piece(nodes[i]) + text_from(nodes, nodes[i].depth as int, i + 1))
}

/// Append the text which a node itself holds.
fn append_piece(text: &mut String, node: &DocNode)
    ensures
        final(text)@ == old(text)@ + node_piece(*node),
{
    match &node.kind {
        NodeKind::Text(t) => text.append(t.as_str()),
        NodeKind::Code(c) => text.append(c.as_str()),
        NodeKind::LineBreak | NodeKind::SoftBreak => {
            text.append(" ");
            proof {
                reveal_strlit(" ");
            }
        },
        _ => {
            assert(old(text)@ + node_piece(*node) =~= old(text)@);
        },
    }
}

/// Collect the plain text of a node and of all its descendants.
pub fn node_text(nodes: &[DocNode], i: usize) -> (text: String)
    requires
        i < nodes@.len(),
    ensures
        text@ == node_text_of(nodes@, i as int),
{
    let depth = nodes[i].depth;
    let mut text = String::new();
    append_piece(&mut text, &nodes[i]);
    let mut j = i + 1;
    while j < nodes.len() && nodes[j].depth > depth
        invariant
            i < j <= nodes@.len(),
            depth == nodes@[i as int].depth,
            text@ + text_from(nodes@, depth as int, j as int)
                == node_piece(nodes@[i as int]) + text_from(nodes@, depth as int, i + 1),
        decreases nodes@.len() - j,
    {
        let ghost before = text@;
        append_piece(&mut text, &nodes[j]);
        assert(before + text_from(nodes@, depth as int, j as int) =~= text@ + text_from(
            nodes@,
            depth as int,
            j + 1,
        ));
        j += 1;
    }
    assert(text_from(nodes@, depth as int, j as int) =~= Seq::<char>::empty());
    assert(text@ + Seq::<char>::empty() =~= text@);
    trim(text.as_str()).to_owned()
}

/// What `yaml_rust2::YamlLoader::load_from_str` reads as the `title` entry of the first YAML document of a text, when
/// that entry is a string.
pub uninterp spec fn yaml_title_entry(text: Seq<char>) -> Option<Seq<char>>;

/// Read the `title` entry out of the first document of a YAML text.
///
/// Calls `yaml_rust2::YamlLoader::load_from_str`, and reads the string under the key `title` of the first document it
/// gives. The contract names the result: a function of the text alone. A text which does not load as YAML, or whose
/// first document has no such string entry, gives `None`.
#[verifier::external_body]
fn load_yaml_title(text: &str) -> (title: Option<String>)
    ensures
        opt_string_text(title) == yaml_title_entry(text@),
{
    let documents = yaml_rust2::YamlLoader::load_from_str(text).ok()?;
    documents.first()?["title"].as_str().map(String::from)
}

/// The text of an optional string.
pub open spec fn opt_string_text(s: Option<String>) -> Option<Seq<char>> {
    match s {
        Some(t) => Some(t@),
        None => None,
    }
}

/// The title which a YAML front matter gives: its `title` entry, trimmed, when that is not empty.
pub open spec fn front_matter_title_of(front_matter: Seq<char>) -> Option<Seq<char>> {
    match yaml_title_entry(front_matter) {
        Some(title) => if trimmed(title).len() > 0 {
            Some(trimmed(title))
        } else {
            None
        },
        None => None,
    }
}

/// Read the `title` entry out of a YAML front matter.
pub fn front_matter_title(front_matter: &str) -> (title: Option<String>)
    ensures
        opt_string_text(title) == front_matter_title_of(front_matter@),
{
    // The front matter still carries its `---` delimiters, so the title is in the first document.
    match load_yaml_title(front_matter) {
        Some(entry) => {
            let title = trim(entry.as_str());
            if title.is_empty() {
                None
            } else {
                Some(title.to_owned())
            }
        },
        None => None,
    }
}

/// The title which the `j`-th node gives, if it is a child of the document: the title of a front matter, or the text
/// of a level-1 heading when that is not empty.
pub open spec fn node_title(nodes: Seq<DocNode>, j: int) -> Option<Seq<char>> {
    if nodes[j].depth == 2 {
        match nodes[j].kind {
            NodeKind::FrontMatter(front_matter) => front_matter_title_of(front_matter@),
            NodeKind::Heading(level) => if level == 1 && node_text_of(nodes, j).len() > 0 {
                Some(node_text_of(nodes, j))
            } else {
                None
            },
            _ => None,
        }
    } else {
        None
    }
}

/// The first title which the nodes from the `j`-th on give.
pub open spec fn title_from(nodes: Seq<DocNode>, j: int) -> Option<Seq<char>>
    decreases nodes.len() - j,
{
    if 0 <= j < nodes.len() {
        match node_title(nodes, j) {
            Some(title) => Some(title),
            None => title_from(nodes, j + 1),
        }
    } else {
        None
    }
}

/// The title of a document: the first that its children give, in their order, of the title of its front matter and
/// the text of a level-1 heading.
pub open spec fn document_title_of(nodes: Seq<DocNode>) -> Option<Seq<char>> {
    title_from(nodes, 0)
}

/// Find the title of a document, first in its front matter and then in its first level-1 heading.
pub fn document_title(nodes: &[DocNode]) -> (title: Option<String>)
    ensures
        opt_string_text(title) == document_title_of(nodes@),
{
    let mut j: usize = 0;
    while j < nodes.len()
        invariant
            j <= nodes@.len(),
            title_from(nodes@, j as int) == document_title_of(nodes@),
        decreases nodes@.len() - j,
    {
        if nodes[j].depth == 2 {
            match &nodes[j].kind {
                NodeKind::FrontMatter(front_matter) => {
                    let title = front_matter_title(front_matter.as_str());
                    if title.is_some() {
                        return title;
                    }
                },
                NodeKind::Heading(level) => {
                    if *level == 1 {
                        let title = node_text(nodes, j);
                        if !title.as_str().is_empty() {
                            // A front matter is always the first node, so nothing can override this title any more.
                            return Some(title);
                        }
                    }
                },
                _ => {},
            }
        }
        j += 1;
    }
    None
}

/// Whether one of the names is the language, compared without the case of ASCII letters.
pub open spec fn names_language(names: Seq<&str>, lang: Seq<char>) -> bool {
    exists|i: int| 0 <= i < names.len() && same_ignoring_ascii_case(#[trigger] names[i]@, lang)
}

/// Whether **highlight.js** is expected to handle a code block language: a language which is not empty and which the
/// given list holds.
pub open spec fn highlighted(languages: HighlightLanguages, lang: Seq<char>) -> bool {
    &&& lang.len() > 0
    &&& match languages {
        HighlightLanguages::BuiltIn => names_language(HIGHLIGHT_LANGUAGES@, lang),
        HighlightLanguages::Any => true,
        HighlightLanguages::Only(names) => names_language(names@, lang),
    }
}

/// Check whether one of the names is the language, compared without the case of ASCII letters.
fn names_language_in(names: &[&str], lang: &str) -> (found: bool)
    ensures
        found == names_language(names@, lang@),
{
    let mut i: usize = 0;
    while i < names.len()
        invariant
            i <= names@.len(),
            forall|k: int| 0 <= k < i ==> !same_ignoring_ascii_case(#[trigger] names@[k]@, lang@),
        decreases names@.len() - i,
    {
        if eq_ignore_ascii_case(names[i], lang) {
            return true;
        }
        i += 1;
    }
    false
}

/// Check whether **highlight.js** is expected to handle a code block language.
pub fn is_highlighted(languages: HighlightLanguages, lang: &str) -> (res: bool)
    ensures
        res == highlighted(languages, lang@),
{
    if lang.is_empty() {
        return false;
    }
    match languages {
        HighlightLanguages::BuiltIn => names_language_in(HIGHLIGHT_LANGUAGES.as_slice(), lang),
        HighlightLanguages::Any => true,
        HighlightLanguages::Only(names) => names_language_in(names, lang),
    }
}

/// Which optional assets a document needs.
#[derive(Debug, Clone, Copy, PartialEq, Eq, Structural)]
pub struct UsedAssets {
    pub highlight: bool,
    pub math: bool,
    pub mermaid: bool,
}

/// The language of a code block: the first word of its info string.
pub open spec fn code_language(node: DocNode) -> Option<Seq<char>> {
    match node.kind {
        NodeKind::CodeBlock(info) => Some(first_word(info@)),
        _ => None,
    }
}

/// Whether a node is math: inline or display math, or a ```` ```math ```` block.
pub open spec fn needs_math(node: DocNode) -> bool {
    node.kind is Math || code_language(node) == Some("math"@)
}

/// Whether a node is a ```` ```mermaid ```` block which **Mermaid** is going to draw.
pub open spec fn needs_mermaid(node: DocNode, wants_mermaid: bool) -> bool {
    wants_mermaid && code_language(node) == Some("mermaid"@)
}

/// Whether a node is a code block which **highlight.js** is going to handle: one whose language is neither math, nor
/// a diagram which **Mermaid** draws, and is one of the highlighted languages.
pub open spec fn needs_highlight(node: DocNode, options: ConvertOptions) -> bool {
    match code_language(node) {
        Some(lang) => lang != "math"@ && !(options.mermaid is Some && lang == "mermaid"@) && highlighted(
            options.highlight_languages,
            lang,
        ),
        None => false,
    }
}

/// The optional assets which the nodes of a document need: each one that some node needs.
pub open spec fn used_assets_of(nodes: Seq<DocNode>, options: ConvertOptions) -> UsedAssets {
    UsedAssets {
        highlight: exists|i: int| 0 <= i < nodes.len() && #[trigger] needs_highlight(nodes[i], options),
        math: exists|i: int| 0 <= i < nodes.len() && #[trigger] needs_math(nodes[i]),
        mermaid: exists|i: int|
            0 <= i < nodes.len() && #[trigger] needs_mermaid(nodes[i], options.mermaid is Some),
    }
}

/// Check which optional assets a document needs.
pub fn used_assets(nodes: &[DocNode], options: &ConvertOptions) -> (used: UsedAssets)
    ensures
        used == used_assets_of(nodes@, *options),
{
    // A ```mermaid block is a diagram only when Mermaid is going to draw it, and an ordinary code block otherwise.
    let wants_mermaid = options.mermaid.is_some();
    let mut used = UsedAssets { highlight: false, math: false, mermaid: false };
    let mut j: usize = 0;
    proof {
        reveal_strlit("math");
        reveal_strlit("mermaid");
        assert("math"@.len() != "mermaid"@.len());
    }
    while j < nodes.len() && !(used.highlight && used.math && (used.mermaid || !wants_mermaid))
        invariant
            j <= nodes@.len(),
            "math"@ != "mermaid"@,
            wants_mermaid == options.mermaid is Some,
            used.highlight == exists|i: int| 0 <= i < j && #[trigger] needs_highlight(nodes@[i], *options),
            used.math == exists|i: int| 0 <= i < j && #[trigger] needs_math(nodes@[i]),
            used.mermaid == exists|i: int| 0 <= i < j && #[trigger] needs_mermaid(nodes@[i], wants_mermaid),
        decreases nodes@.len() - j,
    {
        let node = &nodes[j];
        let ghost before = used;
        match &node.kind {
            NodeKind::CodeBlock(info) => {
                let lang = first_word_of(info.as_str());
                if str_eq(lang, "math") {
                    used.math = true;
                } else if wants_mermaid && str_eq(lang, "mermaid") {
                    used.mermaid = true;
                } else if is_highlighted(options.highlight_languages, lang) {
                    // Code blocks without a language, or with one highlight.js cannot handle, are left alone.
                    used.highlight = true;
                }
            },
            NodeKind::Math => {
                used.math = true;
            },
            _ => {},
        }
        assert(needs_math(nodes@[j as int]) ==> used.math);
        assert(needs_mermaid(nodes@[j as int], wants_mermaid) ==> used.mermaid);
        assert(needs_highlight(nodes@[j as int], *options) ==> used.highlight);
        assert(used.math ==> before.math || needs_math(nodes@[j as int]));
        assert(used.mermaid ==> before.mermaid || needs_mermaid(nodes@[j as int], wants_mermaid));
        assert(used.highlight ==> before.highlight || needs_highlight(nodes@[j as int], *options));
        j += 1;
    }
    assert(used == used_assets_of(nodes@, *options));
    used
}

} // verus!
