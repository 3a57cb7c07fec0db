use markdown2html_converter::{
    build_comrak_options, document_title, first_word_of, front_matter_title, image_urls, is_highlighted,
    markdown_image_urls, node_text, rewrite_image_url, used_assets, ConvertOptions, DocNode, HighlightLanguages, MathMode, NodeKind,
    UsedAssets,
};

fn node(depth: usize, kind: NodeKind) -> DocNode {
    DocNode { depth, kind }
}

fn text(depth: usize, text: &str) -> DocNode {
    node(depth, NodeKind::Text(text.to_string()))
}

fn code_block(info: &str) -> DocNode {
    node(2, NodeKind::CodeBlock(info.to_string()))
}

#[test]
fn the_text_of_a_node_gathers_its_descendants() {
    let nodes = vec![
        node(1, NodeKind::Other),
        node(2, NodeKind::Heading(1)),
        text(3, "  Hello"),
        node(3, NodeKind::LineBreak),
        node(3, NodeKind::Other),
        text(4, "world "),
        text(3, "! "),
        node(2, NodeKind::Other),
        text(3, "not in the heading"),
    ];

    assert_eq!("Hello world !", node_text(&nodes, 1));
    assert_eq!("not in the heading", node_text(&nodes, 7));
    assert_eq!("world", node_text(&nodes, 4));
    assert_eq!("", node_text(&nodes, 3));
}

#[test]
fn the_first_level_one_heading_gives_the_title() {
    let nodes = vec![
        node(1, NodeKind::Other),
        node(2, NodeKind::Heading(2)),
        text(3, "Not this one"),
        node(2, NodeKind::Heading(1)),
        text(3, "   "),
        node(2, NodeKind::Heading(1)),
        text(3, "The title"),
        node(2, NodeKind::Heading(1)),
        text(3, "Another one"),
    ];

    assert_eq!(Some(String::from("The title")), document_title(&nodes));
}

#[test]
fn only_children_of_the_document_give_a_title() {
    let nodes = vec![
        node(1, NodeKind::Other),
        node(2, NodeKind::Other),
        node(3, NodeKind::Heading(1)),
        text(4, "Nested"),
    ];

    assert_eq!(None, document_title(&nodes));
}

#[test]
fn the_front_matter_gives_the_title() {
    let nodes = vec![
        node(1, NodeKind::Other),
        node(2, NodeKind::FrontMatter(String::from("---\ntitle: \"  From the front matter \"\n---\n"))),
        node(2, NodeKind::Heading(1)),
        text(3, "Hello world!"),
    ];

    assert_eq!(Some(String::from("From the front matter")), document_title(&nodes));
}

#[test]
fn a_front_matter_without_a_title_gives_none() {
    assert_eq!(None, front_matter_title("---\nauthor: Magic Len\n---\n"));
    assert_eq!(None, front_matter_title("---\ntitle: \"   \"\n---\n"));
    assert_eq!(None, front_matter_title("---\ntitle: [1, 2]\n---\n"));
    assert_eq!(Some(String::from("Hi")), front_matter_title("---\ntitle: Hi\n---\n"));
}

#[test]
fn the_first_word_of_an_info_string_is_the_language() {
    assert_eq!("rust", first_word_of("rust"));
    assert_eq!("rust", first_word_of("  rust  ignore"));
    assert_eq!("", first_word_of("   "));
    assert_eq!("", first_word_of(""));
}

#[test]
fn highlighted_languages_are_matched_without_case() {
    assert!(is_highlighted(HighlightLanguages::BuiltIn, "rust"));
    assert!(is_highlighted(HighlightLanguages::BuiltIn, "RuSt"));
    assert!(is_highlighted(HighlightLanguages::BuiltIn, "c++"));
    assert!(is_highlighted(HighlightLanguages::BuiltIn, "JS"));
    assert!(!is_highlighted(HighlightLanguages::BuiltIn, "plantuml"));
    assert!(!is_highlighted(HighlightLanguages::BuiltIn, "math"));
    assert!(!is_highlighted(HighlightLanguages::BuiltIn, ""));
    assert!(is_highlighted(HighlightLanguages::Any, "plantuml"));
    assert!(!is_highlighted(HighlightLanguages::Any, ""));

    let only = ["PlantUML"];

    assert!(is_highlighted(HighlightLanguages::Only(&only), "plantuml"));
    assert!(!is_highlighted(HighlightLanguages::Only(&only), "rust"));
}

#[test]
fn the_assets_follow_the_nodes() {
    let options = ConvertOptions::default();

    let nodes = vec![node(1, NodeKind::Other), code_block("rust extra"), node(3, NodeKind::Math)];
    assert_eq!(
        UsedAssets { highlight: true, math: true, mermaid: false },
        used_assets(&nodes, &options)
    );

    let nodes = vec![node(1, NodeKind::Other), code_block("math"), code_block("mermaid")];
    assert_eq!(
        UsedAssets { highlight: false, math: true, mermaid: true },
        used_assets(&nodes, &options)
    );

    let nodes = vec![node(1, NodeKind::Other), code_block(""), code_block("plantuml")];
    assert_eq!(
        UsedAssets { highlight: false, math: false, mermaid: false },
        used_assets(&nodes, &options)
    );
}

#[test]
fn a_mermaid_block_is_code_when_mermaid_is_off() {
    let options = ConvertOptions {
        mermaid: None,
        highlight_languages: HighlightLanguages::Any,
        ..ConvertOptions::default()
    };

    let nodes = vec![node(1, NodeKind::Other), code_block("mermaid")];

    assert_eq!(
        UsedAssets { highlight: true, math: false, mermaid: false },
        used_assets(&nodes, &options)
    );
}

#[test]
fn the_math_syntax_is_only_parsed_when_the_math_is_rendered() {
    let with_math = build_comrak_options(&ConvertOptions::default());

    assert!(with_math.math_dollars && with_math.math_code && with_math.math_latex);

    let options = ConvertOptions { math: None, ..ConvertOptions::default() };
    let without_math = build_comrak_options(&options);

    assert!(!without_math.math_dollars && !without_math.math_code && !without_math.math_latex);
    assert_eq!(Some("---"), without_math.front_matter_delimiter);
    assert_eq!(Some(""), without_math.header_id_prefix);
    assert!(without_math.alerts && without_math.tasklist && without_math.table);
}

#[test]
fn the_settings_follow_the_options() {
    let options = ConvertOptions {
        allow_unsafe: true,
        hardbreaks: false,
        embed_images: true,
        base_path: Some("images"),
        math: Some(MathMode::MathJaxClient),
        ..ConvertOptions::default()
    };

    let settings = build_comrak_options(&options);

    assert!(settings.allow_unsafe);
    assert!(!settings.hardbreaks);
    assert!(settings.embed_images);
    assert_eq!(Some("images"), settings.base_path);
    assert!(settings.math_dollars);
}

#[test]
fn a_code_block_is_only_one_thing() {
    let options = ConvertOptions {
        highlight_languages: HighlightLanguages::Any,
        ..ConvertOptions::default()
    };

    let math = vec![node(1, NodeKind::Other), code_block("math")];
    assert_eq!(UsedAssets { highlight: false, math: true, mermaid: false }, used_assets(&math, &options));

    let diagram = vec![node(1, NodeKind::Other), code_block("mermaid")];
    assert_eq!(UsedAssets { highlight: false, math: false, mermaid: true }, used_assets(&diagram, &options));

    let code = vec![node(1, NodeKind::Other), code_block("plantuml")];
    assert_eq!(UsedAssets { highlight: true, math: false, mermaid: false }, used_assets(&code, &options));
}

#[test]
fn code_spans_and_soft_breaks_count_in_the_text() {
    let nodes = vec![
        node(1, NodeKind::Heading(1)),
        text(2, "a"),
        node(2, NodeKind::SoftBreak),
        node(2, NodeKind::Code(String::from("b()"))),
    ];

    assert_eq!("a b()", node_text(&nodes, 0));
}

#[test]
fn the_image_urls_are_listed_in_order() {
    let nodes = vec![
        node(1, NodeKind::Other),
        node(3, NodeKind::Image(String::from("a.png"))),
        text(4, "alt"),
        node(3, NodeKind::Image(String::from("b.png"))),
    ];

    assert_eq!(vec![String::from("a.png"), String::from("b.png")], image_urls(&nodes));

    let urls = markdown_image_urls("![a](a.png)\n\ntext ![b](b%20c.png \"title\")", &ConvertOptions::default());
    assert_eq!(vec![String::from("a.png"), String::from("b%20c.png")], urls);
}

#[test]
fn image_urls_are_rewritten_through_the_table() {
    let table = vec![
        (String::from("a.png"), String::from("data:a")),
        (String::from("a.png"), String::from("data:second")),
    ];

    assert_eq!("data:a", rewrite_image_url(&table, "a.png"));
    assert_eq!("b.png", rewrite_image_url(&table, "b.png"));
    assert_eq!("b.png", rewrite_image_url(&[], "b.png"));
}
