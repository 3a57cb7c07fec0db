use markdown2html_converter::{
    convert, convert_rendered, html_element, output_capacity, page_title, ConvertOptions,
    DocNode, MathMode, MermaidMode, NodeKind, Theme,
};

fn page(markdown: &str, options: &ConvertOptions) -> String {
    String::from_utf8(convert(markdown, options, &[]).unwrap()).unwrap()
}

fn plain(options: ConvertOptions) -> ConvertOptions {
    ConvertOptions { minify: false, ..options }
}

#[test]
fn the_html_element_carries_the_language_and_the_theme() {
    assert_eq!("<html lang=\"en\">", html_element(&ConvertOptions::default()));

    let options = ConvertOptions { lang: "", theme: Theme::Light, ..ConvertOptions::default() };
    assert_eq!("<html data-theme=\"light\">", html_element(&options));

    let options = ConvertOptions { lang: "a\"b<&>", ..ConvertOptions::default() };
    assert_eq!("<html lang=\"a&quot;b&lt;&amp;&gt;\">", html_element(&options));
}

#[test]
fn the_page_title_is_looked_up_in_order() {
    let nodes = vec![
        DocNode { depth: 1, kind: NodeKind::Other },
        DocNode { depth: 2, kind: NodeKind::Heading(1) },
        DocNode { depth: 3, kind: NodeKind::Text(String::from("Heading")) },
    ];
    let no_heading = vec![DocNode { depth: 1, kind: NodeKind::Other }];

    let given = ConvertOptions { title: Some("  Given  "), default_title: Some("Default"), ..ConvertOptions::default() };
    assert_eq!("Given", page_title(&nodes, &given));

    let blank = ConvertOptions { title: Some("   "), default_title: Some(" Default "), ..ConvertOptions::default() };
    assert_eq!("Heading", page_title(&nodes, &blank));
    assert_eq!("Default", page_title(&no_heading, &blank));

    let nothing = ConvertOptions { default_title: Some(""), ..ConvertOptions::default() };
    assert_eq!("Untitled", page_title(&no_heading, &nothing));
}

#[test]
fn the_capacity_counts_the_assets_which_are_written() {
    let options = ConvertOptions { css: Some("abc"), cjk_fonts: false, ..ConvertOptions::default() };
    let base = output_capacity(&options, "<p>x</p>", false, None, None);

    let longer_css = ConvertOptions { css: Some("abcdef"), ..options.clone() };
    assert_eq!(base + 3, output_capacity(&longer_css, "<p>x</p>", false, None, None));

    let extra = ConvertOptions { extra_css: Some("de"), ..options.clone() };
    assert_eq!(base + 2, output_capacity(&extra, "<p>x</p>", false, None, None));

    assert_eq!(base + 3, output_capacity(&options, "<p>xxxx</p>", false, None, None));

    let code = ConvertOptions { highlight_js: Some("x"), highlight_css: Some("yy"), ..options.clone() };
    assert_eq!(base, output_capacity(&code, "<p>x</p>", false, None, None));
    assert_eq!(base + 3, output_capacity(&code, "<p>x</p>", true, None, None));

    let katex = ConvertOptions { katex_js: Some("k"), katex_css: Some("kk"), mathjax_js: Some("mmmm"), ..options.clone() };
    assert_eq!(base + 3, output_capacity(&katex, "<p>x</p>", false, Some(MathMode::KatexEmbedded), None));
    assert_eq!(base + 4, output_capacity(&katex, "<p>x</p>", false, Some(MathMode::MathJaxEmbedded), None));
    assert_eq!(base, output_capacity(&katex, "<p>x</p>", false, Some(MathMode::KatexClient), None));

    let mermaid = ConvertOptions { mermaid_js: Some("mm"), ..options.clone() };
    assert_eq!(base + 2, output_capacity(&mermaid, "<p>x</p>", false, None, Some(MermaidMode::Embedded)));
    assert_eq!(base, output_capacity(&mermaid, "<p>x</p>", false, None, Some(MermaidMode::Client)));
}

#[test]
fn the_title_is_escaped() {
    let options = ConvertOptions { title: Some("a < b & c"), ..ConvertOptions::default() };

    assert!(page("text", &options).contains("<title>a &lt; b &amp; c</title>"));
}

#[test]
fn custom_assets_are_escaped_for_their_element() {
    let options = plain(ConvertOptions {
        css: Some("p{}</style><b>"),
        highlight_js: Some("let a = '</script>';"),
        ..ConvertOptions::default()
    });

    let html = page("```rust\nfn main() {}\n```\n", &options);

    assert!(html.contains("p{}<\\/style><b>"));
    assert!(!html.contains("p{}</style><b>"));
    assert!(html.contains("let a = '<\\/script>';"));
}

#[test]
fn an_unminified_page_is_laid_out_in_order() {
    let options = plain(ConvertOptions { cjk_fonts: false, math: None, mermaid: None, ..ConvertOptions::default() });

    let html = page("Just a paragraph.", &options);

    assert!(html.starts_with("<!DOCTYPE html><html lang=\"en\"><head><meta charset=UTF-8>"));
    assert!(html.contains("<title>Untitled</title><style>"));
    assert!(html.contains(
        "</head><body><article class=\"markdown-body\"><p>Just a paragraph.</p>\n</article></body></html>"
    ));
    assert!(html.ends_with("</article></body></html>"));
    assert!(!html.contains("<script"));
}

#[test]
fn the_math_mode_chooses_the_assets() {
    let markdown = "The famous $E = mc^2$ equation.";

    let mathjax = page(markdown, &plain(ConvertOptions { math: Some(MathMode::MathJaxClient), ..ConvertOptions::default() }));
    assert!(mathjax.contains("<script src=\"https://cdn.jsdelivr.net/npm/mathjax@"));
    assert!(!mathjax.contains("npm/katex"));

    let katex = page(markdown, &plain(ConvertOptions::default()));
    assert!(katex.contains("<link rel=\"stylesheet\" href=\"https://cdn.jsdelivr.net/npm/katex@"));
    assert!(katex.contains("katex.render"));

    let custom = page(
        markdown,
        &plain(ConvertOptions {
            math: Some(MathMode::KatexEmbedded),
            katex_js: Some("var customKatex = 1;"),
            katex_css: Some(".custom-katex{}"),
            ..ConvertOptions::default()
        }),
    );
    assert!(custom.contains("<script>var customKatex = 1;</script>"));
    assert!(custom.contains("<style>.custom-katex{}</style>"));

    let off = page(markdown, &plain(ConvertOptions { math: None, ..ConvertOptions::default() }));
    assert!(!off.contains("katex"));
    assert!(!off.contains("data-math-style"));
}

#[test]
fn mermaid_is_loaded_only_for_diagrams() {
    let markdown = "```mermaid\ngraph TD; A-->B;\n```\n";

    let client = page(markdown, &plain(ConvertOptions::default()));
    assert!(client.contains("npm/mermaid"));
    assert!(client.contains("mermaid.run"));
    assert!(!client.contains("hljs"));

    let embedded = page(
        markdown,
        &plain(ConvertOptions {
            mermaid: Some(MermaidMode::Embedded),
            mermaid_js: Some("var customMermaid = 1;"),
            ..ConvertOptions::default()
        }),
    );
    assert!(embedded.contains("<script>var customMermaid = 1;</script>"));
    assert!(!embedded.contains("npm/mermaid"));

    let off = page(markdown, &plain(ConvertOptions { mermaid: None, ..ConvertOptions::default() }));
    assert!(!off.contains("mermaid.run"));

    let no_diagram = page("Just a paragraph.", &plain(ConvertOptions::default()));
    assert!(!no_diagram.contains("mermaid"));
}

#[test]
fn a_fixed_theme_picks_its_stylesheets() {
    let dark = page("```rust\nfn main() {}\n```\n", &plain(ConvertOptions { theme: Theme::Dark, ..ConvertOptions::default() }));
    assert!(dark.contains("color-scheme:dark"));
    assert!(!dark.contains("prefers-color-scheme:light"));

    let auto = page("```rust\nfn main() {}\n```\n", &plain(ConvertOptions::default()));
    assert!(auto.contains("<style>@media (prefers-color-scheme:light){"));
}

#[test]
fn the_extra_stylesheet_comes_last() {
    let options = plain(ConvertOptions { extra_css: Some(".extra{}"), ..ConvertOptions::default() });

    let html = page("Just a paragraph.", &options);

    assert!(html.contains("<style>.extra{}</style></head>"));
}

#[test]
fn cjk_fonts_can_be_left_out() {
    let with_fonts = page("Just a paragraph.", &plain(ConvertOptions::default()));
    let without_fonts = page("Just a paragraph.", &plain(ConvertOptions { cjk_fonts: false, ..ConvertOptions::default() }));

    assert!(with_fonts.contains("Noto Sans TC"));
    assert!(!without_fonts.contains("Noto Sans TC"));
}

#[test]
fn unused_modes_change_nothing() {
    let markdown = "# Hello world!\n\n```rust\nfn main() {}\n```\n";

    let katex = ConvertOptions::default();
    let mathjax = ConvertOptions {
        math: Some(MathMode::MathJaxEmbedded),
        mathjax_js: Some("var customMathJax = 1;"),
        mermaid: Some(MermaidMode::Embedded),
        mermaid_js: Some("var customMermaid = 1;"),
        ..ConvertOptions::default()
    };

    assert_eq!(page(markdown, &katex), page(markdown, &mathjax));
    assert_eq!(page(markdown, &plain(katex)), page(markdown, &plain(mathjax)));
}

#[test]
fn a_rendered_content_is_laid_out_as_it_is() {
    let options = plain(ConvertOptions { math: None, mermaid: None, cjk_fonts: false, ..ConvertOptions::default() });

    let html = String::from_utf8(convert_rendered("# Hi", &options, "<p>given</p>").unwrap()).unwrap();

    assert!(html.contains("<title>Hi</title>"));
    assert!(html.contains("<article class=\"markdown-body\"><p>given</p></article>"));
}

#[test]
fn embedded_images_get_their_data_urls() {
    let images = vec![(String::from("pic.png"), String::from("data:image/png;base64,YW4gaW1hZ2U="))];
    let markdown = "![a picture](pic.png) ![another](other.png)";

    let embedding = ConvertOptions { embed_images: true, ..ConvertOptions::default() };
    let html = String::from_utf8(convert(markdown, &embedding, &images).unwrap()).unwrap();
    assert!(html.contains("src=\"data:image/png;base64,YW4gaW1hZ2U=\""));
    assert!(html.contains("src=\"other.png\""));

    let html = String::from_utf8(convert(markdown, &ConvertOptions::default(), &images).unwrap()).unwrap();
    assert!(html.contains("src=\"pic.png\""));
}

#[test]
fn the_library_renderer_leaves_raw_html_out() {
    let options = ConvertOptions { allow_unsafe: true, ..ConvertOptions::default() };

    assert!(!page("<b>bold</b>", &options).contains("<b>bold</b>"));
}
