use markdown2html_converter::{
    file_stem, highlight_languages, output_plan, misplaced_math_asset, misplaced_mermaid_asset, parse_math_mode,
    parse_mermaid_mode, parse_theme, CLIArgs, HighlightLanguages, MathMode, MermaidMode, Theme,
};

fn args() -> CLIArgs {
    CLIArgs {
        markdown_path: String::from("readme.md"),
        title: None,
        output: None,
        force: false,
        lang: String::from("en"),
        theme: Theme::Auto,
        allow_unsafe: false,
        embed_images: false,
        base_path: None,
        no_highlight: false,
        highlight_languages: None,
        math_mode: MathMode::KatexClient,
        no_math: false,
        mermaid_mode: MermaidMode::Client,
        no_mermaid: false,
        no_cjk_fonts: false,
        no_hardbreaks: false,
        no_minify: false,
        css_path: None,
        extra_css_path: None,
        highlight_js_path: None,
        highlight_css_path: None,
        mathjax_js_path: None,
        katex_js_path: None,
        katex_css_path: None,
        mermaid_js_path: None,
    }
}

#[test]
fn option_values_are_parsed() {
    assert_eq!(Ok(Theme::Light), parse_theme("light"));
    assert_eq!(
        Err(String::from("the theme should be one of `auto`, `light` and `dark`")),
        parse_theme("blue")
    );
    assert_eq!(Ok(MathMode::MathJaxEmbedded), parse_math_mode("mathjax-embedded"));
    assert!(parse_math_mode("mathjax").unwrap_err().starts_with("the math mode should be one of"));
    assert_eq!(Ok(MermaidMode::Embedded), parse_mermaid_mode("embedded"));
    assert_eq!(
        Err(String::from("the Mermaid mode should be either `embedded` or `client`")),
        parse_mermaid_mode("server")
    );
}

#[test]
fn an_asset_needs_the_mode_it_belongs_to() {
    assert_eq!(None, misplaced_math_asset(&args()));

    let mathjax = CLIArgs { mathjax_js_path: Some(String::from("/dev/null")), ..args() };
    assert_eq!(Some(("--mathjax-js-path", MathMode::MathJaxEmbedded)), misplaced_math_asset(&mathjax));

    let mathjax = CLIArgs { math_mode: MathMode::MathJaxEmbedded, ..mathjax };
    assert_eq!(None, misplaced_math_asset(&mathjax));

    let katex_js = CLIArgs { katex_js_path: Some(String::from("katex.js")), ..args() };
    assert_eq!(Some(("--katex-js-path", MathMode::KatexEmbedded)), misplaced_math_asset(&katex_js));

    let katex_css = CLIArgs {
        katex_css_path: Some(String::from("katex.css")),
        math_mode: MathMode::MathJaxClient,
        ..args()
    };
    assert_eq!(Some(("--katex-css-path", MathMode::KatexEmbedded)), misplaced_math_asset(&katex_css));

    let katex = CLIArgs { math_mode: MathMode::KatexEmbedded, ..katex_css };
    assert_eq!(None, misplaced_math_asset(&katex));

    let mermaid = CLIArgs { mermaid_js_path: Some(String::from("mermaid.js")), ..args() };
    assert_eq!(Some(("--mermaid-js-path", MermaidMode::Embedded)), misplaced_mermaid_asset(&mermaid));

    let mermaid = CLIArgs { mermaid_mode: MermaidMode::Embedded, ..mermaid };
    assert_eq!(None, misplaced_mermaid_asset(&mermaid));
    assert_eq!(None, misplaced_mermaid_asset(&args()));
}

#[test]
fn any_stands_for_every_language() {
    assert!(matches!(highlight_languages(None), HighlightLanguages::BuiltIn));

    let names = ["rust", "ANY"];
    assert!(matches!(highlight_languages(Some(&names)), HighlightLanguages::Any));

    let names = ["rust", "plantuml"];
    assert!(matches!(highlight_languages(Some(&names)), HighlightLanguages::Only(l) if l.len() == 2));
}

#[test]
fn the_output_goes_next_to_the_markdown_file() {
    let plan = output_plan("docs/readme.md", None);
    assert!(!plan.from_stdin);
    assert_eq!("readme", plan.default_title);
    assert_eq!(Some(String::from("docs/readme.html")), plan.html_path);

    let plan = output_plan("readme.md", None);
    assert_eq!(Some(String::from("readme.html")), plan.html_path);

    let plan = output_plan("/tmp/a.tar.md", None);
    assert_eq!("a.tar", plan.default_title);
    assert_eq!(Some(String::from("/tmp/a.tar.html")), plan.html_path);
}

#[test]
fn the_output_file_gives_the_default_title() {
    let plan = output_plan("input.md", Some("out/output.html"));
    assert_eq!("output", plan.default_title);
    assert_eq!(Some(String::from("out/output.html")), plan.html_path);

    let plan = output_plan("input.md", Some("-"));
    assert_eq!("input", plan.default_title);
    assert_eq!(None, plan.html_path);

    let plan = output_plan("-", None);
    assert!(plan.from_stdin);
    assert_eq!("", plan.default_title);
    assert_eq!(None, plan.html_path);

    let plan = output_plan("-", Some("page.html"));
    assert_eq!("page", plan.default_title);
    assert_eq!(Some(String::from("page.html")), plan.html_path);
}

#[test]
fn file_stems_drop_the_last_extension() {
    assert_eq!("readme", file_stem("readme.md"));
    assert_eq!("readme", file_stem("readme"));
    assert_eq!(".hidden", file_stem(".hidden"));
    assert_eq!("a.tar", file_stem("x/a.tar.gz"));
    assert_eq!("", file_stem("dir/"));
}
