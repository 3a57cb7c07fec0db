use std::str::FromStr;

use markdown2html_converter::{
    ConvertOptions, HighlightLanguages, MathMode, MermaidMode, Theme, UnknownMathMode,
    UnknownMermaidMode, UnknownTheme,
};

#[test]
fn themes_are_parsed_by_name() {
    assert_eq!(Ok(Theme::Auto), Theme::from_name("auto"));
    assert_eq!(Ok(Theme::Light), Theme::from_name("light"));
    assert_eq!(Ok(Theme::Dark), Theme::from_name("dark"));
    assert_eq!(Err(UnknownTheme), Theme::from_name("Dark"));
    assert_eq!(Ok(Theme::Dark), Theme::from_str("dark"));

    for theme in [Theme::Auto, Theme::Light, Theme::Dark] {
        assert_eq!(Ok(theme), Theme::from_name(theme.name()));
    }
}

#[test]
fn math_modes_are_parsed_by_name() {
    assert_eq!(Ok(MathMode::MathJaxEmbedded), MathMode::from_name("mathjax-embedded"));
    assert_eq!(Ok(MathMode::MathJaxClient), MathMode::from_name("mathjax-client"));
    assert_eq!(Ok(MathMode::KatexEmbedded), MathMode::from_name("katex-embedded"));
    assert_eq!(Ok(MathMode::KatexClient), MathMode::from_name("katex-client"));
    assert_eq!(Err(UnknownMathMode), MathMode::from_name("katex"));
    assert_eq!(Ok(MathMode::KatexClient), MathMode::from_str("katex-client"));

    for mode in [
        MathMode::MathJaxEmbedded,
        MathMode::MathJaxClient,
        MathMode::KatexEmbedded,
        MathMode::KatexClient,
    ] {
        assert_eq!(Ok(mode), MathMode::from_name(mode.name()));
    }
}

#[test]
fn mermaid_modes_are_parsed_by_name() {
    assert_eq!(Ok(MermaidMode::Embedded), MermaidMode::from_name("embedded"));
    assert_eq!(Ok(MermaidMode::Client), MermaidMode::from_name("client"));
    assert_eq!(Err(UnknownMermaidMode), MermaidMode::from_name(""));
    assert_eq!(Ok(MermaidMode::Embedded), MermaidMode::from_str("embedded"));

    for mode in [MermaidMode::Embedded, MermaidMode::Client] {
        assert_eq!(Ok(mode), MermaidMode::from_name(mode.name()));
    }
}

#[test]
fn the_errors_say_what_is_expected() {
    assert_eq!("the theme should be one of `auto`, `light` and `dark`", UnknownTheme.message());
    assert_eq!(
        "the math mode should be one of `mathjax-embedded`, `mathjax-client`, `katex-embedded` and \
         `katex-client`",
        UnknownMathMode.message()
    );
    assert_eq!(
        "the Mermaid mode should be either `embedded` or `client`",
        UnknownMermaidMode.message()
    );
}

#[test]
fn only_a_fixed_theme_has_an_attribute_value() {
    assert_eq!(None, Theme::Auto.attribute_value());
    assert_eq!(Some("light"), Theme::Light.attribute_value());
    assert_eq!(Some("dark"), Theme::Dark.attribute_value());
}

#[test]
fn only_katex_modes_are_katex() {
    assert!(MathMode::KatexEmbedded.is_katex());
    assert!(MathMode::KatexClient.is_katex());
    assert!(!MathMode::MathJaxEmbedded.is_katex());
    assert!(!MathMode::MathJaxClient.is_katex());
}

#[test]
fn the_defaults_are_the_documented_ones() {
    assert_eq!(Theme::Auto, Theme::default());
    assert_eq!(MathMode::KatexClient, MathMode::default());
    assert_eq!(MermaidMode::Client, MermaidMode::default());
    assert!(matches!(HighlightLanguages::default(), HighlightLanguages::BuiltIn));

    let options = ConvertOptions::default();

    assert_eq!(None, options.title);
    assert_eq!(None, options.default_title);
    assert_eq!("en", options.lang);
    assert_eq!(Theme::Auto, options.theme);
    assert!(!options.allow_unsafe);
    assert!(options.hardbreaks);
    assert!(options.highlight);
    assert!(matches!(options.highlight_languages, HighlightLanguages::BuiltIn));
    assert_eq!(Some(MathMode::KatexClient), options.math);
    assert_eq!(Some(MermaidMode::Client), options.mermaid);
    assert!(options.cjk_fonts);
    assert!(options.minify);
    assert!(!options.embed_images);
    assert_eq!(None, options.base_path);
    assert_eq!(None, options.css);
    assert_eq!(None, options.mermaid_js);
}
