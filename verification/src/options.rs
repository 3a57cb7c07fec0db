use vstd::prelude::*;

use crate::text::str_eq;

verus! {

/// The color theme of the output HTML.
#[derive(Debug, Clone, Copy, PartialEq, Eq, Structural)]
pub enum Theme {
    /// Follow the `prefers-color-scheme` media feature.
    Auto,
    /// Always use the light theme.
    Light,
    /// Always use the dark theme.
    Dark,
}

/// The name of a theme, as it is written on the command line.
pub open spec fn theme_name(theme: Theme) -> Seq<char> {
    match theme {
        Theme::Auto => "auto"@,
        Theme::Light => "light"@,
        Theme::Dark => "dark"@,
    }
}

impl Theme {
    /// The value of the `data-theme` attribute of the `<html>` element, if the theme is fixed.
    pub fn attribute_value(self) -> (value: Option<&'static str>)
        ensures
            match self {
                Theme::Auto => value is None,
                _ => value matches Some(v) && v@ == theme_name(self),
            },
    {
        match self {
            Theme::Auto => None,
            Theme::Light => Some("light"),
            Theme::Dark => Some("dark"),
        }
    }

    /// The name of this theme.
    pub fn name(self) -> (name: &'static str)
        ensures
            name@ == theme_name(self),
    {
        match self {
            Theme::Auto => "auto",
            Theme::Light => "light",
            Theme::Dark => "dark",
        }
    }

    /// Parse a theme from its name.
    pub fn from_name(s: &str) -> (res: Result<Theme, UnknownTheme>)
        ensures
            match res {
                Ok(theme) => theme_name(theme) == s@,
                Err(_) => forall|t: Theme| theme_name(t) != s@,
            },
    {
        if str_eq(s, "auto") {
            Ok(Theme::Auto)
        } else if str_eq(s, "light") {
            Ok(Theme::Light)
        } else if str_eq(s, "dark") {
            Ok(Theme::Dark)
        } else {
            Err(UnknownTheme)
        }
    }
}

impl core::str::FromStr for Theme {
    type Err = UnknownTheme;

    fn from_str(s: &str) -> (res: Result<Theme, UnknownTheme>)
        ensures
            match res {
                Ok(value) => theme_name(value) == s@,
                Err(_) => forall|v: Theme| theme_name(v) != s@,
            },
    {
        Theme::from_name(s)
    }
}

impl Default for Theme {
    fn default() -> (theme: Theme)
        ensures
            theme == Theme::Auto,
    {
        Theme::Auto
    }
}

/// The error of parsing a [`Theme`] from a string.
#[derive(Debug, Clone, Copy, PartialEq, Eq, Structural)]
pub struct UnknownTheme;

impl UnknownTheme {
    /// The message of this error.
    pub fn message(&self) -> (message: &'static str)
        ensures
            message@ == "the theme should be one of `auto`, `light` and `dark`"@,
    {
        "the theme should be one of `auto`, `light` and `dark`"
    }
}

/// How the math in a Markdown file is rendered.
#[derive(Debug, Clone, Copy, PartialEq, Eq, Structural)]
pub enum MathMode {
    /// Write the **MathJax** configuration and the **MathJax** script into the page: the custom bundle when one is
    /// given, else the built-in script, which does not carry the bundle but loads it from jsDelivr while the page is
    /// parsed.
    MathJaxEmbedded,
    /// Load **MathJax** from a CDN.
    MathJaxClient,
    /// Write the **KaTeX** stylesheet and script into the page: the custom ones when they are given, else the
    /// built-in ones, which do not carry **KaTeX** but load it from jsDelivr.
    KatexEmbedded,
    /// Load **KaTeX** from a CDN.
    KatexClient,
}

/// The name of a math mode, as it is written on the command line.
pub open spec fn math_mode_name(mode: MathMode) -> Seq<char> {
    match mode {
        MathMode::MathJaxEmbedded => "mathjax-embedded"@,
        MathMode::MathJaxClient => "mathjax-client"@,
        MathMode::KatexEmbedded => "katex-embedded"@,
        MathMode::KatexClient => "katex-client"@,
    }
}

/// Whether a math mode renders the math with **KaTeX**.
pub open spec fn math_mode_is_katex(mode: MathMode) -> bool {
    mode == MathMode::KatexEmbedded || mode == MathMode::KatexClient
}

impl MathMode {
    /// Whether this mode renders the math with **KaTeX**.
    pub fn is_katex(self) -> (katex: bool)
        ensures
            katex == math_mode_is_katex(self),
    {
        matches!(self, MathMode::KatexEmbedded | MathMode::KatexClient)
    }

    /// The name of this math mode.
    pub fn name(self) -> (name: &'static str)
        ensures
            name@ == math_mode_name(self),
    {
        match self {
            MathMode::MathJaxEmbedded => "mathjax-embedded",
            MathMode::MathJaxClient => "mathjax-client",
            MathMode::KatexEmbedded => "katex-embedded",
            MathMode::KatexClient => "katex-client",
        }
    }

    /// Parse a math mode from its name.
    pub fn from_name(s: &str) -> (res: Result<MathMode, UnknownMathMode>)
        ensures
            match res {
                Ok(mode) => math_mode_name(mode) == s@,
                Err(_) => forall|m: MathMode| math_mode_name(m) != s@,
            },
    {
        if str_eq(s, "mathjax-embedded") {
            Ok(MathMode::MathJaxEmbedded)
        } else if str_eq(s, "mathjax-client") {
            Ok(MathMode::MathJaxClient)
        } else if str_eq(s, "katex-embedded") {
            Ok(MathMode::KatexEmbedded)
        } else if str_eq(s, "katex-client") {
            Ok(MathMode::KatexClient)
        } else {
            Err(UnknownMathMode)
        }
    }
}

impl core::str::FromStr for MathMode {
    type Err = UnknownMathMode;

    fn from_str(s: &str) -> (res: Result<MathMode, UnknownMathMode>)
        ensures
            match res {
                Ok(value) => math_mode_name(value) == s@,
                Err(_) => forall|v: MathMode| math_mode_name(v) != s@,
            },
    {
        MathMode::from_name(s)
    }
}

impl Default for MathMode {
    fn default() -> (mode: MathMode)
        ensures
            mode == MathMode::KatexClient,
    {
        MathMode::KatexClient
    }
}

/// The error of parsing a [`MathMode`] from a string.
#[derive(Debug, Clone, Copy, PartialEq, Eq, Structural)]
pub struct UnknownMathMode;

impl UnknownMathMode {
    /// The message of this error.
    pub fn message(&self) -> (message: &'static str)
        ensures
            message@ == "the math mode should be one of `mathjax-embedded`, `mathjax-client`, `katex-embedded` and `katex-client`"@,
    {
        "the math mode should be one of `mathjax-embedded`, `mathjax-client`, `katex-embedded` and `katex-client`"
    }
}

/// How the **Mermaid** diagrams in a Markdown file are rendered.
#[derive(Debug, Clone, Copy, PartialEq, Eq, Structural)]
pub enum MermaidMode {
    /// Write the **Mermaid** script into the page: the custom bundle when one is given, else the built-in script,
    /// which does not carry the bundle but loads it from jsDelivr while the page is parsed.
    Embedded,
    /// Load **Mermaid** from a CDN.
    Client,
}

/// The name of a Mermaid mode, as it is written on the command line.
pub open spec fn mermaid_mode_name(mode: MermaidMode) -> Seq<char> {
    match mode {
        MermaidMode::Embedded => "embedded"@,
        MermaidMode::Client => "client"@,
    }
}

impl MermaidMode {
    /// The name of this Mermaid mode.
    pub fn name(self) -> (name: &'static str)
        ensures
            name@ == mermaid_mode_name(self),
    {
        match self {
            MermaidMode::Embedded => "embedded",
            MermaidMode::Client => "client",
        }
    }

    /// Parse a Mermaid mode from its name.
    pub fn from_name(s: &str) -> (res: Result<MermaidMode, UnknownMermaidMode>)
        ensures
            match res {
                Ok(mode) => mermaid_mode_name(mode) == s@,
                Err(_) => forall|m: MermaidMode| mermaid_mode_name(m) != s@,
            },
    {
        if str_eq(s, "embedded") {
            Ok(MermaidMode::Embedded)
        } else if str_eq(s, "client") {
            Ok(MermaidMode::Client)
        } else {
            Err(UnknownMermaidMode)
        }
    }
}

impl core::str::FromStr for MermaidMode {
    type Err = UnknownMermaidMode;

    fn from_str(s: &str) -> (res: Result<MermaidMode, UnknownMermaidMode>)
        ensures
            match res {
                Ok(value) => mermaid_mode_name(value) == s@,
                Err(_) => forall|v: MermaidMode| mermaid_mode_name(v) != s@,
            },
    {
        MermaidMode::from_name(s)
    }
}

impl Default for MermaidMode {
    fn default() -> (mode: MermaidMode)
        ensures
            mode == MermaidMode::Client,
    {
        MermaidMode::Client
    }
}

/// The error of parsing a [`MermaidMode`] from a string.
#[derive(Debug, Clone, Copy, PartialEq, Eq, Structural)]
pub struct UnknownMermaidMode;

impl UnknownMermaidMode {
    /// The message of this error.
    pub fn message(&self) -> (message: &'static str)
        ensures
            message@ == "the Mermaid mode should be either `embedded` or `client`"@,
    {
        "the Mermaid mode should be either `embedded` or `client`"
    }
}

/// Which code block languages make **highlight.js** be written into the page. Languages are matched case-insensitively.
#[derive(Debug, Clone, Copy, PartialEq, Eq)]
pub enum HighlightLanguages<'a> {
    /// The languages which the built-in **highlight.js** supports.
    BuiltIn,
    /// Every language.
    Any,
    /// Only the given languages.
    Only(&'a [&'a str]),
}

impl Default for HighlightLanguages<'_> {
    fn default() -> (languages: Self)
        ensures
            languages is BuiltIn,
    {
        HighlightLanguages::BuiltIn
    }
}

/// Options for [`convert`](crate::convert).
#[derive(Debug, Clone)]
pub struct ConvertOptions<'a> {
    /// The title of the HTML file. When it is `None`, the title is looked up in the front matter and then in the first level-1 heading.
    pub title: Option<&'a str>,
    /// The title to use when no title can be found in the Markdown file.
    pub default_title: Option<&'a str>,
    /// The `lang` attribute of the `<html>` element. An empty string omits the attribute.
    pub lang: &'a str,
    /// The color theme.
    pub theme: Theme,
    /// Allow raw HTML and dangerous URLs.
    pub allow_unsafe: bool,
    /// Treat a single line break as a `<br>`.
    pub hardbreaks: bool,
    /// Write **highlight.js** into the page when the Markdown file has code blocks with a supported language.
    pub highlight: bool,
    /// Which code block languages make **highlight.js** be embedded.
    pub highlight_languages: HighlightLanguages<'a>,
    /// How the math is rendered. `None` leaves the math alone.
    pub math: Option<MathMode>,
    /// How the **Mermaid** diagrams are rendered. `None` leaves a ```` ```mermaid ```` block as a code block.
    pub mermaid: Option<MermaidMode>,
    /// Embed the CJK fonts.
    pub cjk_fonts: bool,
    /// Minify the output HTML.
    pub minify: bool,
    /// Replace the URLs of local images by the `data` URLs of the images.
    pub embed_images: bool,
    /// The directory which the relative URLs of local images are resolved against. `None` stands for the current
    /// directory.
    pub base_path: Option<&'a str>,
    /// A stylesheet which replaces the built-in one.
    pub css: Option<&'a str>,
    /// A stylesheet which is appended after all the other stylesheets.
    pub extra_css: Option<&'a str>,
    /// A script which replaces the built-in **highlight.js**.
    pub highlight_js: Option<&'a str>,
    /// A stylesheet which replaces the built-in **highlight.js** theme.
    pub highlight_css: Option<&'a str>,
    /// A script which replaces the built-in **MathJax**.
    pub mathjax_js: Option<&'a str>,
    /// A script which replaces the built-in **KaTeX**.
    pub katex_js: Option<&'a str>,
    /// A stylesheet which replaces the built-in **KaTeX** one.
    pub katex_css: Option<&'a str>,
    /// A script which replaces the built-in **Mermaid**.
    pub mermaid_js: Option<&'a str>,
}

impl Default for ConvertOptions<'_> {
    fn default() -> (options: Self)
        ensures
            options.title is None,
            options.default_title is None,
            options.lang@ == "en"@,
            options.theme == Theme::Auto,
            !options.allow_unsafe,
            options.hardbreaks,
            options.highlight,
            options.highlight_languages is BuiltIn,
            options.math == Some(MathMode::KatexClient),
            options.mermaid == Some(MermaidMode::Client),
            options.cjk_fonts,
            options.minify,
            !options.embed_images,
            options.base_path is None,
            options.css is None,
            options.extra_css is None,
            options.highlight_js is None,
            options.highlight_css is None,
            options.mathjax_js is None,
            options.katex_js is None,
            options.katex_css is None,
            options.mermaid_js is None,
    {
        ConvertOptions {
            title: None,
            default_title: None,
            lang: "en",
            theme: Theme::Auto,
            allow_unsafe: false,
            hardbreaks: true,
            highlight: true,
            highlight_languages: HighlightLanguages::BuiltIn,
            math: Some(MathMode::KatexClient),
            mermaid: Some(MermaidMode::Client),
            cjk_fonts: true,
            minify: true,
            embed_images: false,
            base_path: None,
            css: None,
            extra_css: None,
            highlight_js: None,
            highlight_css: None,
            mathjax_js: None,
            katex_js: None,
            katex_css: None,
            mermaid_js: None,
        }
    }
}

} // verus!
