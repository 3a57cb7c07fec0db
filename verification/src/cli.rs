use vstd::prelude::*;
use vstd::string::*;

use crate::options::{
    math_mode_name, mermaid_mode_name, theme_name, HighlightLanguages, MathMode, MermaidMode, Theme,
};
use crate::images::{file_name_index, file_name_start, last_dot, last_dot_index};
use crate::text::{chars_of, eq_ignore_ascii_case, same_ignoring_ascii_case, str_eq};

verus! {

/// The command-line arguments. Paths are kept as the text they were given as.
#[derive(Debug, Clone)]
pub struct CLIArgs {
    /// The path of the Markdown file, or `-` for the standard input.
    pub markdown_path: String,
    /// The title of the HTML file.
    pub title: Option<String>,
    /// The path of the HTML file, or `-` for the standard output.
    pub output: Option<String>,
    /// Overwrite the HTML file if it exists.
    pub force: bool,
    /// The language of the HTML file.
    pub lang: String,
    /// The color theme of the HTML file.
    pub theme: Theme,
    /// Allow raw HTML and dangerous URLs (`--unsafe`).
    pub allow_unsafe: bool,
    /// Embed local images as `data` URLs.
    pub embed_images: bool,
    /// The base directory for relative local images.
    pub base_path: Option<String>,
    /// Do not embed **highlight.js**.
    pub no_highlight: bool,
    /// The code block languages which make **highlight.js** be embedded, or `any` for all of them.
    pub highlight_languages: Option<Vec<String>>,
    /// How the math is rendered.
    pub math_mode: MathMode,
    /// Do not render math.
    pub no_math: bool,
    /// How the **Mermaid** diagrams are rendered.
    pub mermaid_mode: MermaidMode,
    /// Do not render **Mermaid** diagrams.
    pub no_mermaid: bool,
    /// Do not embed CJK fonts.
    pub no_cjk_fonts: bool,
    /// Do not render single line breaks as `<br>`.
    pub no_hardbreaks: bool,
    /// Do not minify the output HTML.
    pub no_minify: bool,
    /// A CSS file that replaces the built-in Markdown styles.
    pub css_path: Option<String>,
    /// An extra CSS file to append after all stylesheets.
    pub extra_css_path: Option<String>,
    /// A custom **highlight.js** file.
    pub highlight_js_path: Option<String>,
    /// Custom CSS for **highlight.js** code blocks.
    pub highlight_css_path: Option<String>,
    /// A custom single-file **MathJax** bundle.
    pub mathjax_js_path: Option<String>,
    /// A custom **KaTeX** file.
    pub katex_js_path: Option<String>,
    /// Custom CSS for **KaTeX**.
    pub katex_css_path: Option<String>,
    /// A custom single-file **Mermaid** bundle.
    pub mermaid_js_path: Option<String>,
}

/// The message of an unknown theme.
pub open spec fn unknown_theme_message() -> Seq<char> {
    "the theme should be one of `auto`, `light` and `dark`"@
}

/// The message of an unknown math mode.
pub open spec fn unknown_math_mode_message() -> Seq<char> {
    "the math mode should be one of `mathjax-embedded`, `mathjax-client`, `katex-embedded` and `katex-client`"@
}

/// The message of an unknown Mermaid mode.
pub open spec fn unknown_mermaid_mode_message() -> Seq<char> {
    "the Mermaid mode should be either `embedded` or `client`"@
}

/// Parse the value of `--theme`.
pub fn parse_theme(theme: &str) -> (res: Result<Theme, String>)
    ensures
        match res {
            Ok(t) => theme_name(t) == theme@,
            Err(message) => (forall|t: Theme| theme_name(t) != theme@) && message@
                == unknown_theme_message(),
        },
{
    match Theme::from_name(theme) {
        Ok(t) => Ok(t),
        Err(error) => Err(error.message().to_owned()),
    }
}

/// Parse the value of `--math-mode`.
pub fn parse_math_mode(math_mode: &str) -> (res: Result<MathMode, String>)
    ensures
        match res {
            Ok(m) => math_mode_name(m) == math_mode@,
            Err(message) => (forall|m: MathMode| math_mode_name(m) != math_mode@) && message@
                == unknown_math_mode_message(),
        },
{
    match MathMode::from_name(math_mode) {
        Ok(m) => Ok(m),
        Err(error) => Err(error.message().to_owned()),
    }
}

/// Parse the value of `--mermaid-mode`.
pub fn parse_mermaid_mode(mermaid_mode: &str) -> (res: Result<MermaidMode, String>)
    ensures
        match res {
            Ok(m) => mermaid_mode_name(m) == mermaid_mode@,
            Err(message) => (forall|m: MermaidMode| mermaid_mode_name(m) != mermaid_mode@) && message@
                == unknown_mermaid_mode_message(),
        },
{
    match MermaidMode::from_name(mermaid_mode) {
        Ok(m) => Ok(m),
        Err(error) => Err(error.message().to_owned()),
    }
}

/// The first asset option which needs a math mode other than the chosen one, with the math mode it needs: a
/// **MathJax** bundle needs `mathjax-embedded`, and a **KaTeX** script or stylesheet needs `katex-embedded`.
pub open spec fn misplaced_math_asset_of(args: CLIArgs) -> Option<(Seq<char>, MathMode)> {
    if args.mathjax_js_path is Some && args.math_mode != MathMode::MathJaxEmbedded {
        Some(("--mathjax-js-path"@, MathMode::MathJaxEmbedded))
    } else if args.katex_js_path is Some && args.math_mode != MathMode::KatexEmbedded {
        Some(("--katex-js-path"@, MathMode::KatexEmbedded))
    } else if args.katex_css_path is Some && args.math_mode != MathMode::KatexEmbedded {
        Some(("--katex-css-path"@, MathMode::KatexEmbedded))
    } else {
        None
    }
}

/// The text of an option name paired with a mode.
pub open spec fn option_text<M>(found: Option<(&str, M)>) -> Option<(Seq<char>, M)> {
    match found {
        Some((option, mode)) => Some((option@, mode)),
        None => None,
    }
}

/// Find an asset option which needs a math mode other than the chosen one.
pub fn misplaced_math_asset(args: &CLIArgs) -> (found: Option<(&'static str, MathMode)>)
    ensures
        option_text(found) == misplaced_math_asset_of(*args),
{
    if args.mathjax_js_path.is_some() && args.math_mode != MathMode::MathJaxEmbedded {
        return Some(("--mathjax-js-path", MathMode::MathJaxEmbedded));
    }
    if args.katex_js_path.is_some() && args.math_mode != MathMode::KatexEmbedded {
        return Some(("--katex-js-path", MathMode::KatexEmbedded));
    }
    if args.katex_css_path.is_some() && args.math_mode != MathMode::KatexEmbedded {
        return Some(("--katex-css-path", MathMode::KatexEmbedded));
    }
    None
}

/// The asset option which needs a Mermaid mode other than the chosen one, with the Mermaid mode it needs: a
/// **Mermaid** bundle needs `embedded`.
pub open spec fn misplaced_mermaid_asset_of(args: CLIArgs) -> Option<(Seq<char>, MermaidMode)> {
    if args.mermaid_js_path is Some && args.mermaid_mode != MermaidMode::Embedded {
        Some(("--mermaid-js-path"@, MermaidMode::Embedded))
    } else {
        None
    }
}

/// Find an asset option which needs a Mermaid mode other than the chosen one.
pub fn misplaced_mermaid_asset(args: &CLIArgs) -> (found: Option<(&'static str, MermaidMode)>)
    ensures
        option_text(found) == misplaced_mermaid_asset_of(*args),
{
    if args.mermaid_js_path.is_some() && args.mermaid_mode != MermaidMode::Embedded {
        return Some(("--mermaid-js-path", MermaidMode::Embedded));
    }
    None
}

/// Whether one of the names is `any`, compared without the case of ASCII letters.
pub open spec fn names_any(names: Seq<&str>) -> bool {
    exists|i: int| 0 <= i < names.len() && same_ignoring_ascii_case(#[trigger] names[i]@, "any"@)
}

/// Which languages the names given on the command line stand for: all of them when one of the names is `any`, which
/// no **highlight.js** language uses; else the names themselves; else the built-in list.
pub open spec fn highlight_languages_of<'a>(names: Option<&'a [&'a str]>) -> HighlightLanguages<'a> {
    match names {
        Some(list) => if names_any(list@) {
            HighlightLanguages::Any
        } else {
            HighlightLanguages::Only(list)
        },
        None => HighlightLanguages::BuiltIn,
    }
}

/// Choose the highlighted languages from the names given on the command line.
pub fn highlight_languages<'a>(names: Option<&'a [&'a str]>) -> (languages: HighlightLanguages<'a>)
    ensures
        languages == highlight_languages_of(names),
{
    match names {
        Some(list) => {
            let mut i: usize = 0;
            while i < list.len()
                invariant
                    i <= list@.len(),
                    names == Some(list),
                    forall|k: int| 0 <= k < i ==> !same_ignoring_ascii_case(#[trigger] list@[k]@, "any"@),
                decreases list@.len() - i,
            {
                if eq_ignore_ascii_case(list[i], "any") {
                    assert(same_ignoring_ascii_case(list@[i as int]@, "any"@));
                    return HighlightLanguages::Any;
                }
                i += 1;
            }
            HighlightLanguages::Only(list)
        },
        None => HighlightLanguages::BuiltIn,
    }
}

/// The stem of the file name of a path: the name after the last `/` or `\`, without what follows its last `.`
/// when that `.` does not start the name.
pub open spec fn file_stem_of(path: Seq<char>) -> Seq<char> {
    let name = path.subrange(file_name_start(path), path.len() as int);
    if last_dot(name) > 0 {
        name.subrange(0, last_dot(name))
    } else {
        name
    }
}

/// Find the stem of the file name of a path.
pub fn file_stem(path: &str) -> (stem: &str)
    ensures
        stem@ == file_stem_of(path@),
{
    let v = chars_of(path);
    let start = file_name_index(&v);
    let dot = last_dot_index(&v, start);
    if dot - start > 1 {
        let stem = path.substring_char(start, dot - 1);
        assert(stem@ =~= file_stem_of(path@));
        stem
    } else {
        path.substring_char(start, v.len())
    }
}

/// Where the Markdown text comes from and where the HTML file goes.
#[derive(Debug, Clone, PartialEq, Eq)]
pub struct OutputPlan {
    /// The Markdown text is read from the standard input.
    pub from_stdin: bool,
    /// The title of the page when the document gives none.
    pub default_title: String,
    /// The path of the HTML file, or `None` for the standard output.
    pub html_path: Option<String>,
}

/// Where the HTML file goes, as the paths given on the command line say: `-` stands for the standard input and the
/// standard output. The HTML file of a Markdown file is written next to it with the `.html` extension, unless an
/// output is given. The default title is the file stem of the output file when one is given, else that of the
/// Markdown file, else empty.
pub open spec fn output_plan_of(markdown_path: Seq<char>, output: Option<Seq<char>>) -> (bool, Seq<char>, Option<
    Seq<char>,
>) {
    let from_stdin = markdown_path == "-"@;
    let default_title = match output {
        Some(path) => if path != "-"@ {
            file_stem_of(path)
        } else if from_stdin {
            Seq::empty()
        } else {
            file_stem_of(markdown_path)
        },
        None => if from_stdin {
            Seq::empty()
        } else {
            file_stem_of(markdown_path)
        },
    };
    let html_path = match output {
        Some(path) => if path == "-"@ {
            None
        } else {
            Some(path)
        },
        None => if from_stdin {
            None
        } else {
            Some(
                markdown_path.subrange(0, file_name_start(markdown_path)) + file_stem_of(markdown_path)
                    + ".html"@,
            )
        },
    };
    (from_stdin, default_title, html_path)
}

/// Decide where the Markdown text comes from, where the HTML file goes, and the default title.
pub fn output_plan(markdown_path: &str, output: Option<&str>) -> (plan: OutputPlan)
    ensures
        (plan.from_stdin, plan.default_title@, match plan.html_path {
            Some(path) => Some(path@),
            None => None,
        }) == output_plan_of(markdown_path@, opt_str_text(output)),
{
    let from_stdin = str_eq(markdown_path, "-");
    let input_file_stem = if from_stdin {
        ""
    } else {
        file_stem(markdown_path)
    };
    let default_title = match output {
        Some(path) => if !str_eq(path, "-") {
            file_stem(path)
        } else {
            input_file_stem
        },
        None => input_file_stem,
    };
    let html_path = match output {
        Some(path) => if str_eq(path, "-") {
            None
        } else {
            Some(path.to_owned())
        },
        None => if from_stdin {
            None
        } else {
            let v = chars_of(markdown_path);
            let start = file_name_index(&v);
            let mut html_path = markdown_path.substring_char(0, start).to_owned();
            html_path.append(input_file_stem);
            html_path.append(".html");
            Some(html_path)
        },
    };
    proof {
        reveal_strlit("");
    }
    OutputPlan { from_stdin, default_title: default_title.to_owned(), html_path }
}

/// The text of an optional string.
pub open spec fn opt_str_text(s: Option<&str>) -> Option<Seq<char>> {
    match s {
        Some(t) => Some(t@),
        None => None,
    }
}

} // verus!
