use vstd::prelude::*;

verus! {

/// The languages, aliases included, which the built-in **highlight.js** registers.
pub const HIGHLIGHT_LANGUAGES: [&'static str; 109] = [
    "apache", "apacheconf",
    "bash", "sh", "zsh",
    "c", "h",
    "csharp", "cs", "c#",
    "cpp", "cc", "c++", "h++", "hpp", "hh", "hxx", "cxx",
    "css",
    "diff", "patch",
    "dockerfile", "docker",
    "go", "golang",
    "graphql", "gql",
    "xml", "html", "xhtml", "rss", "atom", "xjb", "xsd", "xsl", "plist", "wsf", "svg",
    "json", "jsonc",
    "java", "jsp",
    "javascript", "js", "jsx", "mjs", "cjs",
    "kotlin", "kt", "kts",
    "less",
    "lua",
    "makefile", "mk", "mak", "make",
    "markdown", "md", "mkdown", "mkd",
    "nginx", "nginxconf",
    "objectivec", "mm", "objc", "obj-c", "obj-c++", "objective-c++",
    "php",
    "php-template",
    "perl", "pl", "pm",
    "plaintext", "text", "txt",
    "python", "py", "gyp", "ipython",
    "python-repl", "pycon",
    "r",
    "ruby", "rb", "gemspec", "podspec", "thor", "irb",
    "rust", "rs",
    "scss",
    "sql",
    "shell", "console", "shellsession",
    "swift",
    "ini", "toml",
    "typescript", "ts", "tsx", "mts", "cts",
    "vbnet", "vb",
    "wasm",
    "yaml", "yml",
];


/// The name of this application.
pub const APP_NAME: &'static str = "Markdown to HTML Converter";

/// The version of this application.
pub const CARGO_PKG_VERSION: &'static str = "0.1.0";

/// The `<meta>` element which names the generator of an HTML file.
pub const GENERATOR_META: &'static str = "<meta name=\"generator\" content=\"Markdown to HTML Converter 0.1.0 by magiclen.org\">";

/// The title of a document which has none.
pub const FALLBACK_TITLE: &'static str = "Untitled";

/// The layout of the page.
pub const PAGE_CSS: &'static str = "html {\n  -webkit-text-size-adjust:100%;\n  text-size-adjust:100%;\n}\nbody {\n  box-sizing:border-box;\n  min-width:200px;\n  max-width:980px;\n  margin:0 auto;\n  padding:45px;\n}\n@media (max-width:767px) {\n  body {\n    padding:15px;\n  }\n}\n";

/// The colors of the page in the light theme.
pub const PAGE_CSS_LIGHT: &'static str = "html {\n  color-scheme:light;\n}\nbody {\n  background-color:#ffffff;\n}\n";

/// The colors of the page in the dark theme.
pub const PAGE_CSS_DARK: &'static str = "html {\n  color-scheme:dark;\n}\nbody {\n  background-color:#0d1117;\n}\n";

/// The style of the Markdown content, which follows the color scheme of the system.
pub const MARKDOWN_CSS: &'static str = ".markdown-body {\n  --fg:#1f2328;\n  --bg:#ffffff;\n  --muted:#59636e;\n  --border:#d1d9e0;\n  --code-bg:#818b981f;\n  --link:#0969da;\n  color:var(--fg);\n  background-color:var(--bg);\n  font-family:-apple-system,BlinkMacSystemFont,\"Segoe UI\",\"Noto Sans\",Helvetica,Arial,sans-serif;\n  font-size:16px;\n  line-height:1.5;\n  word-wrap:break-word;\n}\n@media (prefers-color-scheme:dark) {\n  .markdown-body {\n    --fg:#f0f6fc;\n    --bg:#0d1117;\n    --muted:#9198a1;\n    --border:#3d444d;\n    --code-bg:#656c7633;\n    --link:#4493f8;\n  }\n}\n.markdown-body a {\n  color:var(--link);\n  text-decoration:none;\n}\n.markdown-body a:hover {\n  text-decoration:underline;\n}\n.markdown-body h1,.markdown-body h2 {\n  padding-bottom:.3em;\n  border-bottom:1px solid var(--border);\n}\n.markdown-body h1,.markdown-body h2,.markdown-body h3,.markdown-body h4,.markdown-body h5,.markdown-body h6 {\n  margin-top:24px;\n  margin-bottom:16px;\n  font-weight:600;\n  line-height:1.25;\n}\n.markdown-body h1 {\n  font-size:2em;\n}\n.markdown-body h2 {\n  font-size:1.5em;\n}\n.markdown-body h3 {\n  font-size:1.25em;\n}\n.markdown-body p,.markdown-body blockquote,.markdown-body ul,.markdown-body ol,.markdown-body dl,.markdown-body table,.markdown-body pre {\n  margin-top:0;\n  margin-bottom:16px;\n}\n.markdown-body blockquote {\n  padding:0 1em;\n  color:var(--muted);\n  border-left:.25em solid var(--border);\n}\n.markdown-body code {\n  padding:.2em .4em;\n  font-size:85%;\n  background-color:var(--code-bg);\n  border-radius:6px;\n  font-family:ui-monospace,SFMono-Regular,Menlo,Consolas,monospace;\n}\n.markdown-body pre {\n  padding:16px;\n  overflow:auto;\n  font-size:85%;\n  line-height:1.45;\n  background-color:var(--code-bg);\n  border-radius:6px;\n}\n.markdown-body pre code {\n  padding:0;\n  background:transparent;\n}\n.markdown-body table {\n  border-spacing:0;\n  border-collapse:collapse;\n  display:block;\n  width:max-content;\n  max-width:100%;\n  overflow:auto;\n}\n.markdown-body td,.markdown-body th {\n  padding:6px 13px;\n  border:1px solid var(--border);\n}\n.markdown-body img {\n  max-width:100%;\n  box-sizing:content-box;\n}\n.markdown-body hr {\n  height:.25em;\n  padding:0;\n  margin:24px 0;\n  background-color:var(--border);\n  border:0;\n}\n.markdown-body .task-list-item {\n  list-style-type:none;\n}\n.markdown-body .task-list-item input {\n  margin:0 .2em .25em -1.4em;\n  vertical-align:middle;\n}\n.markdown-body .markdown-alert {\n  padding:.5rem 1rem;\n  margin-bottom:16px;\n  border-left:.25em solid var(--border);\n}\n.markdown-body .markdown-alert-title {\n  display:flex;\n  font-weight:500;\n  align-items:center;\n  line-height:1;\n}\n.markdown-body .markdown-alert-note {\n  border-left-color:#0969da;\n}\n.markdown-body .markdown-alert-tip {\n  border-left-color:#1a7f37;\n}\n.markdown-body .markdown-alert-important {\n  border-left-color:#8250df;\n}\n.markdown-body .markdown-alert-warning {\n  border-left-color:#9a6700;\n}\n.markdown-body .markdown-alert-caution {\n  border-left-color:#cf222e;\n}\n.markdown-body .footnotes {\n  font-size:12px;\n  color:var(--muted);\n  border-top:1px solid var(--border);\n}\n";

/// The style of the Markdown content in the light theme.
pub const MARKDOWN_CSS_LIGHT: &'static str = ".markdown-body {\n  --fg:#1f2328;\n  --bg:#ffffff;\n  --muted:#59636e;\n  --border:#d1d9e0;\n  --code-bg:#818b981f;\n  --link:#0969da;\n  color:var(--fg);\n  background-color:var(--bg);\n  font-family:-apple-system,BlinkMacSystemFont,\"Segoe UI\",\"Noto Sans\",Helvetica,Arial,sans-serif;\n  font-size:16px;\n  line-height:1.5;\n  word-wrap:break-word;\n}\n";

/// The style of the Markdown content in the dark theme.
pub const MARKDOWN_CSS_DARK: &'static str = ".markdown-body {\n  --fg:#f0f6fc;\n  --bg:#0d1117;\n  --muted:#9198a1;\n  --border:#3d444d;\n  --code-bg:#656c7633;\n  --link:#4493f8;\n  color:var(--fg);\n  background-color:var(--bg);\n  font-family:-apple-system,BlinkMacSystemFont,\"Segoe UI\",\"Noto Sans\",Helvetica,Arial,sans-serif;\n  font-size:16px;\n  line-height:1.5;\n  word-wrap:break-word;\n}\n";

/// The CJK fonts of the text.
pub const FONT_CJK_CSS: &'static str = "@import url(\"https://fonts.googleapis.com/css2?family=Noto+Sans+TC:wght@400;\n700&family=Noto+Sans+SC:wght@400;\n700&family=Noto+Sans+JP:wght@400;\n700&family=Noto+Sans+KR:wght@400;\n700&display=swap\");\n.markdown-body {\n  font-family:-apple-system,BlinkMacSystemFont,\"Segoe UI\",\"Noto Sans\",\"Noto Sans TC\",\"Noto Sans SC\",\"Noto Sans JP\",\"Noto Sans KR\",Helvetica,Arial,sans-serif;\n}\n";

/// The CJK fonts of the code.
pub const FONT_CJK_MONO_CSS: &'static str = "@import url(\"https://fonts.googleapis.com/css2?family=Noto+Sans+Mono:wght@400;\n700&display=swap\");\n.markdown-body code,.markdown-body pre {\n  font-family:ui-monospace,SFMono-Regular,Menlo,Consolas,\"Noto Sans Mono\",\"Noto Sans TC\",\"Noto Sans SC\",\"Noto Sans JP\",\"Noto Sans KR\",monospace;\n}\n";

/// The **highlight.js** theme for the light color scheme.
pub const HIGHLIGHT_CSS_LIGHT: &'static str = "pre code.hljs{display:block;overflow-x:auto;padding:1em}code.hljs{padding:3px 5px}.hljs{color:#24292e;background:#fff}.hljs-doctag,.hljs-keyword,.hljs-meta .hljs-keyword,.hljs-template-tag,.hljs-template-variable,.hljs-type,.hljs-variable.language_{color:#d73a49}.hljs-title,.hljs-title.class_,.hljs-title.function_{color:#6f42c1}.hljs-attr,.hljs-attribute,.hljs-literal,.hljs-meta,.hljs-number,.hljs-operator,.hljs-selector-attr,.hljs-selector-class,.hljs-selector-id,.hljs-variable{color:#005cc5}.hljs-meta .hljs-string,.hljs-regexp,.hljs-string{color:#032f62}.hljs-built_in,.hljs-symbol{color:#e36209}.hljs-code,.hljs-comment,.hljs-formula{color:#6a737d}.hljs-name,.hljs-quote,.hljs-selector-pseudo,.hljs-selector-tag{color:#22863a}.hljs-subst{color:#24292e}.hljs-section{color:#005cc5;font-weight:700}.hljs-bullet{color:#735c0f}.hljs-emphasis{color:#24292e;font-style:italic}.hljs-strong{color:#24292e;font-weight:700}.hljs-addition{color:#22863a;background-color:#f0fff4}.hljs-deletion{color:#b31d28;background-color:#ffeef0}";

/// The **highlight.js** theme for the dark color scheme.
pub const HIGHLIGHT_CSS_DARK: &'static str = "pre code.hljs{display:block;overflow-x:auto;padding:1em}code.hljs{padding:3px 5px}.hljs{color:#c9d1d9;background:#0d1117}.hljs-doctag,.hljs-keyword,.hljs-meta .hljs-keyword,.hljs-template-tag,.hljs-template-variable,.hljs-type,.hljs-variable.language_{color:#ff7b72}.hljs-title,.hljs-title.class_,.hljs-title.function_{color:#d2a8ff}.hljs-attr,.hljs-attribute,.hljs-literal,.hljs-meta,.hljs-number,.hljs-operator,.hljs-selector-attr,.hljs-selector-class,.hljs-selector-id,.hljs-variable{color:#79c0ff}.hljs-meta .hljs-string,.hljs-regexp,.hljs-string{color:#a5d6ff}.hljs-built_in,.hljs-symbol{color:#ffa657}.hljs-code,.hljs-comment,.hljs-formula{color:#8b949e}.hljs-name,.hljs-quote,.hljs-selector-pseudo,.hljs-selector-tag{color:#7ee787}.hljs-subst{color:#c9d1d9}.hljs-section{color:#1f6feb;font-weight:700}.hljs-bullet{color:#f2cc60}.hljs-emphasis{color:#c9d1d9;font-style:italic}.hljs-strong{color:#c9d1d9;font-weight:700}.hljs-addition{color:#aff5b4;background-color:#033a16}.hljs-deletion{color:#ffdcd7;background-color:#67060c}";

/// The built-in **highlight.js** script. It does not carry **highlight.js**: it loads the build which jsDelivr serves,
/// while the page is being parsed, so the page needs the network.
pub const HIGHLIGHT_JS: &'static str = "document.write('<script src=\"https://cdn.jsdelivr.net/npm/@highlightjs/cdn-assets@11.11.1/highlight.min.js\"><\\/script>');";

/// The script which highlights the code blocks.
pub const HIGHLIGHT_CODE_JS: &'static str = "(function () {\n    if (!window.hljs) {\n        return;\n    }\n\n    hljs.configure({ ignoreUnescapedHTML: true });\n\n    document.querySelectorAll(\"pre code[class*='language-']\").forEach(function (element) {\n        hljs.highlightElement(element);\n    });\n})();\n";

/// The built-in **MathJax** script. It does not carry **MathJax**: it loads the bundle which jsDelivr serves, while
/// the page is being parsed, so the page needs the network.
pub const MATH_JAX_JS: &'static str = "document.write('<script src=\"https://cdn.jsdelivr.net/npm/mathjax@4.1.3/tex-mml-svg.js\"><\\/script>');";

/// The configuration of **MathJax**, which renders the math that **comrak** marks.
pub const MATH_JAX_CONFIG_JS: &'static str = "window.MathJax = {\n    tex: {\n        inlineMath: [['\\\\(', '\\\\)']],\n        displayMath: [['\\\\[', '\\\\]']],\n    },\n    startup: {\n        pageReady: function () {\n            document.querySelectorAll('[data-math-style]').forEach(function (element) {\n                var display = element.getAttribute('data-math-style') === 'display';\n\n                element.textContent = display\n                    ? '\\\\[' + element.textContent + '\\\\]'\n                    : '\\\\(' + element.textContent + '\\\\)';\n            });\n\n            return MathJax.startup.defaultPageReady();\n        },\n    },\n};\n";

/// The built-in **KaTeX** stylesheet. It does not carry the stylesheet or its fonts: it imports the ones which
/// jsDelivr serves, so the page needs the network.
pub const KATEX_CSS: &'static str = "@import url(\"https://cdn.jsdelivr.net/npm/katex@0.18.1/dist/katex.min.css\");";

/// The built-in **KaTeX** script. It does not carry **KaTeX**: it loads the build which jsDelivr serves, while the
/// page is being parsed, so the page needs the network.
pub const KATEX_JS: &'static str = "document.write('<script src=\"https://cdn.jsdelivr.net/npm/katex@0.18.1/dist/katex.min.js\"><\\/script>');";

/// The script which renders the math that **comrak** marks with **KaTeX**, the same math which a **MathJax** configuration would take.
pub const KATEX_RENDER_JS: &'static str = "(function () {\n    // The math marks are the same ones which a MathJax configuration would take, so MathJax is left alone when it is there.\n    if (!window.katex || window.MathJax) {\n        return;\n    }\n\n    document.querySelectorAll('[data-math-style]').forEach(function (element) {\n        try {\n            katex.render(element.textContent, element, {\n                displayMode: element.getAttribute('data-math-style') === 'display',\n                throwOnError: false,\n            });\n        } catch (error) {\n            console.error(error);\n        }\n    });\n})();\n";

/// The URL of **MathJax** on the CDN.
pub const MATH_JAX_CDN_JS: &'static str = "https://cdn.jsdelivr.net/npm/mathjax@4.1.3/tex-mml-svg.js";

/// The URL of the stylesheet of **KaTeX** on the CDN.
pub const KATEX_CDN_CSS: &'static str = "https://cdn.jsdelivr.net/npm/katex@0.18.1/dist/katex.min.css";

/// The URL of **KaTeX** on the CDN.
pub const KATEX_CDN_JS: &'static str = "https://cdn.jsdelivr.net/npm/katex@0.18.1/dist/katex.min.js";

/// The built-in **Mermaid** script. It does not carry **Mermaid**: it loads the bundle which jsDelivr serves, while
/// the page is being parsed, so the page needs the network.
pub const MERMAID_JS: &'static str = "document.write('<script src=\"https://cdn.jsdelivr.net/npm/mermaid@11.12.1/dist/mermaid.min.js\"><\\/script>');";

/// The URL of **Mermaid** on the CDN.
pub const MERMAID_CDN_JS: &'static str = "https://cdn.jsdelivr.net/npm/mermaid@11.12.1/dist/mermaid.min.js";

/// The script which turns the ```` ```mermaid ```` blocks into diagrams.
pub const MERMAID_RENDER_JS: &'static str = "(function () {\n    if (!window.mermaid) {\n        return;\n    }\n\n    var nodes = [];\n\n    document.querySelectorAll('pre code.language-mermaid').forEach(function (code) {\n        var diagram = document.createElement('div');\n\n        diagram.className = 'mermaid';\n        diagram.textContent = code.textContent;\n        code.parentNode.replaceWith(diagram);\n        nodes.push(diagram);\n    });\n\n    var root = document.documentElement;\n    var dark = root.getAttribute('data-theme') === 'dark'\n        || (!root.hasAttribute('data-theme') && window.matchMedia('(prefers-color-scheme: dark)').matches);\n\n    mermaid.initialize({ startOnLoad: false, theme: dark ? 'dark' : 'default' });\n    mermaid.run({ nodes: nodes });\n})();\n";

} // verus!
