//! Markdown to HTML Converter: converts a Markdown text to a single HTML file with built-in CSS and JS.
//!
//! [`convert`] lays out the page around the HTML which **comrak** renders out of the Markdown text with the settings
//! that [`build_comrak_options`] gives: the title, the stylesheets, and the scripts which the document needs.

mod cli;
mod escape;
mod images;
mod laws;
mod markdown;
mod options;
mod output;
mod page;
mod resources;
mod text;
mod url;

pub use cli::{
    file_stem, highlight_languages, misplaced_math_asset, output_plan, OutputPlan, misplaced_mermaid_asset, parse_math_mode,
    parse_mermaid_mode, parse_theme, CLIArgs,
};
pub use html_minifier::HTMLMinifierError as ConvertError;
pub use images::{data_url, image_mime, local_image_url, path_image_mime, LocalImageUrl};
pub use laws::{
    a_code_block_has_one_use, a_drive_letter_is_no_scheme, an_asset_needs_its_mode,
    a_local_image_path_is_relative, only_relative_urls_refer_to_local_images, a_plain_page_holds_the_content, a_url_with_nothing_to_decode_is_kept,
    highlight_assets_only_for_highlighted_code, math_assets_only_for_math,
    math_mode_names_are_distinct, mermaid_assets_only_for_diagrams, mermaid_mode_names_are_distinct,
    theme_names_are_distinct, title_precedence, unused_modes_change_nothing, the_stylesheets_follow_the_theme,
    a_level_one_heading_gives_a_title, the_first_title_wins, a_title_comes_from_a_child,
    the_rendering_settings_follow_the_options, the_assets_follow_the_code_blocks, the_output_follows_the_paths,
};
pub use markdown::{
    build_comrak_options, document_title, front_matter_title, image_urls, is_highlighted, markdown_image_urls,
    node_text, rewrite_image_url, used_assets,
    DocNode, MarkdownSettings, NodeKind, UsedAssets,
};
pub use options::{
    ConvertOptions, HighlightLanguages, MathMode, MermaidMode, Theme, UnknownMathMode,
    UnknownMermaidMode, UnknownTheme,
};
pub use page::{convert, convert_rendered, html_element, output_capacity, page_title};
pub use resources::{APP_NAME, CARGO_PKG_VERSION};
pub use text::{eq_ignore_ascii_case, first_word_of, str_eq, trim};
pub use url::{has_scheme, hex_digit, hex_octet, percent_decode};
