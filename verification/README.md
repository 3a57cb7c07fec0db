Markdown to HTML Converter
==========================

Markdown to HTML Converter converts a Markdown file to a single HTML file with built-in CSS and JS. The library is
written in Verus, and its contracts state what it computes.

## Layout

* `src/` is the verified library.
  * `options.rs`: the conversion options, the themes and the math and Mermaid modes, with their names.
  * `markdown.rs`: the **comrak** settings which the options give, the parsing and rendering of a Markdown text,
    its syntax tree as plain values, the title of a document, its image URLs and the assets it needs.
  * `page.rs`: the page around the rendered Markdown: the `<html>` element, the title, the stylesheets and the
    scripts, and `convert`, which writes them in order.
  * `output.rs`: the output buffer, which either keeps what it is given or hands it to **html-minifier**.
  * `escape.rs`: the HTML escaping of **html-escape**.
  * `url.rs` and `images.rs`: the URLs of local images, percent-decoding, and `data` URLs.
  * `cli.rs`: the command-line arguments and the checks which **clap** cannot make.
  * `laws.rs`: the properties which hold across the functions: which assets a page gets, in which order a title is
    looked up, what a page which is not minified holds.
  * `resources.rs`: the built-in stylesheets and scripts. The library does not carry the builds of **highlight.js**,
    **MathJax**, **KaTeX** and **Mermaid**: in the `embedded` modes the built-in scripts load them from jsDelivr
    while the page is parsed, so such a page needs the network. A custom build given with `--highlight-js-path`,
    `--mathjax-js-path`, `--katex-js-path`, `--katex-css-path` or `--mermaid-js-path` is written into the page as it
    is, and then the page works offline.
* `app/` is the command-line program: it reads the files, reads the local images which `--embed-images` embeds,
  calls the library and writes the HTML file. The library renders the Markdown with raw HTML left out; under
  `--unsafe` the program renders it with **comrak** itself, raw HTML kept, and hands the rendering to the library.
* `tests/` holds the tests of the library.

## Title

The title of the output HTML file is looked up in this order.

1. The `-t` (`--title`) option.
2. The `title` entry of the YAML front matter of the Markdown file.
3. The first level-1 heading of the Markdown file.
4. The file name of the Markdown file, or of the output file when one is given with `-o` (`--output`).
5. `Untitled`.
