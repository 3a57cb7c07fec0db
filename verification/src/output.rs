use html_minifier::{HTMLMinifier, HTMLMinifierError};
use vstd::prelude::*;
use vstd::string::*;
use vstd::utf8::*;

verus! {

#[verifier::external_type_specification]
#[verifier::external_body]
pub struct ExHTMLMinifier(HTMLMinifier);

#[verifier::external_type_specification]
#[verifier::external_body]
pub struct ExHTMLMinifierError(HTMLMinifierError);

/// The pieces of text which a minifier has been given, in order.
pub uninterp spec fn minifier_input(minifier: HTMLMinifier) -> Seq<Seq<u8>>;

/// The bytes which a minifier made with the default options writes out of the given pieces of text, given in order.
pub uninterp spec fn minified_html(pieces: Seq<Seq<u8>>) -> Seq<u8>;

/// A minifier with the default options, which has not been given anything yet.
///
/// Calls `HTMLMinifier::new`.
#[verifier::external_body]
fn new_minifier() -> (minifier: HTMLMinifier)
    ensures
        minifier_input(minifier) == Seq::<Seq<u8>>::empty(),
{
    HTMLMinifier::new()
}

/// Give a piece of text to a minifier.
///
/// Calls `HTMLMinifier::digest`, which writes into the minifier's own `Vec<u8>`; the only error of **html-minifier**
/// comes from `finish`, which `digest` does not call, so it succeeds, and the minifier has then been given the piece
/// after all the earlier ones.
#[verifier::external_body]
fn minifier_digest(minifier: &mut HTMLMinifier, text: &[u8]) -> (res: Result<(), HTMLMinifierError>)
    ensures
        res is Ok,
        minifier_input(*final(minifier)) == minifier_input(*old(minifier)).push(text@),
{
    minifier.digest(text)
}

/// The bytes which a minifier has written so far.
///
/// Calls `HTMLMinifier::get_html` and copies what it gives: the minified form of all the pieces the minifier has been
/// given, which [`minified_html`] names.
#[verifier::external_body]
fn minifier_html(minifier: &HTMLMinifier) -> (html: Vec<u8>)
    ensures
        html@ == minified_html(minifier_input(*minifier)),
{
    minifier.get_html().to_vec()
}

/// The pieces of text one after the other.
pub open spec fn joined(pieces: Seq<Seq<u8>>) -> Seq<u8>
    decreases pieces.len(),
{
    if pieces.len() == 0 {
        Seq::empty()
    } else {
        joined(pieces.drop_last()) + pieces.last()
    }
}

/// The UTF-8 bytes of a text.
pub open spec fn utf8(text: Seq<char>) -> Seq<u8> {
    encode_utf8(text)
}

/// The output buffer, which either minifies what it is given or keeps it as it is.
pub struct Output {
    minifier: Option<HTMLMinifier>,
    buffer: Vec<u8>,
    pieces: Ghost<Seq<Seq<u8>>>,
}

impl Output {
    /// The minifier has been given exactly the pieces, or the buffer holds them one after the other.
    #[verifier::type_invariant]
    closed spec fn wf(self) -> bool {
        match self.minifier {
            Some(minifier) => minifier_input(minifier) == self.pieces@,
            None => self.buffer@ == joined(self.pieces@),
        }
    }

    /// The pieces of text which have been written, in order.
    pub closed spec fn pieces(&self) -> Seq<Seq<u8>> {
        self.pieces@
    }

    /// Whether the output is minified.
    pub closed spec fn minifies(&self) -> bool {
        self.minifier is Some
    }

    /// An empty output, with room for `capacity` bytes when it is not minified.
    pub fn new(minify: bool, capacity: usize) -> (output: Self)
        ensures
            output.minifies() == minify,
            output.pieces() == Seq::<Seq<u8>>::empty(),
    {
        if minify {
            Output { minifier: Some(new_minifier()), buffer: Vec::new(), pieces: Ghost(Seq::empty()) }
        } else {
            Output { minifier: None, buffer: Vec::with_capacity(capacity), pieces: Ghost(Seq::empty()) }
        }
    }

    /// Write a piece of text.
    pub fn digest(&mut self, text: &str) -> (res: Result<(), HTMLMinifierError>)
        ensures
            res is Ok,
            final(self).minifies() == old(self).minifies(),
            final(self).pieces() == old(self).pieces().push(utf8(text@)),
    {
        let bytes = text.as_bytes();
        let mut taken = Output::new(false, 0);
        std::mem::swap(self, &mut taken);
        proof {
            use_type_invariant(&taken);
        }
        let Output { minifier, mut buffer, pieces } = taken;
        let ghost written = pieces@.push(utf8(text@));
        match minifier {
            Some(mut minifier) => {
                let res = minifier_digest(&mut minifier, bytes);
                *self = Output { minifier: Some(minifier), buffer, pieces: Ghost(written) };
                res
            },
            None => {
                let ghost before = buffer@;
                buffer.extend_from_slice(bytes);
                proof {
                    assert(written.drop_last() =~= pieces@);
                    assert(buffer@ =~= before + bytes@);
                }
                *self = Output { minifier: None, buffer, pieces: Ghost(written) };
                Ok(())
            },
        }
    }

    /// Write a `<style>` element with the given stylesheet.
    pub fn style(&mut self, css: &str) -> (res: Result<(), HTMLMinifierError>)
        ensures
            wrote(*old(self), *final(self), res, style_pieces(css@)),
    {
        self.digest("<style>")?;
        self.digest(css)?;
        let res = self.digest("</style>");
        assert(self.pieces() =~= old(self).pieces() + style_pieces(css@));
        res
    }

    /// Write a `<style>` element whose stylesheet is made of the given parts, one after the other.
    pub fn style_parts(&mut self, parts: &[&str]) -> (res: Result<(), HTMLMinifierError>)
        ensures
            wrote(*old(self), *final(self), res, style_parts_pieces(parts@)),
    {
        self.digest("<style>")?;
        let mut i: usize = 0;
        while i < parts.len()
            invariant
                i <= parts@.len(),
                self.minifies() == old(self).minifies(),
                self.pieces() == old(self).pieces() + seq![utf8("<style>"@)] + part_pieces(
                    parts@.take(i as int),
                ),
            decreases parts@.len() - i,
        {
            self.digest(parts[i])?;
            assert(parts@.take(i + 1).drop_last() =~= parts@.take(i as int));
            i += 1;
        }
        assert(parts@.take(parts@.len() as int) =~= parts@);
        let res = self.digest("</style>");
        assert(self.pieces() =~= old(self).pieces() + style_parts_pieces(parts@));
        res
    }

    /// Write a `<script>` element with the given script.
    pub fn script(&mut self, js: &str) -> (res: Result<(), HTMLMinifierError>)
        ensures
            wrote(*old(self), *final(self), res, script_pieces(js@)),
    {
        self.digest("<script>")?;
        self.digest(js)?;
        let res = self.digest("</script>");
        assert(self.pieces() =~= old(self).pieces() + script_pieces(js@));
        res
    }

    /// Write a `<script>` element which loads the script at the given URL.
    pub fn external_script(&mut self, url: &str) -> (res: Result<(), HTMLMinifierError>)
        ensures
            wrote(*old(self), *final(self), res, external_script_pieces(url@)),
    {
        self.digest("<script src=\"")?;
        self.digest(url)?;
        let res = self.digest("\"></script>");
        assert(self.pieces() =~= old(self).pieces() + external_script_pieces(url@));
        res
    }

    /// Write a `<link>` element which loads the stylesheet at the given URL.
    pub fn stylesheet_link(&mut self, url: &str) -> (res: Result<(), HTMLMinifierError>)
        ensures
            wrote(*old(self), *final(self), res, stylesheet_link_pieces(url@)),
    {
        self.digest("<link rel=\"stylesheet\" href=\"")?;
        self.digest(url)?;
        let res = self.digest("\">");
        assert(self.pieces() =~= old(self).pieces() + stylesheet_link_pieces(url@));
        res
    }

    /// The bytes of the output: the minified form of the pieces, or the pieces one after the other.
    pub fn into_html(self) -> (html: Vec<u8>)
        ensures
            html@ == if self.minifies() {
                minified_html(self.pieces())
            } else {
                joined(self.pieces())
            },
    {
        proof {
            use_type_invariant(&self);
        }
        let Output { minifier, buffer, pieces } = self;
        match minifier {
            Some(minifier) => minifier_html(&minifier),
            None => buffer,
        }
    }
}

/// The pieces of a `<style>` element.
pub open spec fn style_pieces(css: Seq<char>) -> Seq<Seq<u8>> {
    seq![utf8("<style>"@), utf8(css), utf8("</style>"@)]
}

/// The pieces of the given texts.
pub open spec fn part_pieces(parts: Seq<&str>) -> Seq<Seq<u8>>
    decreases parts.len(),
{
    if parts.len() == 0 {
        Seq::empty()
    } else {
        part_pieces(parts.drop_last()).push(utf8(parts.last()@))
    }
}

/// The pieces of a `<style>` element whose stylesheet is made of the given parts.
pub open spec fn style_parts_pieces(parts: Seq<&str>) -> Seq<Seq<u8>> {
    seq![utf8("<style>"@)] + part_pieces(parts) + seq![utf8("</style>"@)]
}

/// The pieces of a `<script>` element.
pub open spec fn script_pieces(js: Seq<char>) -> Seq<Seq<u8>> {
    seq![utf8("<script>"@), utf8(js), utf8("</script>"@)]
}

/// The pieces of a `<script>` element which loads a script.
pub open spec fn external_script_pieces(url: Seq<char>) -> Seq<Seq<u8>> {
    seq![utf8("<script src=\""@), utf8(url), utf8("\"></script>"@)]
}

/// The pieces of a `<link>` element which loads a stylesheet.
pub open spec fn stylesheet_link_pieces(url: Seq<char>) -> Seq<Seq<u8>> {
    seq![utf8("<link rel=\"stylesheet\" href=\""@), utf8(url), utf8("\">"@)]
}

/// A write into an output went as expected: it succeeded, the output is minified as before, and the block was
/// written after what was there.
pub open spec fn wrote(
    before: Output,
    after: Output,
    res: Result<(), HTMLMinifierError>,
    block: Seq<Seq<u8>>,
) -> bool {
    &&& res is Ok
    &&& after.minifies() == before.minifies()
    &&& after.pieces() == before.pieces() + block
}

} // verus!
