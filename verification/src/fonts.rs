use vstd::prelude::*;

use typst::foundations::Bytes;
use typst::text::{Font, FontBook, FontInfo};

verus! {

#[verifier::external_type_specification]
#[verifier::external_body]
pub struct ExBytes(Bytes);

#[verifier::external_type_specification]
#[verifier::external_body]
pub struct ExFont(Font);

#[verifier::external_type_specification]
#[verifier::external_body]
pub struct ExFontInfo(FontInfo);

#[verifier::external_type_specification]
#[verifier::external_body]
pub struct ExFontBook(FontBook);

/// What a font book holds: its metadata entries, in insertion order.
pub uninterp spec fn book_infos(book: FontBook) -> Seq<FontInfo>;

/// The descriptive metadata of a font, as `Font::info` hands it out.
pub uninterp spec fn info_of(font: Font) -> FontInfo;

/// Relies on typst_assets::fonts: the embedded font assets, one raw
/// buffer per asset.
#[verifier::external_body]
fn embedded_font_data() -> (r: Vec<&'static [u8]>) {
    typst_assets::fonts().collect()
}

/// Relies on typst::foundations::Bytes::new: wraps raw data in a
/// reference-counted buffer.
#[verifier::external_body]
fn bytes_from_static(data: &'static [u8]) -> (r: Bytes) {
    Bytes::new(data)
}

/// Relies on typst::text::Font::iter: decodes every font found in the
/// buffer (an empty collection when the data holds none).
#[verifier::external_body]
fn fonts_in(data: Bytes) -> (r: Vec<Font>) {
    Font::iter(data).collect()
}

/// Relies on typst::text::FontBook::new: a book with no entries.
#[verifier::external_body]
fn book_new() -> (r: FontBook)
    ensures
        book_infos(r) == Seq::<FontInfo>::empty(),
{
    FontBook::new()
}

/// Relies on typst::text::FontBook::push: appends one metadata entry at
/// the next index.
#[verifier::external_body]
fn book_push(book: &mut FontBook, info: FontInfo)
    ensures
        book_infos(*final(book)) == book_infos(*old(book)).push(info),
{
    book.push(info)
}

/// Relies on typst::text::Font::info: the font's descriptive metadata,
/// fixed at decode time.
#[verifier::external_body]
fn font_info(font: &Font) -> (r: &FontInfo)
    ensures
        *r == info_of(*font),
{
    font.info()
}

/// Relies on FontInfo's Clone: the copy equals the original.
#[verifier::external_body]
fn clone_font_info(info: &FontInfo) -> (r: FontInfo)
    ensures
        r == *info,
{
    info.clone()
}

/// Relies on Font's Clone: a cheap reference-counted copy of the same
/// font object.
#[verifier::external_body]
fn clone_font(font: &Font) -> (r: Font)
    ensures
        r == *font,
{
    font.clone()
}

/// The font catalog: aggregate lookup metadata paired with an ordered,
/// index-stable list of font objects.
///
/// Entry `i` of the metadata describes exactly the font at position `i`
/// of the list, and the catalog is read-only after construction, so the
/// indices the engine caches stay valid for the process lifetime.
pub struct Fonts {
    meta: FontBook,
    data: Vec<Font>,
}

impl Fonts {
    #[verifier::type_invariant]
    spec fn paired(self) -> bool {
        &&& book_infos(self.meta).len() == self.data@.len()
        &&& forall|i: int|
            0 <= i < self.data@.len() ==> book_infos(self.meta)[i] == info_of(
                #[trigger] self.data@[i],
            )
    }

    /// The metadata entries of the catalog's book.
    pub closed spec fn spec_infos(self) -> Seq<FontInfo> {
        book_infos(self.meta)
    }

    /// The catalog's font objects, in index order.
    pub closed spec fn spec_fonts(self) -> Seq<Font> {
        self.data@
    }

    /// Loads every embedded font asset once: each decoded font's metadata
    /// is appended to the book and the font object to the list at the
    /// same position.
    /// Law (catalog pairing invariant): the metadata entry count equals
    /// the font list length, and entry `i` is the metadata of the font
    /// at position `i`. The catalog is immutable afterwards, so this
    /// holds for the process lifetime.
    pub fn get_default_fonts() -> (r: Fonts)
        ensures
            r.spec_infos().len() == r.spec_fonts().len(),
            forall|i: int|
                0 <= i < r.spec_fonts().len() ==> r.spec_infos()[i] == info_of(
                    #[trigger] r.spec_fonts()[i],
                ),
    {
        let buffers = embedded_font_data();
        let mut meta = book_new();
        let mut data: Vec<Font> = Vec::new();
        let buffer_count = buffers.len();
        let mut b: usize = 0;
        while b < buffer_count
            invariant
                book_infos(meta).len() == data@.len(),
                forall|i: int|
                    0 <= i < data@.len() ==> book_infos(meta)[i] == info_of(
                        #[trigger] data@[i],
                    ),
                buffer_count == buffers@.len(),
                b <= buffer_count,
            decreases buffer_count - b,
        {
            let buffer = bytes_from_static(buffers[b]);
            let fonts = fonts_in(buffer);
            let font_count = fonts.len();
            let mut f: usize = 0;
            while f < font_count
                invariant
                    book_infos(meta).len() == data@.len(),
                    forall|i: int|
                        0 <= i < data@.len() ==> book_infos(meta)[i] == info_of(
                            #[trigger] data@[i],
                        ),
                    font_count == fonts@.len(),
                    f <= font_count,
                decreases font_count - f,
            {
                let font = clone_font(&fonts[f]);
                let info = clone_font_info(font_info(&font));
                book_push(&mut meta, info);
                data.push(font);
                f += 1;
            }
            b += 1;
        }
        Fonts { meta, data }
    }

    /// The aggregate metadata, read-only.
    pub fn book(&self) -> (r: &FontBook)
        ensures
            book_infos(*r) == self.spec_infos(),
    {
        &self.meta
    }

    /// How many fonts the catalog holds.
    pub fn len(&self) -> (r: usize)
        ensures
            r == self.spec_fonts().len(),
    {
        self.data.len()
    }

    /// The font at `index`, or `None` when the index is out of bounds.
    pub fn font(&self, index: usize) -> (r: Option<Font>)
        ensures
            index < self.spec_fonts().len() ==> r == Some(self.spec_fonts()[index as int]),
            index >= self.spec_fonts().len() ==> r is None,
    {
        proof {
            use_type_invariant(self);
        }
        if index < self.data.len() {
            Option::Some(clone_font(&self.data[index]))
        } else {
            Option::None
        }
    }
}

} // verus!
