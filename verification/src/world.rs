use vstd::prelude::*;

use typst::Library;
use typst::text::{Font, FontBook, FontInfo};

use crate::context::{resolve_with_context, resolved_text};
use crate::dates::{today, valid_date, Date};
use crate::document::Document;
use crate::errors::WorldError;
use crate::fonts::{book_infos, Fonts};
use crate::ids::{FileIdentity, IdView};
use crate::store::{FileStore, GraphBuffer};

verus! {

#[verifier::external_type_specification]
#[verifier::external_body]
pub struct ExLibrary(Library);

/// Relies on typst::LibraryExt::default: the engine's standard library
/// definitions, constructed once and read-only thereafter.
#[verifier::external_body]
fn library_default() -> (r: Library) {
    <Library as typst::LibraryExt>::default()
}

/// The identity of the seed document every world starts with.
pub open spec fn readme_id() -> IdView {
    IdView { package: None, path: "/README.typ"@ }
}

/// The identity designated as the global context.
pub open spec fn global_id() -> IdView {
    IdView { package: None, path: "/GLOBAL.typ"@ }
}

/// The resource-provider adapter the external engine compiles against.
///
/// It owns the virtual file store, the cursor for what is on screen, the
/// designated global-context identity, the font catalog and the engine's
/// standard library, and answers every capability of the provider
/// contract: main-entry resolution, per-file source resolution with
/// context injection, binary-asset resolution (unsupported), font lookup
/// by index, and current-date resolution.
pub struct GraphWorld {
    files: FileStore,
    /// The file currently on the screen.
    current_buffer: GraphBuffer,
    /// The file that gets implicitly imported in all other files.
    global_context: FileIdentity,
    fonts: Fonts,
    typst_std_lib: Library,
}

impl GraphWorld {
    /// The store's contents: each identity mapped to its stored text.
    pub closed spec fn spec_files(self) -> Map<IdView, Seq<char>> {
        self.files@
    }

    /// The identity of the compilation root (the open buffer's file).
    pub closed spec fn spec_main(self) -> IdView {
        self.current_buffer.note_id@
    }

    /// The page the cursor selects.
    pub closed spec fn spec_page(self) -> usize {
        self.current_buffer.page
    }

    /// The designated global-context identity.
    pub closed spec fn spec_global(self) -> IdView {
        self.global_context@
    }

    /// The catalog's metadata entries.
    pub closed spec fn spec_font_infos(self) -> Seq<FontInfo> {
        self.fonts.spec_infos()
    }

    /// The catalog's font objects, in index order.
    pub closed spec fn spec_font_list(self) -> Seq<Font> {
        self.fonts.spec_fonts()
    }

    /// The standard-library object handed to the engine.
    pub closed spec fn spec_library(self) -> Library {
        self.typst_std_lib
    }

    /// Creates the world: a store seeded with one readme note, the
    /// cursor on it at page 0, the fixed global-context identity, the
    /// embedded font catalog and the standard library.
    pub fn new() -> (r: GraphWorld)
        ensures
            r.spec_files() == Map::<IdView, Seq<char>>::empty().insert(
                readme_id(),
                "Hello world."@,
            ),
            r.spec_main() == readme_id(),
            r.spec_page() == 0,
            r.spec_global() == global_id(),
            r.spec_font_infos().len() == r.spec_font_list().len(),
    {
        let fonts = Fonts::get_default_fonts();
        let current_note = FileIdentity::from_path("/README.typ");
        let mut files = FileStore::new();
        files.insert_or_replace(current_note.clone(), "Hello world.");
        let current_buffer = GraphBuffer { page: 0, note_id: current_note };
        GraphWorld {
            files,
            current_buffer,
            global_context: FileIdentity::from_path("/GLOBAL.typ"),
            fonts,
            typst_std_lib: library_default(),
        }
    }

    /// Upsert: overwrites the text stored under `id`, creating the
    /// document when the identity is absent. There is no error
    /// condition, and nothing else of the world changes.
    pub fn replace_file(&mut self, id: FileIdentity, content: &str)
        ensures
            final(self).spec_files() == old(self).spec_files().insert(id@, content@),
            final(self).spec_main() == old(self).spec_main(),
            final(self).spec_page() == old(self).spec_page(),
            final(self).spec_global() == old(self).spec_global(),
            final(self).spec_font_infos() == old(self).spec_font_infos(),
            final(self).spec_font_list() == old(self).spec_font_list(),
            final(self).spec_library() == old(self).spec_library(),
    {
        self.files.insert_or_replace(id, content);
    }

    /// Reads the document stored under `id` back, or `None` for an
    /// unknown identity.
    pub fn get(&self, id: &FileIdentity) -> (r: Option<&Document>)
        ensures
            r is Some <==> self.spec_files().contains_key(id@),
            r matches Some(d) ==> d@.id == id@ && d@.text == self.spec_files()[id@],
    {
        self.files.get(id)
    }

    /// A point-in-time snapshot of every identity in the store: each
    /// listed identity is present, every present identity is listed, and
    /// no identity is listed twice.
    pub fn list_files(&self) -> (r: Vec<FileIdentity>)
        ensures
            forall|k: int|
                0 <= k < r@.len() ==> self.spec_files().contains_key((#[trigger] r@[k])@),
            forall|id: IdView| #[trigger]
                self.spec_files().contains_key(id) ==> exists|k: int|
                    0 <= k < r@.len() && (#[trigger] r@[k])@ == id,
            forall|k1: int, k2: int|
                0 <= k1 < k2 < r@.len() ==> (#[trigger] r@[k1])@ != (#[trigger] r@[k2])@,
    {
        self.files.list_ids()
    }

    /// Opens `id`: validates existence and moves the cursor there, reset
    /// to page 0. An unknown identity is rejected with `NotFound` and
    /// leaves the cursor unchanged.
    pub fn open_file(&mut self, id: &FileIdentity) -> (r: Result<(), WorldError>)
        ensures
            r is Ok <==> old(self).spec_files().contains_key(id@),
            r is Ok ==> final(self).spec_main() == id@ && final(self).spec_page() == 0,
            r is Err ==> final(self).spec_main() == old(self).spec_main()
                && final(self).spec_page() == old(self).spec_page(),
            r matches Err(e) ==> e is NotFound,
            final(self).spec_files() == old(self).spec_files(),
            final(self).spec_global() == old(self).spec_global(),
            final(self).spec_font_infos() == old(self).spec_font_infos(),
            final(self).spec_font_list() == old(self).spec_font_list(),
            final(self).spec_library() == old(self).spec_library(),
    {
        match self.files.open(id) {
            Result::Ok(buffer) => {
                self.current_buffer = buffer;
                Result::Ok(())
            },
            Result::Err(e) => Result::Err(e),
        }
    }

    /// The standard library, read-only.
    pub fn library(&self) -> (r: &Library)
        ensures
            *r == self.spec_library(),
    {
        &self.typst_std_lib
    }

    /// The catalog's aggregate font metadata, read-only.
    pub fn book(&self) -> (r: &FontBook)
        ensures
            book_infos(*r) == self.spec_font_infos(),
    {
        self.fonts.book()
    }

    /// The identity currently designated as the compilation root.
    pub fn main(&self) -> (r: &FileIdentity)
        ensures
            r@ == self.spec_main(),
    {
        &self.current_buffer.note_id
    }

    /// The page the cursor currently selects.
    pub fn current_page(&self) -> (r: usize)
        ensures
            r == self.spec_page(),
    {
        self.current_buffer.page
    }

    /// The designated global-context identity.
    pub fn global_context(&self) -> (r: &FileIdentity)
        ensures
            r@ == self.spec_global(),
    {
        &self.global_context
    }

    /// Source resolution: the composed, ephemeral document for `id`,
    /// with the global context woven in. Unknown identities propagate
    /// `NotFound`; the store is never mutated.
    pub fn source(&self, id: &FileIdentity) -> (r: Result<Document, WorldError>)
        ensures
            r is Ok <==> self.spec_files().contains_key(id@),
            r matches Ok(d) ==> d@.id == id@ && d@.text == resolved_text(
                self.spec_files(),
                self.spec_global(),
                id@,
            ),
            r matches Err(e) ==> e is NotFound,
    {
        resolve_with_context(&self.files, &self.global_context, id)
    }

    /// Binary asset resolution: a documented capability gap. Every
    /// request reports `UnsupportedAsset`.
    pub fn file(&self, _id: &FileIdentity) -> (r: Result<Vec<u8>, WorldError>)
        ensures
            r == Result::<Vec<u8>, WorldError>::Err(WorldError::UnsupportedAsset),
    {
        Result::Err(WorldError::UnsupportedAsset)
    }

    /// How many fonts the catalog holds.
    pub fn font_count(&self) -> (r: usize)
        ensures
            r == self.spec_font_list().len(),
    {
        self.fonts.len()
    }

    /// Font-by-index: the catalog font at `index`, or absent when the
    /// index is out of bounds.
    pub fn font(&self, index: usize) -> (r: Option<Font>)
        ensures
            index < self.spec_font_list().len() ==> r == Some(
                self.spec_font_list()[index as int],
            ),
            index >= self.spec_font_list().len() ==> r is None,
    {
        self.fonts.font(index)
    }

    /// Current-date resolution: the local calendar date, or the date of
    /// the current UTC time shifted by the given number of hours.
    pub fn today(&self, offset: Option<i64>) -> (r: Option<Date>)
        ensures
            r matches Some(d) ==> valid_date(d),
            offset is None ==> r is Some,
    {
        today(offset)
    }
}

} // verus!
