use notegraph::errors::WorldError;
use notegraph::ui::{Action, Icon};
use notegraph::ids::FileIdentity;
use notegraph::render::{render_compiled, render_paged, select_page};
use notegraph::world::GraphWorld;

use chrono::Datelike;
use typst::diag::{FileError, FileResult, Warned};
use typst::foundations::{Bytes, Datetime, Duration};
use typst::syntax::{FileId, RootedPath, Source, VirtualPath, VirtualRoot};
use typst::text::{Font, FontBook};
use typst::utils::LazyHash;
use typst::{Library, LibraryExt, World};
use typst_layout::PagedDocument;

/// Interns a project-rooted virtual path as an engine file id.
fn file_id_for(path: &str) -> FileId {
    let vpath = VirtualPath::new(path).expect("a store path is a valid virtual path");
    FileId::new(RootedPath::new(VirtualRoot::Project, vpath))
}

/// A thin engine-facing shell around the verified world, as the
/// application would build it.
struct TestWorld {
    inner: GraphWorld,
    library: LazyHash<Library>,
    book: LazyHash<FontBook>,
}

impl TestWorld {
    fn new() -> TestWorld {
        let inner = GraphWorld::new();
        let library = LazyHash::new(<Library as LibraryExt>::default());
        let book = LazyHash::new(inner.book().clone());
        TestWorld { inner, library, book }
    }

    fn to_identity(id: FileId) -> FileIdentity {
        FileIdentity::from_path(id.vpath().get_with_slash())
    }
}

impl World for TestWorld {
    fn library(&self) -> &LazyHash<Library> {
        &self.library
    }

    fn book(&self) -> &LazyHash<FontBook> {
        &self.book
    }

    fn main(&self) -> FileId {
        file_id_for(self.inner.main().path())
    }

    fn source(&self, id: FileId) -> FileResult<Source> {
        let identity = TestWorld::to_identity(id);
        match self.inner.source(&identity) {
            Ok(doc) => Ok(Source::new(id, doc.text().clone())),
            Err(_) => Err(FileError::AccessDenied),
        }
    }

    fn file(&self, _id: FileId) -> FileResult<Bytes> {
        Err(FileError::Other(None))
    }

    fn font(&self, index: usize) -> Option<Font> {
        self.inner.font(index)
    }

    fn today(&self, offset: Option<Duration>) -> Option<Datetime> {
        let hours = offset.map(|d| d.hours() as i64);
        let date = self.inner.today(hours)?;
        Datetime::from_ymd(date.year, date.month, date.day)
    }
}

#[test]
fn select_page_clamps_to_last() {
    assert_eq!(select_page(3, 0).unwrap(), 0);
    assert_eq!(select_page(3, 2).unwrap(), 2);
    assert_eq!(select_page(3, 3).unwrap(), 2);
    assert_eq!(select_page(3, 99).unwrap(), 2);
    assert_eq!(select_page(1, 0).unwrap(), 0);
}

#[test]
fn select_page_with_no_pages_is_out_of_range() {
    for requested in [0usize, 1, 17] {
        let err = select_page(0, requested).unwrap_err();
        assert!(matches!(err, WorldError::PageOutOfRange));
    }
}

#[test]
fn render_zero_page_document_is_out_of_range() {
    let empty = PagedDocument::new(Default::default(), Default::default());
    let err = render_paged(&empty, 0).unwrap_err();
    assert!(matches!(err, WorldError::PageOutOfRange));
}

#[test]
fn render_compiled_carries_diagnostics_through() {
    let diagnostics = vec!["boom".to_string(), "bang".to_string()];
    let outcome: Result<PagedDocument, Vec<String>> = Err(diagnostics.clone());
    match render_compiled(outcome, 0) {
        Err(WorldError::CompilationFailure(carried)) => assert_eq!(carried, diagnostics),
        other => panic!("expected a compilation failure, got {:?}", other.is_ok()),
    }
}

#[test]
fn compile_and_render_clamps_out_of_range_requests() {
    let world = TestWorld::new();
    let Warned { output, warnings: _ } = typst::compile::<PagedDocument>(&world);
    let document = output.expect("the seed note must compile");
    let count = document.pages().len();
    assert!(count >= 1);

    let first = render_paged(&document, 0).expect("an in-range page must render");
    assert!(first.starts_with("<svg"));

    let last = render_paged(&document, count - 1).unwrap();
    let beyond = render_paged(&document, count).unwrap();
    let far_beyond = render_paged(&document, count + 41).unwrap();
    assert_eq!(last, beyond);
    assert_eq!(last, far_beyond);
}

#[test]
fn font_catalog_pairs_metadata_with_fonts() {
    let world = GraphWorld::new();
    let count = world.font_count();
    assert!(count > 0);
    let book = world.book();
    for index in 0..count {
        let font = world.font(index).expect("an in-range index must yield a font");
        let info = book.info(index).expect("the book must describe every font");
        assert_eq!(font.info(), info);
    }
    assert!(world.font(count).is_none());
    assert!(book.info(count).is_none());
}

#[test]
fn today_matches_the_local_calendar_date() {
    let world = GraphWorld::new();
    let before = chrono::Local::now().date_naive();
    let date = world.today(None).expect("the local date is always available");
    let after = chrono::Local::now().date_naive();
    let matches_clock = |clock: chrono::NaiveDate| {
        clock.year() == date.year
            && clock.month() == date.month as u32
            && clock.day() == date.day as u32
    };
    assert!(matches_clock(before) || matches_clock(after));
}

#[test]
fn today_with_offset_shifts_utc() {
    let world = GraphWorld::new();
    for hours in [0i64, 5, -7, 26] {
        let before = chrono::Utc::now().naive_utc() + chrono::TimeDelta::try_hours(hours).unwrap();
        let date = world.today(Some(hours)).expect("a small shift is representable");
        let after = chrono::Utc::now().naive_utc() + chrono::TimeDelta::try_hours(hours).unwrap();
        let matches_clock = |clock: chrono::NaiveDateTime| {
            clock.year() == date.year
                && clock.month() == date.month as u32
                && clock.day() == date.day as u32
        };
        assert!(matches_clock(before) || matches_clock(after));
    }
}

#[test]
fn today_with_unrepresentable_offset_is_absent() {
    let world = GraphWorld::new();
    assert!(world.today(Some(i64::MAX)).is_none());
    assert!(world.today(Some(i64::MIN)).is_none());
}

#[test]
fn toolbar_actions_map_to_icons_and_hotkeys() {
    assert!(matches!(Action::NextPage.to_icon(), Icon::Next));
    assert!(matches!(Action::PrevPage.to_icon(), Icon::Prev));
    assert!(matches!(Action::Help.to_icon(), Icon::QuestionMark));
    assert_eq!(Action::NextPage.to_hotkey(), 'n');
    assert_eq!(Action::PrevPage.to_hotkey(), 'p');
    assert_eq!(Action::Help.to_hotkey(), 'h');
    for icon in [Icon::QuestionMark, Icon::Next, Icon::Prev] {
        let svg = icon.to_svg();
        assert!(svg.starts_with("<svg"));
        assert!(svg.ends_with("</svg>"));
    }
}
