use vstd::prelude::*;

use typst_layout::{Page, PagedDocument};

use crate::errors::WorldError;

verus! {

#[verifier::external_type_specification]
#[verifier::external_body]
pub struct ExPagedDocument(PagedDocument);

#[verifier::external_type_specification]
#[verifier::external_body]
pub struct ExPage(Page);

/// What a compiled document holds: its pages, in order.
pub uninterp spec fn pages_of(doc: PagedDocument) -> Seq<Page>;

/// The SVG serialization of one page under default options; a function
/// of the page alone.
pub uninterp spec fn svg_of(page: Page) -> Seq<char>;

/// Relies on typst_layout::PagedDocument::pages: the slice of compiled
/// pages.
#[verifier::external_body]
fn page_count(doc: &PagedDocument) -> (r: usize)
    ensures
        r == pages_of(*doc).len(),
{
    doc.pages().len()
}

/// Relies on typst_svg::svg: serializes one page to SVG markup under
/// default options.
#[verifier::external_body]
fn page_to_svg(doc: &PagedDocument, index: usize) -> (r: String)
    requires
        index < pages_of(*doc).len(),
    ensures
        r@ == svg_of(pages_of(*doc)[index as int]),
{
    typst_svg::svg(&doc.pages()[index], &typst_svg::SvgOptions::default())
}

/// The page a request selects: the requested index when it is in range,
/// else the last available page (clamp-with-fallback policy).
pub open spec fn clamped_page(count: nat, requested: nat) -> nat {
    if requested < count {
        requested
    } else {
        (count - 1) as nat
    }
}

/// Turns a requested page index into the index to serialize.
///
/// A deliberate policy choice: an out-of-range request falls back to the
/// last available page; only a document with no pages at all reports
/// `PageOutOfRange`.
pub fn select_page(count: usize, requested: usize) -> (r: Result<usize, WorldError>)
    ensures
        r is Ok <==> count > 0,
        r matches Ok(i) ==> i == clamped_page(count as nat, requested as nat),
        r matches Err(e) ==> e is PageOutOfRange,
{
    if count == 0 {
        Result::Err(WorldError::PageOutOfRange)
    } else if requested < count {
        Result::Ok(requested)
    } else {
        Result::Ok(count - 1)
    }
}

/// Serializes the page that `requested` selects from a compiled
/// document, or reports `PageOutOfRange` for a document with no pages.
pub fn render_paged(doc: &PagedDocument, requested: usize) -> (r: Result<String, WorldError>)
    ensures
        r is Ok <==> pages_of(*doc).len() > 0,
        r matches Ok(s) ==> s@ == svg_of(
            pages_of(*doc)[clamped_page(pages_of(*doc).len(), requested as nat) as int],
        ),
        r matches Err(e) ==> e is PageOutOfRange,
{
    let count = page_count(doc);
    match select_page(count, requested) {
        Result::Ok(index) => Result::Ok(page_to_svg(doc, index)),
        Result::Err(e) => Result::Err(e),
    }
}

/// Drives page selection for one compilation outcome.
///
/// A hard compilation failure carries its diagnostics through unchanged;
/// a compiled document yields the clamped page's artifact, or
/// `PageOutOfRange` when it produced no pages.
pub fn render_compiled(output: Result<PagedDocument, Vec<String>>, requested: usize) -> (r: Result<
    String,
    WorldError,
>)
    ensures
        output matches Ok(doc) ==> {
            &&& r is Ok <==> pages_of(doc).len() > 0
            &&& r matches Ok(s) ==> s@ == svg_of(
                pages_of(doc)[clamped_page(pages_of(doc).len(), requested as nat) as int],
            )
            &&& r matches Err(e) ==> e is PageOutOfRange
        },
        output matches Err(diagnostics) ==> r matches Err(e) && e == WorldError::CompilationFailure(
            diagnostics,
        ),
{
    match output {
        Result::Ok(doc) => render_paged(&doc, requested),
        Result::Err(diagnostics) => Result::Err(WorldError::CompilationFailure(diagnostics)),
    }
}

/// Law: the clamp policy. For a document with at least one page, every
/// out-of-range request selects the same page as requesting the last
/// one, so both yield the same artifact.
pub proof fn lemma_clamp_to_last(count: nat, requested: nat)
    requires
        count > 0,
        requested >= count,
    ensures
        clamped_page(count, requested) == count - 1,
        clamped_page(count, requested) == clamped_page(count, (count - 1) as nat),
{
}

} // verus!
