use vstd::prelude::*;
use vstd::string::StringExecFns;

use crate::document::Document;
use crate::errors::WorldError;
use crate::ids::{FileIdentity, IdView};
use crate::store::FileStore;

verus! {

/// The implicit preamble: the global-context document's current text, or
/// the empty sequence when the designated identity is absent from the
/// store (resolution falls back rather than failing).
pub open spec fn context_text(store: Map<IdView, Seq<char>>, global: IdView) -> Seq<char> {
    if store.contains_key(global) {
        store[global]
    } else {
        Seq::empty()
    }
}

/// What resolving `id` hands to the engine: the stored text unchanged for
/// the global-context document itself (no self-injection), and the context
/// text, one newline, then the document's own text for every other
/// document.
pub open spec fn resolved_text(
    store: Map<IdView, Seq<char>>,
    global: IdView,
    id: IdView,
) -> Seq<char> {
    if id == global {
        store[id]
    } else {
        context_text(store, global) + seq!['\n'] + store[id]
    }
}

/// Resolves `id` against the store, weaving the global context in.
///
/// The composed document is a fresh, ephemeral value: it is never written
/// back, so the stored text is never polluted by a prior injection, and
/// repeated resolutions of an unchanged store give identical results.
/// An unknown `id` propagates `NotFound`.
pub fn resolve_with_context(store: &FileStore, global: &FileIdentity, id: &FileIdentity) -> (r:
    Result<Document, WorldError>)
    ensures
        r is Ok <==> store@.contains_key(id@),
        r matches Ok(d) ==> d@.id == id@ && d@.text == resolved_text(store@, global@, id@),
        r matches Err(e) ==> e is NotFound,
{
    let doc = match store.get(id) {
        Option::Some(d) => d,
        Option::None => {
            return Result::Err(WorldError::NotFound);
        },
    };
    if id.same_as(global) {
        Result::Ok(doc.clone())
    } else {
        let mut preamble: String = match store.get(global) {
            Option::Some(g) => g.text().clone(),
            Option::None => String::new(),
        };
        preamble.append("\n");
        proof {
            reveal_strlit("\n");
            assert("\n"@ =~= seq!['\n']);
            assert(preamble@ == context_text(store@, global@) + seq!['\n']);
        }
        let composed = doc.concat(preamble.as_str());
        proof {
            assert(composed@.text =~= resolved_text(store@, global@, id@));
        }
        Result::Ok(composed)
    }
}

/// Law: injection is idempotent. The resolved text is a function of the
/// store's state alone, so two resolutions of the same identity with no
/// intervening write yield identical text.
pub proof fn lemma_resolution_idempotent(
    store: Map<IdView, Seq<char>>,
    global: IdView,
    id: IdView,
    first: Seq<char>,
    second: Seq<char>,
)
    requires
        first == resolved_text(store, global, id),
        second == resolved_text(store, global, id),
    ensures
        first == second,
{
}

/// Law: no self-injection. Resolving the global-context identity hands
/// back its stored text unchanged, never a copy preceded by itself.
pub proof fn lemma_no_self_injection(store: Map<IdView, Seq<char>>, global: IdView)
    ensures
        resolved_text(store, global, global) == store[global],
{
}

/// Law: absent context falls back to an empty preamble. When the
/// global-context identity is not in the store, every other document
/// resolves to one newline followed by its own text.
pub proof fn lemma_absent_context_fallback(
    store: Map<IdView, Seq<char>>,
    global: IdView,
    id: IdView,
)
    requires
        !store.contains_key(global),
        id != global,
    ensures
        resolved_text(store, global, id) == seq!['\n'] + store[id],
{
    assert(resolved_text(store, global, id) =~= seq!['\n'] + store[id]);
}

} // verus!
