use vstd::prelude::*;
use vstd::string::StringExecFns;

use crate::ids::{FileIdentity, IdView};

verus! {

/// The mathematical image of a [`Document`]: its identity and its text.
pub ghost struct DocView {
    pub id: IdView,
    pub text: Seq<char>,
}

/// One virtual document: a UTF-8 text buffer together with the stable
/// identity it was created under.
///
/// The identity never changes; the text can be replaced wholesale, and a
/// fresh document with text prepended can be derived without touching the
/// original (the ephemeral view used by context injection).
#[derive(Debug)]
pub struct Document {
    id: FileIdentity,
    text: String,
}

impl View for Document {
    type V = DocView;

    closed spec fn view(&self) -> DocView {
        DocView { id: self.id@, text: self.text@ }
    }
}

impl Document {
    /// Creates a document owning `text` under the identity `id`.
    pub fn new(id: FileIdentity, text: String) -> (r: Document)
        ensures
            r@ == (DocView { id: id@, text: text@ }),
    {
        Document { id, text }
    }

    /// The identity the document was created under.
    pub fn id(&self) -> (r: &FileIdentity)
        ensures
            r@ == self@.id,
    {
        &self.id
    }

    /// The document's current text.
    pub fn text(&self) -> (r: &String)
        ensures
            r@ == self@.text,
    {
        &self.text
    }

    /// Replaces the whole content; the identity is kept.
    pub fn replace(&mut self, content: &str)
        ensures
            final(self)@.id == old(self)@.id,
            final(self)@.text == content@,
    {
        self.text = content.to_owned();
    }

    /// A fresh document whose text is `text` followed by this document's
    /// text: a positional edit at byte offset 0, applied to a copy. The
    /// receiver is untouched, so the derived value is never persisted.
    pub fn concat(&self, text: &str) -> (r: Document)
        ensures
            r@.id == self@.id,
            r@.text == text@ + self@.text,
    {
        Document {
            id: self.id.clone(),
            text: String::from_str(text).concat(self.text.as_str()),
        }
    }
}

impl Clone for Document {
    /// Cloning keeps the identity and the text.
    fn clone(&self) -> (r: Self)
        ensures
            r@ == self@,
    {
        Document { id: self.id.clone(), text: self.text.clone() }
    }
}

} // verus!
