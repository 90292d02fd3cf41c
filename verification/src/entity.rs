//! The fusen entity: an identifier, a title and a note body.

use vstd::prelude::*;

verus! {

/// What a fusen is, as three texts.
pub struct FusenView {
    pub id: Seq<char>,
    pub title: Seq<char>,
    pub note: Seq<char>,
}

/// A sticky note. It is built once and never changed afterwards: to change
/// one is to build another. Whoever builds one has parsed its identifier,
/// title and note already; the three texts are taken as they come.
#[derive(Debug, Clone, PartialEq)]
pub struct Fusen {
    id: String,
    title: String,
    note: String,
}

impl View for Fusen {
    type V = FusenView;

    closed spec fn view(&self) -> FusenView {
        FusenView { id: self.id@, title: self.title@, note: self.note@ }
    }
}

impl Fusen {
    /// Builds the fusen with the given identifier, title and note.
    pub fn new(id: String, title: String, note: String) -> (fusen: Fusen)
        ensures
            fusen@ == (FusenView { id: id@, title: title@, note: note@ }),
    {
        Fusen { id, title, note }
    }

    /// The identifier.
    pub fn id(&self) -> (id: &str)
        ensures
            id@ == self@.id,
    {
        self.id.as_str()
    }

    /// The title.
    pub fn title(&self) -> (title: &str)
        ensures
            title@ == self@.title,
    {
        self.title.as_str()
    }

    /// The note body.
    pub fn note(&self) -> (note: &str)
        ensures
            note@ == self@.note,
    {
        self.note.as_str()
    }
}

} // verus!
