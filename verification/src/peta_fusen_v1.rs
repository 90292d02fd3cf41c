//! Wire messages of the fusen service, version 1.

use crate::entity::FusenView;
use crate::entity::Fusen as Entity;
use vstd::prelude::*;

verus! {

/// A fusen as it travels on the wire.
#[derive(Debug, Clone, PartialEq)]
pub struct Fusen {
    pub id: String,
    pub title: String,
    pub note: String,
}

impl View for Fusen {
    type V = FusenView;

    open spec fn view(&self) -> FusenView {
        FusenView { id: self.id@, title: self.title@, note: self.note@ }
    }
}

impl Fusen {
    /// The wire form of an entity: its three attributes, each as its own text.
    pub fn from_entity(entity: &Entity) -> (fusen: Fusen)
        ensures
            fusen@ == entity@,
    {
        Fusen {
            id: entity.id().to_owned(),
            title: entity.title().to_owned(),
            note: entity.note().to_owned(),
        }
    }
}

/// What a `CreateRequest` asks for, as two texts.
pub struct CreateRequestView {
    pub title: Seq<char>,
    pub note: Seq<char>,
}

/// Asks for a new fusen with the given title and note.
#[derive(Debug, Clone, PartialEq)]
pub struct CreateRequest {
    pub title: String,
    pub note: String,
}

impl View for CreateRequest {
    type V = CreateRequestView;

    open spec fn view(&self) -> CreateRequestView {
        CreateRequestView { title: self.title@, note: self.note@ }
    }
}

/// Answers a `CreateRequest` with the fusen that was created.
#[derive(Debug, Clone, PartialEq)]
pub struct CreateResponse {
    pub fusen: Option<Fusen>,
}

impl View for CreateResponse {
    type V = Option<FusenView>;

    open spec fn view(&self) -> Option<FusenView> {
        match self.fusen {
            Some(fusen) => Some(fusen@),
            None => None,
        }
    }
}

/// Asks for the fusen with the given identifier.
#[derive(Debug, Clone, PartialEq)]
pub struct GetRequest {
    pub id: String,
}

impl View for GetRequest {
    type V = Seq<char>;

    open spec fn view(&self) -> Seq<char> {
        self.id@
    }
}

/// Answers a `GetRequest` with the fusen that was found.
#[derive(Debug, Clone, PartialEq)]
pub struct GetResponse {
    pub fusen: Option<Fusen>,
}

impl View for GetResponse {
    type V = Option<FusenView>;

    open spec fn view(&self) -> Option<FusenView> {
        match self.fusen {
            Some(fusen) => Some(fusen@),
            None => None,
        }
    }
}

/// Asks to remove the fusen with the given identifier.
#[derive(Debug, Clone, PartialEq)]
pub struct DeleteRequest {
    pub id: String,
}

impl View for DeleteRequest {
    type V = Seq<char>;

    open spec fn view(&self) -> Seq<char> {
        self.id@
    }
}

/// Answers a `DeleteRequest`. It carries nothing.
#[derive(Debug, Clone, PartialEq)]
pub struct DeleteResponse {}

impl View for DeleteResponse {
    type V = ();

    open spec fn view(&self) -> () {
        ()
    }
}

} // verus!
