//! Use-case ports: the three operations the controller delegates to, and the
//! records that cross that boundary.

use crate::entity::{Fusen, FusenView};
use vstd::prelude::*;

verus! {

/// One use case behind the controller: it takes an input and gives back an
/// output or fails. It takes every input, and the controller never looks
/// inside the failure.
pub trait Port<I, O> {
    /// What the port fails with.
    type Failure;

    /// Runs the use case on `input`.
    fn handle(&self, input: I) -> Result<O, Self::Failure>;
}

/// `outcome` is something `port` may give back when it handles `input`.
pub open spec fn answers<I, O, P: Port<I, O>>(
    port: &P,
    input: I,
    outcome: Result<O, P::Failure>,
) -> bool {
    call_ensures(P::handle, (port, input), outcome)
}

/// An outcome as the controller reads it: what the output holds, or nothing
/// for a failure, whatever the failure was.
pub open spec fn outcome_model<O: View, E>(outcome: Result<O, E>) -> Option<O::V> {
    match outcome {
        Ok(output) => Some(output@),
        Err(_) => None,
    }
}

/// Whenever `port` handles an input that reads `asked`, its outcome reads
/// `given`.
pub open spec fn always_gives<I: View, O: View, P: Port<I, O>>(
    port: &P,
    asked: I::V,
    given: Option<O::V>,
) -> bool {
    forall|input: I, outcome: Result<O, P::Failure>|
        input@ == asked && #[trigger] answers(port, input, outcome) ==> outcome_model(outcome)
            == given
}

/// What `port` gives back is settled by what its input reads: it behaves the
/// same each time it is asked the same.
pub open spec fn settled<I: View, O: View, P: Port<I, O>>(port: &P) -> bool {
    forall|
        first: I,
        second: I,
        first_outcome: Result<O, P::Failure>,
        second_outcome: Result<O, P::Failure>,
    |
        first@ == second@ && #[trigger] answers(port, first, first_outcome) && #[trigger] answers(
            port,
            second,
            second_outcome,
        ) ==> outcome_model(first_outcome) == outcome_model(second_outcome)
}

/// Input of the create use case, as two texts.
pub struct CreateFusenInputView {
    pub title: Seq<char>,
    pub note: Seq<char>,
}

/// Input of the create use case.
#[derive(Debug, Clone, PartialEq)]
pub struct CreateFusenInputData {
    pub title: String,
    pub note: String,
}

impl View for CreateFusenInputData {
    type V = CreateFusenInputView;

    open spec fn view(&self) -> CreateFusenInputView {
        CreateFusenInputView { title: self.title@, note: self.note@ }
    }
}

impl CreateFusenInputData {
    /// The input that asks for a fusen with this title and this note.
    pub fn new(title: String, note: String) -> (input: Self)
        ensures
            input@ == (CreateFusenInputView { title: title@, note: note@ }),
    {
        CreateFusenInputData { title, note }
    }
}

/// Output of the create use case: the fusen that was created.
#[derive(Debug, Clone, PartialEq)]
pub struct CreateFusenOutputData {
    pub fusen: Fusen,
}

impl View for CreateFusenOutputData {
    type V = FusenView;

    open spec fn view(&self) -> FusenView {
        self.fusen@
    }
}

impl CreateFusenOutputData {
    /// The output that reports `fusen` as created.
    pub fn new(fusen: Fusen) -> (output: Self)
        ensures
            output@ == fusen@,
    {
        CreateFusenOutputData { fusen }
    }
}

/// Input of the get use case: the identifier to look up.
#[derive(Debug, Clone, PartialEq)]
pub struct GetFusenInputData {
    pub id: String,
}

impl View for GetFusenInputData {
    type V = Seq<char>;

    open spec fn view(&self) -> Seq<char> {
        self.id@
    }
}

impl GetFusenInputData {
    /// The input that asks for the fusen with this identifier.
    pub fn new(id: String) -> (input: Self)
        ensures
            input@ == id@,
    {
        GetFusenInputData { id }
    }
}

/// Output of the get use case: the fusen that was found.
#[derive(Debug, Clone, PartialEq)]
pub struct GetFusenOutputData {
    pub fusen: Fusen,
}

impl View for GetFusenOutputData {
    type V = FusenView;

    open spec fn view(&self) -> FusenView {
        self.fusen@
    }
}

impl GetFusenOutputData {
    /// The output that reports `fusen` as found.
    pub fn new(fusen: Fusen) -> (output: Self)
        ensures
            output@ == fusen@,
    {
        GetFusenOutputData { fusen }
    }
}

/// Input of the delete use case: the identifier to remove.
#[derive(Debug, Clone, PartialEq)]
pub struct DeleteFusenInputData {
    pub id: String,
}

impl View for DeleteFusenInputData {
    type V = Seq<char>;

    open spec fn view(&self) -> Seq<char> {
        self.id@
    }
}

impl DeleteFusenInputData {
    /// The input that asks to remove the fusen with this identifier.
    pub fn new(id: String) -> (input: Self)
        ensures
            input@ == id@,
    {
        DeleteFusenInputData { id }
    }
}

/// Output of the delete use case. It carries nothing.
#[derive(Debug, Clone, PartialEq)]
pub struct DeleteFusenOutputData {}

impl View for DeleteFusenOutputData {
    type V = ();

    open spec fn view(&self) -> () {
        ()
    }
}

impl DeleteFusenOutputData {
    /// The output that reports the removal as done.
    pub fn new() -> Self {
        DeleteFusenOutputData {}
    }
}

} // verus!
