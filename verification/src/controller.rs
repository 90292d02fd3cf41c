//! The controller: three RPC endpoints, each answered by one use-case port.

use crate::entity::FusenView;
use crate::peta_fusen_v1::Fusen as PbFusen;
use crate::peta_fusen_v1::{CreateRequest, CreateRequestView, CreateResponse};
use crate::peta_fusen_v1::{DeleteRequest, DeleteResponse};
use crate::peta_fusen_v1::{GetRequest, GetResponse};
use crate::port::{always_gives, answers, outcome_model, settled, Port};
use crate::port::{CreateFusenInputData, CreateFusenInputView, CreateFusenOutputData};
use crate::port::{DeleteFusenInputData, DeleteFusenOutputData};
use crate::port::{GetFusenInputData, GetFusenOutputData};
use crate::status::{Code, Status, StatusView};
use vstd::prelude::*;

verus! {

/// The endpoints of the fusen service. Each takes `&self`: a controller may
/// be called from several workers at once and keeps nothing from one call to
/// the next.
pub trait Controller {
    /// Creates a fusen with the request's title and note.
    fn create(&self, request: CreateRequest) -> Result<CreateResponse, Status>;

    /// Looks up the fusen with the request's identifier.
    fn get(&self, request: GetRequest) -> Result<GetResponse, Status>;

    /// Removes the fusen with the request's identifier.
    fn delete(&self, request: DeleteRequest) -> Result<DeleteResponse, Status>;
}

/// The one status a client sees when a port fails: kind `Internal`, message
/// `"error"`, whatever the port failed with.
pub open spec fn internal_error() -> StatusView {
    StatusView { code: Code::Internal, message: "error"@ }
}

/// A reply as the client sees it: what the response holds, or what the status
/// says.
pub open spec fn reply_model<R: View>(reply: Result<R, Status>) -> Result<R::V, StatusView> {
    match reply {
        Ok(response) => Ok(response@),
        Err(status) => Err(status@),
    }
}

/// The input the create port is handed for a request: its title and its note,
/// as they came.
pub open spec fn create_input_model(request: CreateRequestView) -> CreateFusenInputView {
    CreateFusenInputView { title: request.title, note: request.note }
}

/// The reply owed when the create port gave `created`: the fusen it
/// returned, or `internal_error()` when it failed.
pub open spec fn create_reply_model(created: Option<FusenView>) -> Result<
    Option<FusenView>,
    StatusView,
> {
    match created {
        Some(fusen) => Ok(Some(fusen)),
        None => Err(internal_error()),
    }
}

/// The reply owed when the get port gave `found`: the fusen it returned, or
/// `internal_error()` when it failed.
pub open spec fn get_reply_model(found: Option<FusenView>) -> Result<Option<FusenView>, StatusView> {
    match found {
        Some(fusen) => Ok(Some(fusen)),
        None => Err(internal_error()),
    }
}

/// The reply owed when the delete port gave `deleted`: the empty response, or
/// `internal_error()` when it failed.
pub open spec fn delete_reply_model(deleted: Option<()>) -> Result<(), StatusView> {
    match deleted {
        Some(_) => Ok(()),
        None => Err(internal_error()),
    }
}

/// The status sent for any port failure.
pub fn port_failure() -> (status: Status)
    ensures
        status@ == internal_error(),
{
    Status::internal("error")
}

/// Turns the outcome of the create port into the reply.
pub fn create_reply<E>(outcome: Result<CreateFusenOutputData, E>) -> (reply: Result<
    CreateResponse,
    Status,
>)
    ensures
        reply_model(reply) == create_reply_model(outcome_model(outcome)),
{
    match outcome {
        Ok(output) => Ok(CreateResponse { fusen: Some(PbFusen::from_entity(&output.fusen)) }),
        Err(_) => Err(port_failure()),
    }
}

/// Turns the outcome of the get port into the reply.
pub fn get_reply<E>(outcome: Result<GetFusenOutputData, E>) -> (reply: Result<GetResponse, Status>)
    ensures
        reply_model(reply) == get_reply_model(outcome_model(outcome)),
{
    match outcome {
        Ok(output) => Ok(GetResponse { fusen: Some(PbFusen::from_entity(&output.fusen)) }),
        Err(_) => Err(port_failure()),
    }
}

/// Turns the outcome of the delete port into the reply.
pub fn delete_reply<E>(outcome: Result<DeleteFusenOutputData, E>) -> (reply: Result<
    DeleteResponse,
    Status,
>)
    ensures
        reply_model(reply) == delete_reply_model(outcome_model(outcome)),
{
    match outcome {
        Ok(_) => Ok(DeleteResponse {}),
        Err(_) => Err(port_failure()),
    }
}

/// A controller that owns one port per endpoint and keeps nothing else.
pub struct FusenController<Create, Get, Delete> where
    Create: Port<CreateFusenInputData, CreateFusenOutputData>,
    Get: Port<GetFusenInputData, GetFusenOutputData>,
    Delete: Port<DeleteFusenInputData, DeleteFusenOutputData>,
{
    create_fusen: Create,
    get_fusen: Get,
    delete_fusen: Delete,
}

impl<Create, Get, Delete> FusenController<Create, Get, Delete> where
    Create: Port<CreateFusenInputData, CreateFusenOutputData>,
    Get: Port<GetFusenInputData, GetFusenOutputData>,
    Delete: Port<DeleteFusenInputData, DeleteFusenOutputData>,
{
    /// The port behind `create`.
    pub closed spec fn create_port(&self) -> Create {
        self.create_fusen
    }

    /// The port behind `get`.
    pub closed spec fn get_port(&self) -> Get {
        self.get_fusen
    }

    /// The port behind `delete`.
    pub closed spec fn delete_port(&self) -> Delete {
        self.delete_fusen
    }

    /// A controller over the three given ports.
    pub fn new(create_fusen: Create, get_fusen: Get, delete_fusen: Delete) -> (controller: Self)
        ensures
            controller.create_port() == create_fusen,
            controller.get_port() == get_fusen,
            controller.delete_port() == delete_fusen,
    {
        FusenController { create_fusen, get_fusen, delete_fusen }
    }

    /// `reply` is a reply that `create` may give to `request`: the create port
    /// was handed the request's title and note, and `reply` is what is owed
    /// for the outcome it gave.
    pub open spec fn creates(
        &self,
        request: CreateRequest,
        reply: Result<CreateResponse, Status>,
    ) -> bool {
        exists|input: CreateFusenInputData, outcome: Result<CreateFusenOutputData, Create::Failure>|
            {
                &&& input@ == create_input_model(request@)
                &&& #[trigger] answers(&self.create_port(), input, outcome)
                &&& reply_model(reply) == create_reply_model(outcome_model(outcome))
            }
    }

    /// `reply` is a reply that `get` may give to `request`: the get port was
    /// handed the request's identifier, and `reply` is what is owed for the
    /// outcome it gave.
    pub open spec fn gets(&self, request: GetRequest, reply: Result<GetResponse, Status>) -> bool {
        exists|input: GetFusenInputData, outcome: Result<GetFusenOutputData, Get::Failure>|
            {
                &&& input@ == request@
                &&& #[trigger] answers(&self.get_port(), input, outcome)
                &&& reply_model(reply) == get_reply_model(outcome_model(outcome))
            }
    }

    /// `reply` is a reply that `delete` may give to `request`: the delete port
    /// was handed the request's identifier, and `reply` is what is owed for
    /// the outcome it gave.
    pub open spec fn deletes(
        &self,
        request: DeleteRequest,
        reply: Result<DeleteResponse, Status>,
    ) -> bool {
        exists|input: DeleteFusenInputData, outcome: Result<DeleteFusenOutputData, Delete::Failure>|
            {
                &&& input@ == request@
                &&& #[trigger] answers(&self.delete_port(), input, outcome)
                &&& reply_model(reply) == delete_reply_model(outcome_model(outcome))
            }
    }
}

impl<Create, Get, Delete> Controller for FusenController<Create, Get, Delete> where
    Create: Port<CreateFusenInputData, CreateFusenOutputData>,
    Get: Port<GetFusenInputData, GetFusenOutputData>,
    Delete: Port<DeleteFusenInputData, DeleteFusenOutputData>,
{
    /// Creates a fusen: hands the request's title and note to the create port
    /// and answers with the fusen it returns, or with the internal status.
    fn create(&self, request: CreateRequest) -> (reply: Result<CreateResponse, Status>)
        ensures
            self.creates(request, reply),
    {
        let input = CreateFusenInputData::new(request.title, request.note);
        let ghost handed = input;
        let outcome = self.create_fusen.handle(input);
        // the witness of `creates`
        assert(answers(&self.create_port(), handed, outcome));
        create_reply(outcome)
    }

    /// Gets a fusen: hands the request's identifier to the get port and
    /// answers with the fusen it returns, or with the internal status.
    fn get(&self, request: GetRequest) -> (reply: Result<GetResponse, Status>)
        ensures
            self.gets(request, reply),
    {
        let input = GetFusenInputData::new(request.id);
        let ghost handed = input;
        let outcome = self.get_fusen.handle(input);
        // the witness of `gets`
        assert(answers(&self.get_port(), handed, outcome));
        get_reply(outcome)
    }

    /// Deletes a fusen: hands the request's identifier to the delete port and
    /// answers with the empty response, or with the internal status.
    fn delete(&self, request: DeleteRequest) -> (reply: Result<DeleteResponse, Status>)
        ensures
            self.deletes(request, reply),
    {
        let input = DeleteFusenInputData::new(request.id);
        let ghost handed = input;
        let outcome = self.delete_fusen.handle(input);
        // the witness of `deletes`
        assert(answers(&self.delete_port(), handed, outcome));
        delete_reply(outcome)
    }
}

/// When the create port can only return one fusen for what the request
/// holds, the reply is the response that carries that fusen: its identifier,
/// title and note, unchanged.
pub proof fn lemma_create_passes_through<Create, Get, Delete>(
    controller: &FusenController<Create, Get, Delete>,
    request: CreateRequest,
    reply: Result<CreateResponse, Status>,
    fusen: FusenView,
) where
    Create: Port<CreateFusenInputData, CreateFusenOutputData>,
    Get: Port<GetFusenInputData, GetFusenOutputData>,
    Delete: Port<DeleteFusenInputData, DeleteFusenOutputData>,

    requires
        controller.creates(request, reply),
        always_gives(&controller.create_port(), create_input_model(request@), Some(fusen)),
    ensures
        reply_model(reply) == Ok::<Option<FusenView>, StatusView>(Some(fusen)),
{
}

/// When the get port can only return one fusen for the identifier asked for,
/// the reply is the response that carries that fusen, whether or not its
/// identifier is the one in the request.
pub proof fn lemma_get_passes_through<Create, Get, Delete>(
    controller: &FusenController<Create, Get, Delete>,
    request: GetRequest,
    reply: Result<GetResponse, Status>,
    fusen: FusenView,
) where
    Create: Port<CreateFusenInputData, CreateFusenOutputData>,
    Get: Port<GetFusenInputData, GetFusenOutputData>,
    Delete: Port<DeleteFusenInputData, DeleteFusenOutputData>,

    requires
        controller.gets(request, reply),
        always_gives(&controller.get_port(), request@, Some(fusen)),
    ensures
        reply_model(reply) == Ok::<Option<FusenView>, StatusView>(Some(fusen)),
{
}

/// When the delete port can only succeed for the identifier asked for, the
/// reply is the empty response.
pub proof fn lemma_delete_answers_empty<Create, Get, Delete>(
    controller: &FusenController<Create, Get, Delete>,
    request: DeleteRequest,
    reply: Result<DeleteResponse, Status>,
) where
    Create: Port<CreateFusenInputData, CreateFusenOutputData>,
    Get: Port<GetFusenInputData, GetFusenOutputData>,
    Delete: Port<DeleteFusenInputData, DeleteFusenOutputData>,

    requires
        controller.deletes(request, reply),
        always_gives(&controller.delete_port(), request@, Some(())),
    ensures
        reply_model(reply) == Ok::<(), StatusView>(()),
{
}

/// When the create port can only fail for what the request holds, the reply
/// is the internal status and no response.
pub proof fn lemma_create_failure_collapses<Create, Get, Delete>(
    controller: &FusenController<Create, Get, Delete>,
    request: CreateRequest,
    reply: Result<CreateResponse, Status>,
) where
    Create: Port<CreateFusenInputData, CreateFusenOutputData>,
    Get: Port<GetFusenInputData, GetFusenOutputData>,
    Delete: Port<DeleteFusenInputData, DeleteFusenOutputData>,

    requires
        controller.creates(request, reply),
        always_gives(&controller.create_port(), create_input_model(request@), None),
    ensures
        reply_model(reply) == Err::<Option<FusenView>, StatusView>(internal_error()),
{
}

/// When the get port can only fail for the identifier asked for, the reply is
/// the internal status and no response.
pub proof fn lemma_get_failure_collapses<Create, Get, Delete>(
    controller: &FusenController<Create, Get, Delete>,
    request: GetRequest,
    reply: Result<GetResponse, Status>,
) where
    Create: Port<CreateFusenInputData, CreateFusenOutputData>,
    Get: Port<GetFusenInputData, GetFusenOutputData>,
    Delete: Port<DeleteFusenInputData, DeleteFusenOutputData>,

    requires
        controller.gets(request, reply),
        always_gives(&controller.get_port(), request@, None),
    ensures
        reply_model(reply) == Err::<Option<FusenView>, StatusView>(internal_error()),
{
}

/// When the delete port can only fail for the identifier asked for, the reply
/// is the internal status and no response.
pub proof fn lemma_delete_failure_collapses<Create, Get, Delete>(
    controller: &FusenController<Create, Get, Delete>,
    request: DeleteRequest,
    reply: Result<DeleteResponse, Status>,
) where
    Create: Port<CreateFusenInputData, CreateFusenOutputData>,
    Get: Port<GetFusenInputData, GetFusenOutputData>,
    Delete: Port<DeleteFusenInputData, DeleteFusenOutputData>,

    requires
        controller.deletes(request, reply),
        always_gives(&controller.delete_port(), request@, None),
    ensures
        reply_model(reply) == Err::<(), StatusView>(internal_error()),
{
}

/// The controller keeps nothing between calls. With a create port that
/// behaves the same each time it is asked the same, two replies to requests
/// that read the same read the same, whatever was called in between and in
/// whatever order.
pub proof fn lemma_create_keeps_no_state<Create, Get, Delete>(
    controller: &FusenController<Create, Get, Delete>,
    first: CreateRequest,
    first_reply: Result<CreateResponse, Status>,
    second: CreateRequest,
    second_reply: Result<CreateResponse, Status>,
) where
    Create: Port<CreateFusenInputData, CreateFusenOutputData>,
    Get: Port<GetFusenInputData, GetFusenOutputData>,
    Delete: Port<DeleteFusenInputData, DeleteFusenOutputData>,

    requires
        settled(&controller.create_port()),
        first@ == second@,
        controller.creates(first, first_reply),
        controller.creates(second, second_reply),
    ensures
        reply_model(first_reply) == reply_model(second_reply),
{
}

/// As `lemma_create_keeps_no_state`, for `get`.
pub proof fn lemma_get_keeps_no_state<Create, Get, Delete>(
    controller: &FusenController<Create, Get, Delete>,
    first: GetRequest,
    first_reply: Result<GetResponse, Status>,
    second: GetRequest,
    second_reply: Result<GetResponse, Status>,
) where
    Create: Port<CreateFusenInputData, CreateFusenOutputData>,
    Get: Port<GetFusenInputData, GetFusenOutputData>,
    Delete: Port<DeleteFusenInputData, DeleteFusenOutputData>,

    requires
        settled(&controller.get_port()),
        first@ == second@,
        controller.gets(first, first_reply),
        controller.gets(second, second_reply),
    ensures
        reply_model(first_reply) == reply_model(second_reply),
{
}

/// As `lemma_create_keeps_no_state`, for `delete`.
pub proof fn lemma_delete_keeps_no_state<Create, Get, Delete>(
    controller: &FusenController<Create, Get, Delete>,
    first: DeleteRequest,
    first_reply: Result<DeleteResponse, Status>,
    second: DeleteRequest,
    second_reply: Result<DeleteResponse, Status>,
) where
    Create: Port<CreateFusenInputData, CreateFusenOutputData>,
    Get: Port<GetFusenInputData, GetFusenOutputData>,
    Delete: Port<DeleteFusenInputData, DeleteFusenOutputData>,

    requires
        settled(&controller.delete_port()),
        first@ == second@,
        controller.deletes(first, first_reply),
        controller.deletes(second, second_reply),
    ensures
        reply_model(first_reply) == reply_model(second_reply),
{
}

} // verus!
