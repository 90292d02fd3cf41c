use fusen_interface::controller::{create_reply, delete_reply, get_reply, port_failure};
use fusen_interface::entity::Fusen;
use fusen_interface::peta_fusen_v1::Fusen as PBFusen;
use fusen_interface::peta_fusen_v1::{CreateResponse, DeleteResponse, GetResponse};
use fusen_interface::port::{CreateFusenOutputData, DeleteFusenOutputData, GetFusenOutputData};
use fusen_interface::status::{Code, Status};

fn new_fusen() -> Fusen {
    Fusen::new(
        "01F8MECHZX3TBDSZ7XRADM79XE".to_string(),
        "Clean Architecture using Rust".to_string(),
        "クリーンアーキテクチャをRustで実装してみました〜！".to_string(),
    )
}

fn wire_fusen() -> PBFusen {
    PBFusen {
        id: "01F8MECHZX3TBDSZ7XRADM79XE".to_string(),
        title: "Clean Architecture using Rust".to_string(),
        note: "クリーンアーキテクチャをRustで実装してみました〜！".to_string(),
    }
}

#[test]
fn port_failure_is_internal_with_message_error() {
    let status = port_failure();

    assert_eq!(status.code(), Code::Internal);
    assert_eq!(status.message(), "error");
    assert_eq!(status, Status::internal("error"));
}

#[test]
fn create_reply_carries_the_created_fusen() {
    let outcome: Result<CreateFusenOutputData, String> = Ok(CreateFusenOutputData::new(new_fusen()));

    assert_eq!(
        create_reply(outcome),
        Ok(CreateResponse {
            fusen: Some(wire_fusen()),
        }),
    );
}

#[test]
fn create_reply_of_a_failure_is_the_internal_status() {
    let outcome: Result<CreateFusenOutputData, String> = Err("title must not be empty".to_string());

    assert_eq!(create_reply(outcome), Err(Status::new(Code::Internal, "error")));
}

#[test]
fn get_reply_carries_the_found_fusen() {
    let outcome: Result<GetFusenOutputData, ()> = Ok(GetFusenOutputData::new(new_fusen()));

    assert_eq!(
        get_reply(outcome),
        Ok(GetResponse {
            fusen: Some(wire_fusen()),
        }),
    );
}

#[test]
fn get_reply_of_a_failure_is_the_internal_status() {
    let outcome: Result<GetFusenOutputData, u32> = Err(404);

    assert_eq!(get_reply(outcome), Err(Status::new(Code::Internal, "error")));
}

#[test]
fn delete_reply_is_the_empty_response() {
    let outcome: Result<DeleteFusenOutputData, String> = Ok(DeleteFusenOutputData::new());

    assert_eq!(delete_reply(outcome), Ok(DeleteResponse {}));
}

#[test]
fn delete_reply_of_a_failure_is_the_internal_status() {
    let outcome: Result<DeleteFusenOutputData, String> = Err("database is down".to_string());

    assert_eq!(delete_reply(outcome), Err(Status::new(Code::Internal, "error")));
}

#[test]
fn a_reply_keeps_empty_and_multi_byte_texts() {
    let fusen = Fusen::new(String::new(), "付箋".to_string(), "a\nb\t〜".to_string());
    let outcome: Result<GetFusenOutputData, ()> = Ok(GetFusenOutputData::new(fusen));

    assert_eq!(
        get_reply(outcome),
        Ok(GetResponse {
            fusen: Some(PBFusen {
                id: String::new(),
                title: "付箋".to_string(),
                note: "a\nb\t〜".to_string(),
            }),
        }),
    );
}
