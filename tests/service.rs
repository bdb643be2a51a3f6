use rust_server::errors::{AppError, ErrorKind};
use rust_server::handlers::{
    check_experience, reply_created, reply_deleted, reply_found, reply_listed, reply_updated,
    ReplyBody,
};
use rust_server::models::{Experience, Responsibility, Skill};
use rust_server::object_id::ObjectId;
use rust_server::repository;
use rust_server::service::{append_environment, append_responsibility, parse_object_id};

const ID: &str = "507f1f77bcf86cd799439011";

fn experience(title: &str) -> Experience {
    Experience {
        id: None,
        job_title: title.to_string(),
        company: "Test Company".to_string(),
        location: "Test Location".to_string(),
        start_date: "2023-01-01".to_string(),
        end_date: "2023-12-31".to_string(),
        responsibilities: vec![],
        environment: vec![],
    }
}

fn responsibility(name: &str) -> Responsibility {
    Responsibility { id: None, name: name.to_string(), next: None }
}

#[test]
fn test_find_all() {
    let test_experience = experience("Test Job Title");
    let result = repository::find_all(Ok(vec![test_experience.clone()]));
    assert!(result.is_ok());
    let experiences = result.unwrap();
    assert!(!experiences.is_empty());
    assert_eq!(experiences[0].job_title, test_experience.job_title);
}

#[test]
fn empty_listing_is_not_found() {
    let err = repository::find_all(Ok(vec![])).unwrap_err();
    assert_eq!(err.kind(), ErrorKind::NotFound);
    assert_eq!(err.message(), "No experiences found");
    let reply = reply_listed(Err(err));
    assert_eq!(reply.status, 404);
}

#[test]
fn listing_returns_every_record() {
    let docs = vec![experience("A"), experience("B")];
    let reply = reply_listed(repository::find_all(Ok(docs)));
    assert_eq!(reply.status, 200);
    match reply.body {
        ReplyBody::Records(v) => {
            assert_eq!(v.len(), 2);
            assert_eq!(v[0].job_title, "A");
            assert_eq!(v[1].job_title, "B");
        }
        _ => panic!("expected records"),
    }
}

#[test]
fn store_failures_are_database_errors_with_context() {
    let id = ObjectId::parse_str(ID).unwrap();
    let e = repository::create(Err("timeout".to_string())).unwrap_err();
    assert_eq!(e.kind(), ErrorKind::DatabaseError);
    assert_eq!(e.message(), "Failed to create experience: timeout");
    let e = repository::find_all(Err("down".to_string())).unwrap_err();
    assert_eq!(e.message(), "Failed to fetch experiences: down");
    let e = repository::get(&id, Err("down".to_string())).unwrap_err();
    assert_eq!(e.message(), "Failed to fetch experience with id 507f1f77bcf86cd799439011: down");
    let e = repository::update(&id, Err("x".to_string())).unwrap_err();
    assert_eq!(e.message(), "Failed to update experience with id 507f1f77bcf86cd799439011: x");
    let e = repository::delete(&id, Err("y".to_string())).unwrap_err();
    assert_eq!(e.message(), "Failed to delete experience with id 507f1f77bcf86cd799439011: y");
    assert_eq!(reply_deleted(Err(e)).status, 500);
}

#[test]
fn invalid_identifier_never_reaches_the_store() {
    let err = parse_object_id("not-an-id").unwrap_err();
    assert_eq!(err.kind(), ErrorKind::InvalidObjectId);
    assert_eq!(err.message(), "Invalid object id: not-an-id");
    assert_eq!(reply_found(Err(err)).status, 400);
}

#[test]
fn absent_record_is_a_404_not_a_database_error() {
    let id = parse_object_id(ID).unwrap();
    let found = repository::get(&id, Ok(None));
    assert!(matches!(found, Ok(None)));
    let reply = reply_found(found);
    assert_eq!(reply.status, 404);
    assert!(matches!(reply.body, ReplyBody::Empty));
}

#[test]
fn create_then_get_returns_the_record() {
    let e = experience("Engineer");
    assert!(check_experience(&e).is_ok());
    assert_eq!(reply_created(repository::create(Ok(()))).status, 201);
    let id = parse_object_id(ID).unwrap();
    let stored = Experience { id: Some(id), ..e.clone() };
    let reply = reply_found(repository::get(&id, Ok(Some(stored))));
    assert_eq!(reply.status, 200);
    match reply.body {
        ReplyBody::Record(r) => {
            assert_eq!(r.id, Some(id));
            assert_eq!(r.job_title, "Engineer");
            assert_eq!(r.company, e.company);
        }
        _ => panic!("expected a record"),
    }
}

#[test]
fn append_responsibility_adds_one_entry_each_time() {
    let first = append_responsibility(ID, Some(experience("Dev")), responsibility("Code")).unwrap();
    assert_eq!(first.responsibilities.len(), 1);
    let second = append_responsibility(ID, Some(first), responsibility("Review")).unwrap();
    assert_eq!(second.responsibilities.len(), 2);
    assert_eq!(second.responsibilities[0].name, "Code");
    assert_eq!(second.responsibilities[1].name, "Review");
    assert_eq!(second.job_title, "Dev");
    let id = parse_object_id(ID).unwrap();
    assert_eq!(reply_created(repository::update(&id, Ok(()))).status, 201);
}

#[test]
fn append_to_a_missing_record_is_not_found() {
    let err = append_responsibility(ID, None, responsibility("Code")).unwrap_err();
    assert!(matches!(err, AppError::NotFound(_)));
    assert_eq!(err.message(), "Experience not found: 507f1f77bcf86cd799439011");
    let skill = Skill {
        id: None,
        name: "Rust".to_string(),
        description: "Language".to_string(),
        categories: vec![],
        next: None,
    };
    let err = append_environment(ID, None, skill.clone()).unwrap_err();
    assert_eq!(err.status_code(), 404);
    let updated = append_environment(ID, Some(experience("Dev")), skill).unwrap();
    assert_eq!(updated.environment.len(), 1);
    assert_eq!(updated.environment[0].name, "Rust");
    assert!(updated.responsibilities.is_empty());
}

#[test]
fn delete_then_get_is_not_found() {
    let id = parse_object_id(ID).unwrap();
    let deleted = reply_deleted(repository::delete(&id, Ok(())));
    assert_eq!(deleted.status, 204);
    assert_eq!(reply_found(repository::get(&id, Ok(None))).status, 404);
}

#[test]
fn update_round_trip_reflects_new_fields() {
    let id = parse_object_id(ID).unwrap();
    let mut changed = experience("Senior Engineer");
    changed.location = "Remote".to_string();
    assert!(check_experience(&changed).is_ok());
    let reply = reply_updated(repository::update(&id, Ok(())));
    assert_eq!(reply.status, 200);
    let stored = Experience { id: Some(id), ..changed };
    match reply_found(repository::get(&id, Ok(Some(stored)))).body {
        ReplyBody::Record(r) => {
            assert_eq!(r.job_title, "Senior Engineer");
            assert_eq!(r.location, "Remote");
        }
        _ => panic!("expected a record"),
    }
}

#[test]
fn validation_failure_replies_400() {
    let mut e = experience("X");
    e.start_date = "2023/01/01".to_string();
    let err = check_experience(&e).unwrap_err();
    let reply = reply_created(Err(err));
    assert_eq!(reply.status, 400);
    assert!(matches!(reply.body, ReplyBody::Failure(AppError::ValidationError(_))));
}
