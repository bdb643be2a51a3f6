//! The request boundary: input checks before any store call, and the reply
//! (status and body) for each operation's outcome.
use vstd::prelude::*;
use crate::errors::{AppError, ErrorKind, ErrorView, error_of, kind_status};
use crate::models::{
    Experience,
    ExperienceView,
    Responsibility,
    Skill,
    experience_violations,
    responsibility_violations,
    skill_violations,
    validation,
    validation_view,
};
use crate::repository::{map_result, unit, found_view, records_view};

verus! {

/// A failed validation becomes a validation error with the joined messages.
pub open spec fn checked(v: Result<(), Seq<char>>) -> Result<(), ErrorView> {
    match v {
        Ok(()) => Ok(()),
        Err(m) => Err(error_of(ErrorKind::ValidationError, m)),
    }
}

fn to_validation_error(v: Result<(), String>) -> (r: Result<(), AppError>)
    ensures
        map_result(r, |u: ()| unit(u)) == checked(validation_view(v)),
{
    match v {
        Ok(()) => Ok(()),
        Err(m) => Err(AppError::ValidationError(m)),
    }
}

/// Checks an experience body before it is created or replaces a record.
pub fn check_experience(e: &Experience) -> (r: Result<(), AppError>)
    ensures
        map_result(r, |u: ()| unit(u)) == checked(validation(experience_violations(e@))),
        r is Ok <==> e@.is_valid(),
{
    to_validation_error(e.validate())
}

/// Checks a responsibility body before it is appended.
pub fn check_responsibility(r0: &Responsibility) -> (r: Result<(), AppError>)
    ensures
        map_result(r, |u: ()| unit(u)) == checked(validation(responsibility_violations(r0@))),
        r is Ok <==> r0@.is_valid(),
{
    to_validation_error(r0.validate())
}

/// Checks a skill body before it is appended.
pub fn check_skill(s: &Skill) -> (r: Result<(), AppError>)
    ensures
        map_result(r, |u: ()| unit(u)) == checked(validation(skill_violations(s@))),
        r is Ok <==> s@.is_valid(),
{
    to_validation_error(s.validate())
}

/// What a reply carries besides its status.
#[derive(Debug, Clone)]
pub enum ReplyBody {
    Empty,
    Record(Experience),
    Records(Vec<Experience>),
    Failure(AppError),
}

/// The status and body answering one request.
#[derive(Debug, Clone)]
pub struct Reply {
    pub status: u16,
    pub body: ReplyBody,
}

/// The status of a reply that reports `e`, or `ok` on success.
pub open spec fn status_of<T>(r: Result<T, ErrorView>, ok: u16) -> u16 {
    match r {
        Ok(_) => ok,
        Err(e) => kind_status(e.kind),
    }
}

/// The status of a get-by-id reply: 200 when found, 404 when absent.
pub open spec fn found_status(r: Result<Option<ExperienceView>, ErrorView>) -> u16 {
    match r {
        Ok(Some(_)) => 200,
        Ok(None) => 404,
        Err(e) => kind_status(e.kind),
    }
}

fn failure(e: AppError) -> (r: Reply)
    ensures
        r.status == kind_status(e@.kind),
        r.body == ReplyBody::Failure(e),
{
    Reply { status: e.status_code(), body: ReplyBody::Failure(e) }
}

fn empty_or_failure(res: Result<(), AppError>, ok: u16) -> (r: Reply)
    ensures
        r.status == status_of(map_result(res, |u: ()| unit(u)), ok),
        res is Ok ==> r.body == ReplyBody::Empty,
        res is Err ==> r.body == ReplyBody::Failure(res->Err_0),
{
    match res {
        Ok(()) => Reply { status: ok, body: ReplyBody::Empty },
        Err(e) => failure(e),
    }
}

/// Reply to a create: 201 with no body.
pub fn reply_created(res: Result<(), AppError>) -> (r: Reply)
    ensures
        r.status == status_of(map_result(res, |u: ()| unit(u)), 201),
        res is Ok ==> r.body == ReplyBody::Empty,
        res is Err ==> r.body == ReplyBody::Failure(res->Err_0),
{
    empty_or_failure(res, 201)
}

/// Reply to a replace: 200 with no body.
pub fn reply_updated(res: Result<(), AppError>) -> (r: Reply)
    ensures
        r.status == status_of(map_result(res, |u: ()| unit(u)), 200),
        res is Ok ==> r.body == ReplyBody::Empty,
        res is Err ==> r.body == ReplyBody::Failure(res->Err_0),
{
    empty_or_failure(res, 200)
}

/// Reply to a delete: 204 with no body.
pub fn reply_deleted(res: Result<(), AppError>) -> (r: Reply)
    ensures
        r.status == status_of(map_result(res, |u: ()| unit(u)), 204),
        res is Ok ==> r.body == ReplyBody::Empty,
        res is Err ==> r.body == ReplyBody::Failure(res->Err_0),
{
    empty_or_failure(res, 204)
}

/// Reply to a listing: 200 with every record.
pub fn reply_listed(res: Result<Vec<Experience>, AppError>) -> (r: Reply)
    ensures
        r.status == status_of(map_result(res, |v: Vec<Experience>| records_view(v)), 200),
        res is Ok ==> r.body == ReplyBody::Records(res->Ok_0),
        res is Err ==> r.body == ReplyBody::Failure(res->Err_0),
{
    match res {
        Ok(docs) => Reply { status: 200, body: ReplyBody::Records(docs) },
        Err(e) => failure(e),
    }
}

/// Reply to a get-by-id: 200 with the record, or 404 with no body.
pub fn reply_found(res: Result<Option<Experience>, AppError>) -> (r: Reply)
    ensures
        r.status == found_status(map_result(res, |o: Option<Experience>| found_view(o))),
        res is Ok && res->Ok_0 is Some ==> r.body == ReplyBody::Record(res->Ok_0->Some_0),
        res is Ok && res->Ok_0 is None ==> r.body == ReplyBody::Empty,
        res is Err ==> r.body == ReplyBody::Failure(res->Err_0),
{
    match res {
        Ok(Some(e)) => Reply { status: 200, body: ReplyBody::Record(e) },
        Ok(None) => Reply { status: 404, body: ReplyBody::Empty },
        Err(e) => failure(e),
    }
}

} // verus!
