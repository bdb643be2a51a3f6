//! What the repository makes of each store reply. The store calls themselves
//! are made by the caller, which hands over the reply, or the driver's
//! failure text.
use vstd::prelude::*;
use crate::errors::{AppError, ErrorKind, ErrorView, error_of};
use crate::models::{Experience, ExperienceView};
use crate::object_id::{ObjectId, hex_text};

verus! {

/// A result's view, with `f` applied to the success value.
pub open spec fn map_result<T, U, E: View>(r: Result<T, E>, f: spec_fn(T) -> U) -> Result<U, E::V> {
    match r {
        Ok(v) => Ok(f(v)),
        Err(e) => Err(e@),
    }
}

pub open spec fn unit(u: ()) -> () {
    u
}

pub open spec fn records_view(v: Vec<Experience>) -> Seq<ExperienceView> {
    v@.map_values(|e: Experience| e@)
}

pub open spec fn found_view(o: Option<Experience>) -> Option<ExperienceView> {
    match o {
        Some(e) => Some(e@),
        None => None,
    }
}

pub open spec fn record_view(e: Experience) -> ExperienceView {
    e@
}

/// A store failure, reported as a database error with what was being done.
pub open spec fn store_failure(context: Seq<char>, text: Seq<char>) -> ErrorView {
    error_of(ErrorKind::DatabaseError, context + text)
}

/// The context of a failure on the document `id`.
pub open spec fn on_id(what: Seq<char>, id: ObjectId) -> Seq<char> {
    what + hex_text(id.bytes@) + ": "@
}

pub open spec fn create_outcome(res: Result<(), Seq<char>>) -> Result<(), ErrorView> {
    match res {
        Ok(()) => Ok(()),
        Err(t) => Err(store_failure("Failed to create experience: "@, t)),
    }
}

/// Listing fails with not-found on an empty collection.
pub open spec fn list_outcome(res: Result<Seq<ExperienceView>, Seq<char>>) -> Result<
    Seq<ExperienceView>,
    ErrorView,
> {
    match res {
        Ok(docs) => if docs.len() == 0 {
            Err(error_of(ErrorKind::NotFound, "No experiences found"@))
        } else {
            Ok(docs)
        },
        Err(t) => Err(store_failure("Failed to fetch experiences: "@, t)),
    }
}

/// A missing document is no error here.
pub open spec fn get_outcome(id: ObjectId, res: Result<Option<ExperienceView>, Seq<char>>) -> Result<
    Option<ExperienceView>,
    ErrorView,
> {
    match res {
        Ok(found) => Ok(found),
        Err(t) => Err(store_failure(on_id("Failed to fetch experience with id "@, id), t)),
    }
}

pub open spec fn update_outcome(id: ObjectId, res: Result<(), Seq<char>>) -> Result<(), ErrorView> {
    match res {
        Ok(()) => Ok(()),
        Err(t) => Err(store_failure(on_id("Failed to update experience with id "@, id), t)),
    }
}

pub open spec fn delete_outcome(id: ObjectId, res: Result<(), Seq<char>>) -> Result<(), ErrorView> {
    match res {
        Ok(()) => Ok(()),
        Err(t) => Err(store_failure(on_id("Failed to delete experience with id "@, id), t)),
    }
}

fn database_error(context: &str, text: String) -> (r: AppError)
    ensures
        r@ == store_failure(context@, text@),
{
    let mut m = String::from_str(context);
    m.append(text.as_str());
    AppError::DatabaseError(m)
}

fn database_error_on(what: &str, id: &ObjectId, text: String) -> (r: AppError)
    ensures
        r@ == store_failure(on_id(what@, *id), text@),
{
    let mut m = String::from_str(what);
    let hex = id.to_hex();
    m.append(hex.as_str());
    m.append(": ");
    m.append(text.as_str());
    proof {
        assert(m@ =~= on_id(what@, *id) + text@);
    }
    AppError::DatabaseError(m)
}

/// Outcome of inserting a record.
pub fn create(res: Result<(), String>) -> (r: Result<(), AppError>)
    ensures
        map_result(r, |u: ()| unit(u)) == create_outcome(map_result(res, |u: ()| unit(u))),
{
    match res {
        Ok(()) => Ok(()),
        Err(t) => Err(database_error("Failed to create experience: ", t)),
    }
}

/// Outcome of reading every record: an empty collection is reported as not found.
pub fn find_all(res: Result<Vec<Experience>, String>) -> (r: Result<Vec<Experience>, AppError>)
    ensures
        map_result(r, |v: Vec<Experience>| records_view(v)) == list_outcome(
            map_result(res, |v: Vec<Experience>| records_view(v)),
        ),
        res is Ok && r is Ok ==> r->Ok_0 == res->Ok_0,
{
    match res {
        Ok(docs) => {
            if docs.len() == 0 {
                Err(AppError::NotFound(String::from_str("No experiences found")))
            } else {
                Ok(docs)
            }
        },
        Err(t) => Err(database_error("Failed to fetch experiences: ", t)),
    }
}

/// Outcome of reading one record: absence is a successful `None`.
pub fn get(id: &ObjectId, res: Result<Option<Experience>, String>) -> (r: Result<
    Option<Experience>,
    AppError,
>)
    ensures
        map_result(r, |o: Option<Experience>| found_view(o)) == get_outcome(
            *id,
            map_result(res, |o: Option<Experience>| found_view(o)),
        ),
        res is Ok ==> r is Ok && r->Ok_0 == res->Ok_0,
{
    match res {
        Ok(found) => Ok(found),
        Err(t) => Err(database_error_on("Failed to fetch experience with id ", id, t)),
    }
}

/// Outcome of replacing a record; a filter that matched nothing is no error.
pub fn update(id: &ObjectId, res: Result<(), String>) -> (r: Result<(), AppError>)
    ensures
        map_result(r, |u: ()| unit(u)) == update_outcome(*id, map_result(res, |u: ()| unit(u))),
{
    match res {
        Ok(()) => Ok(()),
        Err(t) => Err(database_error_on("Failed to update experience with id ", id, t)),
    }
}

/// Outcome of removing a record; a filter that matched nothing is no error.
pub fn delete(id: &ObjectId, res: Result<(), String>) -> (r: Result<(), AppError>)
    ensures
        map_result(r, |u: ()| unit(u)) == delete_outcome(*id, map_result(res, |u: ()| unit(u))),
{
    match res {
        Ok(()) => Ok(()),
        Err(t) => Err(database_error_on("Failed to delete experience with id ", id, t)),
    }
}

} // verus!
