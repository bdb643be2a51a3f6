//! The service layer's decisions: resolving external identifiers and the
//! read-modify-write appends to a record's nested lists.
use vstd::prelude::*;
use crate::errors::{AppError, ErrorKind, ErrorView, error_of};
use crate::models::{Experience, ExperienceView, Responsibility, ResponsibilityView, Skill, SkillView};
use crate::object_id::{ObjectId, parse_id};
use crate::repository::{map_result, found_view, record_view};

verus! {

/// A malformed identifier is rejected before any store call.
pub open spec fn resolve_outcome(id: Seq<char>) -> Result<ObjectId, ErrorView> {
    match parse_id(id) {
        Some(o) => Ok(o),
        None => Err(error_of(ErrorKind::InvalidObjectId, "Invalid object id: "@ + id)),
    }
}

/// The not-found error of an append whose record is absent.
pub open spec fn missing_record(id: Seq<char>) -> ErrorView {
    error_of(ErrorKind::NotFound, "Experience not found: "@ + id)
}

/// The record with one more responsibility at the end of its list.
pub open spec fn with_responsibility(e: ExperienceView, r: ResponsibilityView) -> ExperienceView {
    ExperienceView { responsibilities: e.responsibilities.push(r), ..e }
}

/// The record with one more skill at the end of its environment.
pub open spec fn with_skill(e: ExperienceView, s: SkillView) -> ExperienceView {
    ExperienceView { environment: e.environment.push(s), ..e }
}

pub open spec fn append_responsibility_outcome(
    id: Seq<char>,
    found: Option<ExperienceView>,
    r: ResponsibilityView,
) -> Result<ExperienceView, ErrorView> {
    match found {
        Some(e) => Ok(with_responsibility(e, r)),
        None => Err(missing_record(id)),
    }
}

pub open spec fn append_skill_outcome(
    id: Seq<char>,
    found: Option<ExperienceView>,
    s: SkillView,
) -> Result<ExperienceView, ErrorView> {
    match found {
        Some(e) => Ok(with_skill(e, s)),
        None => Err(missing_record(id)),
    }
}

/// Resolves an external identifier to the store's identifier.
pub fn parse_object_id(id: &str) -> (r: Result<ObjectId, AppError>)
    ensures
        map_result(r, |o: ObjectId| o) == resolve_outcome(id@),
{
    match ObjectId::parse_str(id) {
        Some(o) => Ok(o),
        None => {
            let mut m = String::from_str("Invalid object id: ");
            m.append(id);
            Err(AppError::InvalidObjectId(m))
        },
    }
}

fn not_found(id: &str) -> (r: AppError)
    ensures
        r@ == missing_record(id@),
{
    let mut m = String::from_str("Experience not found: ");
    m.append(id);
    AppError::NotFound(m)
}

/// Given what reading the record `id` found, the record to write back with
/// `responsibility` appended, or not-found.
pub fn append_responsibility(id: &str, found: Option<Experience>, responsibility: Responsibility) -> (r:
    Result<Experience, AppError>)
    ensures
        map_result(r, |e: Experience| record_view(e)) == append_responsibility_outcome(
            id@,
            found_view(found),
            responsibility@,
        ),
{
    match found {
        Some(mut e) => {
            let ghost before = e@;
            e.responsibilities.push(responsibility);
            assert(e@.responsibilities =~= before.responsibilities.push(responsibility@));
            assert(e@ == with_responsibility(before, responsibility@));
            Ok(e)
        },
        None => Err(not_found(id)),
    }
}

/// Given what reading the record `id` found, the record to write back with
/// `skill` appended to its environment, or not-found.
pub fn append_environment(id: &str, found: Option<Experience>, skill: Skill) -> (r: Result<
    Experience,
    AppError,
>)
    ensures
        map_result(r, |e: Experience| record_view(e)) == append_skill_outcome(
            id@,
            found_view(found),
            skill@,
        ),
{
    match found {
        Some(mut e) => {
            let ghost before = e@;
            e.environment.push(skill);
            assert(e@.environment =~= before.environment.push(skill@));
            assert(e@ == with_skill(before, skill@));
            Ok(e)
        },
        None => Err(not_found(id)),
    }
}

} // verus!
