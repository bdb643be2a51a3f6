use vstd::prelude::*;
use crate::object_id::ObjectId;

verus! {

/// The pattern that start and end dates must match.
pub const DATE_PATTERN: &'static str = "^\\d{4}-\\d{2}-\\d{2}$";

/// Whether the regular expression `pattern` compiles and matches somewhere in `text`.
pub uninterp spec fn regex_is_match(pattern: Seq<char>, text: Seq<char>) -> bool;

/// Relies on regex's `Regex::new` and `Regex::is_match`: a pattern that does
/// not compile matches nothing.
#[verifier::external_body]
fn matches_pattern(pattern: &str, text: &str) -> (r: bool)
    ensures
        r == regex_is_match(pattern@, text@),
{
    match regex::Regex::new(pattern) {
        Ok(re) => re.is_match(text),
        Err(_) => false,
    }
}

/// A date in the form `YYYY-MM-DD` (shape only, not calendar validity).
pub open spec fn is_date_text(s: Seq<char>) -> bool {
    regex_is_match(DATE_PATTERN@, s)
}

/// Checks a date's shape.
pub fn is_date(s: &str) -> (r: bool)
    ensures
        r == is_date_text(s@),
{
    matches_pattern(DATE_PATTERN, s)
}

/// The messages `[m]` when `bad`, else none.
pub open spec fn flagged(bad: bool, m: Seq<char>) -> Seq<Seq<char>> {
    if bad {
        seq![m]
    } else {
        seq![]
    }
}

/// Messages joined with `"; "` between consecutive ones.
pub open spec fn joined(parts: Seq<Seq<char>>) -> Seq<char>
    decreases parts.len(),
{
    if parts.len() == 0 {
        seq![]
    } else if parts.len() == 1 {
        parts[0]
    } else {
        joined(parts.drop_last()) + "; "@ + parts.last()
    }
}

fn flag(msgs: &mut Vec<String>, bad: bool, m: &str)
    ensures
        final(msgs)@.map_values(|s: String| s@) == old(msgs)@.map_values(|s: String| s@) + flagged(
            bad,
            m@,
        ),
{
    if bad {
        msgs.push(String::from_str(m));
        assert(final(msgs)@.map_values(|s: String| s@) =~= old(msgs)@.map_values(|s: String| s@)
            + flagged(bad, m@));
    } else {
        assert(final(msgs)@.map_values(|s: String| s@) =~= old(msgs)@.map_values(|s: String| s@)
            + flagged(bad, m@));
    }
}

fn join_messages(msgs: &Vec<String>) -> (r: String)
    ensures
        r@ == joined(msgs@.map_values(|s: String| s@)),
{
    let ghost parts = msgs@.map_values(|s: String| s@);
    let mut out = String::new();
    let mut i: usize = 0;
    while i < msgs.len()
        invariant
            i <= msgs.len(),
            parts == msgs@.map_values(|s: String| s@),
            out@ == joined(parts.take(i as int)),
        decreases msgs.len() - i,
    {
        if i > 0 {
            out.append("; ");
        }
        out.append(msgs[i].as_str());
        proof {
            let t = parts.take(i as int + 1);
            assert(t.drop_last() =~= parts.take(i as int));
            if i == 0 {
                assert(t.len() == 1);
                assert(joined(parts.take(0)) =~= seq![]);
                assert(out@ =~= t[0]);
            }
        }
        i = i + 1;
    }
    assert(parts.take(msgs.len() as int) =~= parts);
    out
}

/// A label attached to a skill.
#[derive(Debug, Clone)]
pub struct Category {
    pub id: Option<ObjectId>,
    pub name: String,
}

pub struct CategoryView {
    pub id: Option<ObjectId>,
    pub name: Seq<char>,
}

impl View for Category {
    type V = CategoryView;

    open spec fn view(&self) -> CategoryView {
        CategoryView { id: self.id, name: self.name@ }
    }
}

/// One duty held in a position; `next` is an unchecked link to another one.
#[derive(Debug, Clone)]
pub struct Responsibility {
    pub id: Option<ObjectId>,
    pub name: String,
    pub next: Option<ObjectId>,
}

pub struct ResponsibilityView {
    pub id: Option<ObjectId>,
    pub name: Seq<char>,
    pub next: Option<ObjectId>,
}

impl View for Responsibility {
    type V = ResponsibilityView;

    open spec fn view(&self) -> ResponsibilityView {
        ResponsibilityView { id: self.id, name: self.name@, next: self.next }
    }
}

/// A skill or tool of a position's environment.
#[derive(Debug, Clone)]
pub struct Skill {
    pub id: Option<ObjectId>,
    pub name: String,
    pub description: String,
    pub categories: Vec<Category>,
    pub next: Option<ObjectId>,
}

pub struct SkillView {
    pub id: Option<ObjectId>,
    pub name: Seq<char>,
    pub description: Seq<char>,
    pub categories: Seq<CategoryView>,
    pub next: Option<ObjectId>,
}

impl View for Skill {
    type V = SkillView;

    open spec fn view(&self) -> SkillView {
        SkillView {
            id: self.id,
            name: self.name@,
            description: self.description@,
            categories: self.categories@.map_values(|c: Category| c@),
            next: self.next,
        }
    }
}

/// One work-history entry, owning its responsibilities and environment.
#[derive(Debug, Clone)]
pub struct Experience {
    pub id: Option<ObjectId>,
    pub job_title: String,
    pub company: String,
    pub location: String,
    pub start_date: String,
    pub end_date: String,
    pub responsibilities: Vec<Responsibility>,
    pub environment: Vec<Skill>,
}

pub struct ExperienceView {
    pub id: Option<ObjectId>,
    pub job_title: Seq<char>,
    pub company: Seq<char>,
    pub location: Seq<char>,
    pub start_date: Seq<char>,
    pub end_date: Seq<char>,
    pub responsibilities: Seq<ResponsibilityView>,
    pub environment: Seq<SkillView>,
}

impl View for Experience {
    type V = ExperienceView;

    open spec fn view(&self) -> ExperienceView {
        ExperienceView {
            id: self.id,
            job_title: self.job_title@,
            company: self.company@,
            location: self.location@,
            start_date: self.start_date@,
            end_date: self.end_date@,
            responsibilities: self.responsibilities@.map_values(|r: Responsibility| r@),
            environment: self.environment@.map_values(|s: Skill| s@),
        }
    }
}

/// The violated rules of an experience, one message each, in field order,
/// given whether each date has the required shape.
pub open spec fn violations_given(e: ExperienceView, start_ok: bool, end_ok: bool) -> Seq<Seq<char>> {
    flagged(e.job_title.len() == 0, "job_title: Job title is required"@)
        + flagged(e.company.len() == 0, "company: Company name is required"@)
        + flagged(e.location.len() == 0, "location: Location is required"@)
        + flagged(!start_ok, "start_date: Start date must be in YYYY-MM-DD format"@)
        + flagged(!end_ok, "end_date: End date must be in YYYY-MM-DD format"@)
}

/// The violated rules of an experience, one message each, in field order.
pub open spec fn experience_violations(e: ExperienceView) -> Seq<Seq<char>> {
    violations_given(e, is_date_text(e.start_date), is_date_text(e.end_date))
}

/// The violated rules of a responsibility.
pub open spec fn responsibility_violations(r: ResponsibilityView) -> Seq<Seq<char>> {
    flagged(r.name.len() == 0, "name: Responsibility name is required"@)
}

/// The violated rules of a skill.
pub open spec fn skill_violations(s: SkillView) -> Seq<Seq<char>> {
    flagged(s.name.len() == 0, "name: Skill name is required"@) + flagged(
        s.description.len() == 0,
        "description: Skill description is required"@,
    )
}

impl ExperienceView {
    /// Title, company and location are non-empty and both dates are `YYYY-MM-DD`.
    pub open spec fn is_valid(self) -> bool {
        &&& self.job_title.len() > 0
        &&& self.company.len() > 0
        &&& self.location.len() > 0
        &&& is_date_text(self.start_date)
        &&& is_date_text(self.end_date)
    }
}

impl ResponsibilityView {
    pub open spec fn is_valid(self) -> bool {
        self.name.len() > 0
    }
}

impl SkillView {
    pub open spec fn is_valid(self) -> bool {
        self.name.len() > 0 && self.description.len() > 0
    }
}

/// Ok when nothing is violated; else every violation's message, joined.
pub open spec fn validation(violations: Seq<Seq<char>>) -> Result<(), Seq<char>> {
    if violations.len() == 0 {
        Ok(())
    } else {
        Err(joined(violations))
    }
}

/// The view of a validation outcome.
pub open spec fn validation_view(r: Result<(), String>) -> Result<(), Seq<char>> {
    match r {
        Ok(()) => Ok(()),
        Err(m) => Err(m@),
    }
}

fn outcome(msgs: Vec<String>) -> (r: Result<(), String>)
    ensures
        validation_view(r) == validation(msgs@.map_values(|s: String| s@)),
{
    if msgs.len() == 0 {
        Ok(())
    } else {
        Err(join_messages(&msgs))
    }
}

impl Experience {
    /// Checks every field rule, reporting all violations at once, given
    /// whether the start and end dates have the required shape.
    pub fn validate_given(&self, start_ok: bool, end_ok: bool) -> (r: Result<(), String>)
        ensures
            validation_view(r) == validation(violations_given(self@, start_ok, end_ok)),
    {
        let mut msgs: Vec<String> = Vec::new();
        flag(&mut msgs, self.job_title.as_str().is_empty(), "job_title: Job title is required");
        flag(&mut msgs, self.company.as_str().is_empty(), "company: Company name is required");
        flag(&mut msgs, self.location.as_str().is_empty(), "location: Location is required");
        flag(&mut msgs, !start_ok, "start_date: Start date must be in YYYY-MM-DD format");
        flag(&mut msgs, !end_ok, "end_date: End date must be in YYYY-MM-DD format");
        assert(msgs@.map_values(|s: String| s@) =~= violations_given(self@, start_ok, end_ok));
        outcome(msgs)
    }

    /// Checks every field rule, reporting all violations at once.
    pub fn validate(&self) -> (r: Result<(), String>)
        ensures
            validation_view(r) == validation(experience_violations(self@)),
            r is Ok <==> self@.is_valid(),
    {
        let start_ok = is_date(self.start_date.as_str());
        let end_ok = is_date(self.end_date.as_str());
        let r = self.validate_given(start_ok, end_ok);
        assert(experience_violations(self@).len() == 0 <==> self@.is_valid());
        r
    }
}

impl Responsibility {
    pub fn validate(&self) -> (r: Result<(), String>)
        ensures
            validation_view(r) == validation(responsibility_violations(self@)),
            r is Ok <==> self@.is_valid(),
    {
        let mut msgs: Vec<String> = Vec::new();
        flag(&mut msgs, self.name.as_str().is_empty(), "name: Responsibility name is required");
        assert(msgs@.map_values(|s: String| s@) =~= responsibility_violations(self@));
        outcome(msgs)
    }
}

impl Skill {
    /// Checks name and description; categories carry no rules.
    pub fn validate(&self) -> (r: Result<(), String>)
        ensures
            validation_view(r) == validation(skill_violations(self@)),
            r is Ok <==> self@.is_valid(),
    {
        let mut msgs: Vec<String> = Vec::new();
        flag(&mut msgs, self.name.as_str().is_empty(), "name: Skill name is required");
        flag(
            &mut msgs,
            self.description.as_str().is_empty(),
            "description: Skill description is required",
        );
        assert(msgs@.map_values(|s: String| s@) =~= skill_violations(self@));
        outcome(msgs)
    }
}

} // verus!
