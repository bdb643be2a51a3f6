use rust_server::errors::{AppError, ErrorKind};
use rust_server::handlers::{check_experience, check_responsibility, check_skill};
use rust_server::models::{is_date, Category, Experience, Responsibility, Skill};

fn experience(start: &str, end: &str) -> Experience {
    Experience {
        id: None,
        job_title: "Test Job Title".to_string(),
        company: "Test Company".to_string(),
        location: "Test Location".to_string(),
        start_date: start.to_string(),
        end_date: end.to_string(),
        responsibilities: vec![],
        environment: vec![],
    }
}

#[test]
fn valid_experience_passes() {
    assert_eq!(experience("2023-01-01", "2023-12-31").validate(), Ok(()));
    assert!(check_experience(&experience("2023-01-01", "2023-12-31")).is_ok());
}

#[test]
fn dates_are_checked_for_shape_only() {
    assert!(is_date("2023-01-01"));
    assert!(is_date("9999-99-99"));
    assert!(!is_date("2023/01/01"));
    assert!(!is_date("23-01-01"));
    assert!(!is_date("2023-01-01 "));
    assert!(!is_date(""));
    // end before start is accepted
    assert!(experience("2024-01-01", "2020-01-01").validate().is_ok());
}

#[test]
fn malformed_date_is_a_validation_error() {
    let e = experience("2023/01/01", "2023-12-31");
    assert_eq!(
        e.validate(),
        Err("start_date: Start date must be in YYYY-MM-DD format".to_string())
    );
    let err = check_experience(&e).unwrap_err();
    assert_eq!(err.kind(), ErrorKind::ValidationError);
    assert_eq!(err.status_code(), 400);
}

#[test]
fn all_violations_are_reported_together() {
    let mut e = experience("2023-01-01", "31-12-2023");
    e.job_title = String::new();
    e.location = String::new();
    assert_eq!(
        e.validate(),
        Err("job_title: Job title is required; location: Location is required; \
             end_date: End date must be in YYYY-MM-DD format"
            .to_string())
    );
    let e2 = Experience {
        id: None,
        job_title: String::new(),
        company: String::new(),
        location: String::new(),
        start_date: String::new(),
        end_date: String::new(),
        responsibilities: vec![],
        environment: vec![],
    };
    let msg = e2.validate().unwrap_err();
    assert_eq!(msg.matches("; ").count(), 4);
}

#[test]
fn responsibility_needs_a_name() {
    let ok = Responsibility { id: None, name: "Lead".to_string(), next: None };
    assert_eq!(ok.validate(), Ok(()));
    let bad = Responsibility { id: None, name: String::new(), next: None };
    assert_eq!(bad.validate(), Err("name: Responsibility name is required".to_string()));
    assert!(matches!(check_responsibility(&bad), Err(AppError::ValidationError(_))));
}

#[test]
fn skill_needs_name_and_description() {
    let ok = Skill {
        id: None,
        name: "Rust".to_string(),
        description: "Systems language".to_string(),
        categories: vec![Category { id: None, name: String::new() }],
        next: None,
    };
    assert_eq!(ok.validate(), Ok(()));
    assert!(check_skill(&ok).is_ok());
    let bad = Skill { description: String::new(), ..ok.clone() };
    assert_eq!(bad.validate(), Err("description: Skill description is required".to_string()));
    let worse = Skill { name: String::new(), ..bad.clone() };
    assert_eq!(
        worse.validate(),
        Err("name: Skill name is required; description: Skill description is required".to_string())
    );
}

#[test]
fn date_verdicts_are_taken_as_given() {
    let e = experience("not a date", "also not");
    assert_eq!(e.validate_given(true, true), Ok(()));
    assert_eq!(
        e.validate_given(true, false),
        Err("end_date: End date must be in YYYY-MM-DD format".to_string())
    );
    let mut blank = experience("2023-01-01", "2023-01-01");
    blank.company = String::new();
    assert_eq!(
        blank.validate_given(false, true),
        Err("company: Company name is required; start_date: Start date must be in YYYY-MM-DD format"
            .to_string())
    );
}
