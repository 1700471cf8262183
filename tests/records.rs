use open_stock_core::common::{Email, Error, ErrorResponse, MobileNumber};
use open_stock_core::common::{
    verify_phone_number_with_country_code, verify_phone_number_without_country_code, Name,
};
use open_stock_core::employee::{
    check_permissions, cookie_status_wrapper, Access, Action, Employee, Session,
};
use open_stock_core::order::{Note, PickStatus};

fn session(level: Vec<Access>) -> Session {
    Session {
        id: "s".to_string(),
        key: "k".to_string(),
        employee: Employee {
            id: "e".to_string(),
            rid: "1".to_string(),
            name: Name {
                first: "A".to_string(),
                middle: String::new(),
                last: "B".to_string(),
            },
            level,
        },
        expiry: 0,
    }
}

#[test]
fn template_generation_always_allowed() {
    assert!(session(vec![]).has_permission(Action::GenerateTemplateContent));
    let zero = vec![Access { action: Action::GenerateTemplateContent, authority: 0 }];
    assert!(session(zero).has_permission(Action::GenerateTemplateContent));
}

#[test]
fn no_privileges_denies_modification() {
    assert!(!session(vec![]).has_permission(Action::ModifyTransaction));
}

#[test]
fn authority_of_first_entry_decides() {
    let level = vec![
        Access { action: Action::ModifyTransaction, authority: 0 },
        Access { action: Action::ModifyTransaction, authority: 5 },
        Access { action: Action::FetchStore, authority: 1 },
    ];
    let s = session(level);
    assert!(!s.clone().has_permission(Action::ModifyTransaction));
    assert!(s.clone().has_permission(Action::FetchStore));
    assert!(!s.has_permission(Action::FetchSupplier));
}

#[test]
fn missing_permission_message_names_action() {
    match check_permissions(&session(vec![]), Action::DeleteTransaction) {
        Err(Error::Unauthorized(e)) => {
            assert_eq!(e.message, "User lacks DeleteTransaction permission.")
        }
        _ => panic!("expected an authorisation error"),
    }
}

#[test]
fn cookie_outcomes() {
    match cookie_status_wrapper(false, None) {
        Err(Error::Unauthorized(e)) => assert_eq!(e.message, "Unable to fetch user cookie."),
        _ => panic!("expected an authorisation error"),
    }
    match cookie_status_wrapper(true, None) {
        Err(Error::Unauthorized(e)) => assert_eq!(
            e.message,
            "Unable to validate cookie, user does not have valid session."
        ),
        _ => panic!("expected an authorisation error"),
    }
    assert!(cookie_status_wrapper(true, Some(session(vec![]))).is_ok());
}

#[test]
fn error_messages() {
    match ErrorResponse::db_err("timeout") {
        Error::PersistenceFailure(e) => assert_eq!(e.message, "SQL error, reason: timeout"),
        _ => panic!("expected a persistence error"),
    }
    match ErrorResponse::input_error() {
        Error::ValidationError(e) => {
            assert_eq!(e.message, "Unable to update fields due to malformed inputs")
        }
        _ => panic!("expected a validation error"),
    }
}

#[test]
fn email_splits_at_sign() {
    let e = Email::from("jane.doe@example.com".to_string());
    assert_eq!(e.root, "jane.doe");
    assert_eq!(e.domain, "example.com");
    assert_eq!(e.full, "jane.doe@example.com");
}

#[test]
fn email_without_at_sign() {
    let e = Email::from("nobody".to_string());
    assert_eq!(e.root, "nobody");
    assert_eq!(e.domain, "");
    let e = Email::from(String::new());
    assert_eq!(e.root, "");
    assert_eq!(e.domain, "");
}

#[test]
fn email_with_two_at_signs() {
    let e = Email::from("a@b@c".to_string());
    assert_eq!(e.root, "a");
    assert_eq!(e.domain, "b");
}

#[test]
fn phone_numbers_are_checked() {
    assert!(verify_phone_number_without_country_code("555-123-4567"));
    assert!(verify_phone_number_without_country_code("(555) 123-4567"));
    assert!(!verify_phone_number_without_country_code("hello"));
    assert!(verify_phone_number_with_country_code("+61 555 123 4567"));
    assert!(!verify_phone_number_with_country_code("+61 12"));
    let m = MobileNumber::from("+1 555 123 4567".to_string());
    assert!(m.valid);
    assert_eq!(m.number, "+1 555 123 4567");
    let m = MobileNumber::from("12".to_string());
    assert!(!m.valid);
}

#[test]
fn note_text_carries_date() {
    let n = Note {
        message: "Left at door".to_string(),
        author: "x".to_string(),
        timestamp: 1_491_137_400,
    };
    assert_eq!(n.to_string().unwrap(), "02/04/2017 12:50: Left at door");
    let far = Note { message: "m".to_string(), author: "x".to_string(), timestamp: i64::MAX };
    assert!(far.to_string().is_none());
}

#[test]
fn pick_status_names() {
    assert_eq!(PickStatus::parse("picked"), Some(PickStatus::Picked));
    assert_eq!(PickStatus::parse("pending"), Some(PickStatus::Pending));
    assert_eq!(PickStatus::parse("failed"), Some(PickStatus::Failed));
    assert_eq!(PickStatus::parse("uncertain"), Some(PickStatus::Uncertain));
    assert_eq!(PickStatus::parse("processing"), Some(PickStatus::Processing));
    assert_eq!(PickStatus::parse("Picked"), None);
    assert_eq!(PickStatus::parse(""), None);
}

#[test]
fn pick_steps() {
    assert!(PickStatus::Pending.can_step_to(PickStatus::Processing));
    assert!(PickStatus::Processing.can_step_to(PickStatus::Picked));
    assert!(!PickStatus::Pending.can_step_to(PickStatus::Picked));
    assert!(PickStatus::Pending.can_step_to(PickStatus::Failed));
    assert!(PickStatus::Processing.can_step_to(PickStatus::Uncertain));
    assert!(!PickStatus::Picked.can_step_to(PickStatus::Failed));
    assert!(!PickStatus::Failed.can_step_to(PickStatus::Uncertain));
}
