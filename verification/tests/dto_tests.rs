use rsmine::dto::user::{default_language, default_status};
use rsmine::dto::{CreateMemberDto, CreateUserDto, UpdateMemberDto};

fn user_dto(mail: &str, password: Option<&str>, confirmation: Option<&str>) -> CreateUserDto {
    CreateUserDto {
        login: "test".to_string(),
        firstname: "Test".to_string(),
        lastname: "User".to_string(),
        mail: mail.to_string(),
        password: password.map(|p| p.to_string()),
        password_confirmation: confirmation.map(|p| p.to_string()),
        admin: false,
        status: 1,
        language: "en".to_string(),
        generate_password: false,
        send_information: false,
    }
}

#[test]
fn create_member_request_test_validate_valid_dto() {
    let dto = CreateMemberDto {
        user_id: 1,
        role_ids: vec![1, 2],
    };
    assert!(dto.validate().is_ok());
}

#[test]
fn create_member_request_test_validate_empty_roles() {
    let dto = CreateMemberDto {
        user_id: 1,
        role_ids: vec![],
    };
    assert!(dto.validate().is_err());
    let errors = dto.validate().unwrap_err();
    assert!(errors.iter().any(|e| e.contains("At least one role")));
}

#[test]
fn test_validate_invalid_user_id() {
    let dto = CreateMemberDto {
        user_id: 0,
        role_ids: vec![1],
    };
    assert!(dto.validate().is_err());
    let errors = dto.validate().unwrap_err();
    assert!(errors.iter().any(|e| e.contains("User ID")));
}

#[test]
fn create_member_request_test_validate_invalid_role_id() {
    let dto = CreateMemberDto {
        user_id: 1,
        role_ids: vec![0, -1],
    };
    assert!(dto.validate().is_err());
    let errors = dto.validate().unwrap_err();
    assert!(errors.iter().any(|e| e.contains("role IDs")));
}

#[test]
fn update_member_request_test_validate_valid_dto() {
    let dto = UpdateMemberDto {
        role_ids: vec![1, 2, 3],
    };
    assert!(dto.validate().is_ok());
}

#[test]
fn test_validate_single_role() {
    let dto = UpdateMemberDto { role_ids: vec![1] };
    assert!(dto.validate().is_ok());
}

#[test]
fn update_member_request_test_validate_empty_roles() {
    let dto = UpdateMemberDto { role_ids: vec![] };
    assert!(dto.validate().is_err());
    let errors = dto.validate().unwrap_err();
    assert!(errors.iter().any(|e| e.contains("At least one role")));
}

#[test]
fn update_member_request_test_validate_invalid_role_id() {
    let dto = UpdateMemberDto {
        role_ids: vec![0, -1],
    };
    assert!(dto.validate().is_err());
    let errors = dto.validate().unwrap_err();
    assert!(errors.iter().any(|e| e.contains("role IDs")));
}

#[test]
fn test_default_values() {
    let dto = CreateUserDto {
        login: "test".to_string(),
        firstname: "Test".to_string(),
        lastname: "User".to_string(),
        mail: "test@example.com".to_string(),
        password: Some("password123".to_string()),
        password_confirmation: Some("password123".to_string()),
        admin: false,
        status: default_status(),
        language: default_language(),
        generate_password: false,
        send_information: false,
    };

    assert_eq!(dto.status, 1);
    assert_eq!(dto.language, "en");
    assert!(!dto.admin);
    assert!(!dto.generate_password);
}

#[test]
fn test_password_validation_with_generate_password() {
    let dto = CreateUserDto {
        login: "test".to_string(),
        firstname: "Test".to_string(),
        lastname: "User".to_string(),
        mail: "test@example.com".to_string(),
        password: None,
        password_confirmation: None,
        admin: false,
        status: 1,
        language: "en".to_string(),
        generate_password: true,
        send_information: false,
    };

    assert!(dto.validate_password_confirmation().is_ok());
}

#[test]
fn test_password_validation_mismatch() {
    let dto = user_dto("test@example.com", Some("password123"), Some("different"));
    assert!(dto.validate_password_confirmation().is_err());
}

#[test]
fn test_password_too_short() {
    let dto = user_dto("test@example.com", Some("short"), Some("short"));
    assert!(dto.validate_password_length().is_err());
}

#[test]
fn test_email_validation() {
    let valid_dto = user_dto("test@example.com", Some("password123"), Some("password123"));
    assert!(valid_dto.validate_email().is_ok());

    let invalid_dto = user_dto("invalid-email", Some("password123"), Some("password123"));
    assert!(invalid_dto.validate_email().is_err());
}

use rsmine::domain::NewIssueStatus;
use rsmine::dto::project::default_is_public;
use rsmine::dto::{
    CreateCategoryDto, CreateIssueDto, CreateIssueStatusDto, CreateProjectDto, CreateRelationDto,
    LoginRequest, UpdateCategoryDto, UpdateIssueDto, UpdateProjectDto, UpdateUserDto,
};

fn project_dto(name: &str, identifier: &str) -> CreateProjectDto {
    CreateProjectDto {
        name: name.to_string(),
        identifier: identifier.to_string(),
        description: None,
        homepage: None,
        is_public: default_is_public(),
        parent_id: None,
        inherit_members: false,
        tracker_ids: None,
    }
}

fn relation_dto(kind: &str, delay: Option<i32>) -> CreateRelationDto {
    CreateRelationDto {
        issue_to_id: 2,
        relation_type: kind.to_string(),
        delay,
    }
}

fn empty_update() -> UpdateIssueDto {
    UpdateIssueDto {
        subject: None,
        description: None,
        status_id: None,
        priority_id: None,
        tracker_id: None,
        assigned_to_id: None,
        category_id: None,
        parent_id: None,
        start_date: None,
        due_date: None,
        estimated_hours_given: false,
        done_ratio: None,
        is_private: None,
        notes: None,
        private_notes: false,
        uploads: None,
    }
}

#[test]
fn member_validation_lists_every_problem_in_order() {
    let dto = CreateMemberDto {
        user_id: -3,
        role_ids: vec![],
    };
    let errors = dto.validate().unwrap_err();
    assert_eq!(
        errors,
        vec![
            "User ID must be a positive integer".to_string(),
            "At least one role is required".to_string(),
        ]
    );
    let dto = CreateMemberDto {
        user_id: 0,
        role_ids: vec![4, 0],
    };
    assert_eq!(
        dto.validate().unwrap_err(),
        vec![
            "User ID must be a positive integer".to_string(),
            "All role IDs must be positive integers".to_string(),
        ]
    );
}

#[test]
fn user_validation_reports_the_first_broken_rule() {
    let mut dto = user_dto("test@example.com", Some("password123"), Some("password123"));
    assert_eq!(dto.validate(), Ok(()));
    dto.firstname = "   ".to_string();
    assert_eq!(dto.validate(), Err("First name cannot be blank".to_string()));
    dto.firstname = "Test".to_string();
    dto.status = 4;
    assert_eq!(
        dto.validate(),
        Err("Status must be 1 (active), 2 (registered), or 3 (locked)".to_string())
    );
    dto.status = 3;
    dto.password_confirmation = None;
    assert_eq!(
        dto.validate(),
        Err("Password confirmation is required".to_string())
    );
    dto.password = None;
    assert_eq!(
        dto.validate(),
        Err("Password is required when generate_password is false".to_string())
    );
}

#[test]
fn user_password_length_counts_bytes_and_skips_generated_passwords() {
    let dto = user_dto("a@b.c", Some("12345678"), Some("12345678"));
    assert!(dto.validate_password_length().is_ok());
    let dto = user_dto("a@b.c", Some("ééé"), Some("ééé"));
    assert_eq!(
        dto.validate_password_length(),
        Err("Password is too short (minimum is 8 characters)".to_string())
    );
    let dto = user_dto("a@b.c", Some("éééé"), Some("éééé"));
    assert!(dto.validate_password_length().is_ok());
    let mut dto = user_dto("a@b.c", Some("x"), Some("y"));
    dto.generate_password = true;
    assert!(dto.validate_password_length().is_ok());
    assert!(dto.validate_password_confirmation().is_ok());
    assert!(!dto.needs_password());
}

#[test]
fn user_fields_are_trimmed() {
    let mut dto = user_dto("  mail@example.com \n", None, None);
    dto.login = " jdoe ".to_string();
    dto.firstname = "\tJohn".to_string();
    dto.lastname = "Doe  ".to_string();
    assert_eq!(dto.trimmed_login(), "jdoe");
    assert_eq!(dto.trimmed_mail(), "mail@example.com");
    assert_eq!(dto.trimmed_firstname(), "John");
    assert_eq!(dto.trimmed_lastname(), "Doe");
}

#[test]
fn update_user_password_confirmation() {
    let mut dto = UpdateUserDto {
        login: None,
        firstname: None,
        lastname: None,
        mail: None,
        language: None,
        password: None,
        password_confirmation: None,
        admin: None,
        status: None,
    };
    assert!(!dto.has_password_update());
    assert!(dto.validate_password_confirmation().is_ok());
    dto.password = Some("newpassword".to_string());
    assert!(dto.has_password_update());
    assert!(dto.validate_password_confirmation().is_err());
    dto.password_confirmation = Some("newpassword".to_string());
    assert!(dto.validate_password_confirmation().is_ok());
}

#[test]
fn project_identifier_rules() {
    assert!(project_dto("Project", "my-project_1").validate().is_ok());
    assert_eq!(
        project_dto("Project", "  ").validate_identifier(),
        Err("Identifier cannot be blank".to_string())
    );
    assert_eq!(
        project_dto("Project", "My-Project").validate_identifier(),
        Err(
            "Identifier must contain only lowercase letters, digits, hyphens and underscores"
                .to_string()
        )
    );
    assert_eq!(
        project_dto("Project", "1project").validate_identifier(),
        Err("Identifier cannot start with a digit or hyphen".to_string())
    );
    assert_eq!(
        project_dto("Project", "-project").validate_identifier(),
        Err("Identifier cannot start with a digit or hyphen".to_string())
    );
    let long = "a".repeat(101);
    assert_eq!(
        project_dto("Project", &long).validate_identifier(),
        Err("Identifier is too long (max 100 characters)".to_string())
    );
    assert!(project_dto("Project", &"a".repeat(100)).validate_identifier().is_ok());
    assert_eq!(
        project_dto(" ", "Bad").validate(),
        Err(vec![
            "Name cannot be blank".to_string(),
            "Identifier must contain only lowercase letters, digits, hyphens and underscores"
                .to_string(),
        ])
    );
    assert!(default_is_public());
}

#[test]
fn update_project_checks_given_fields() {
    assert!(UpdateProjectDto::validate_name("Renamed").is_ok());
    assert_eq!(
        UpdateProjectDto::validate_name(&"n".repeat(256)),
        Err("Name is too long (max 255 characters)".to_string())
    );
    assert_eq!(
        UpdateProjectDto::validate_identifier("_x"),
        Ok(())
    );
}

#[test]
fn relation_validation_and_canonical_types() {
    assert!(relation_dto("relates", None).validate().is_ok());
    assert!(relation_dto("precedes", Some(2)).validate().is_ok());
    assert_eq!(
        relation_dto("parent", Some(1)).validate(),
        Err(vec![
            "Invalid relation type: parent".to_string(),
            "Delay can only be specified for precedes or follows relations".to_string(),
        ])
    );
    assert_eq!(relation_dto("duplicated", None).normalized_relation_type(), "duplicates");
    assert_eq!(relation_dto("blocked", None).normalized_relation_type(), "blocks");
    assert_eq!(relation_dto("copied_from", None).normalized_relation_type(), "copied_to");
    assert_eq!(relation_dto("follows", None).normalized_relation_type(), "follows");
    assert_eq!(relation_dto("duplicates", None).reverse_relation_type(), Some("duplicated"));
    assert_eq!(relation_dto("precedes", None).reverse_relation_type(), Some("follows"));
    assert_eq!(relation_dto("follows", None).reverse_relation_type(), Some("precedes"));
    assert_eq!(relation_dto("copied_to", None).reverse_relation_type(), None);
}

#[test]
fn login_request_needs_both_fields() {
    let ok = LoginRequest {
        username: "admin".to_string(),
        password: "secret".to_string(),
    };
    assert!(ok.validate().is_ok());
    let bad = LoginRequest {
        username: String::new(),
        password: String::new(),
    };
    assert_eq!(bad.validate().unwrap_err().len(), 2);
}

#[test]
fn category_name_rules_and_conversion() {
    let dto = CreateCategoryDto {
        name: "Backend".to_string(),
        assigned_to_id: Some(3),
    };
    assert!(dto.validate().is_ok());
    let c = dto.into_new_category(7);
    assert_eq!(c.project_id, 7);
    assert_eq!(c.name, "Backend");
    assert_eq!(c.assigned_to_id, Some(3));
    let too_long = CreateCategoryDto {
        name: "x".repeat(61),
        assigned_to_id: None,
    };
    assert!(too_long.validate().is_err());
    let update = UpdateCategoryDto {
        name: Some(String::new()),
        assigned_to_id: Some(None),
    };
    assert!(update.validate().is_err());
    let u = UpdateCategoryDto {
        name: None,
        assigned_to_id: Some(None),
    }
    .into_update();
    assert_eq!(u.name, None);
    assert_eq!(u.assigned_to_id, Some(None));
}

#[test]
fn new_issue_status_flags_default_to_false() {
    let status = NewIssueStatus::from(CreateIssueStatusDto {
        name: "Resolved".to_string(),
        is_closed: Some(true),
        is_default: None,
        default_done_ratio: Some(100),
    });
    assert_eq!(status.name, "Resolved");
    assert!(status.is_closed);
    assert!(!status.is_default);
    assert_eq!(status.position, None);
    assert_eq!(status.default_done_ratio, Some(100));
}

#[test]
fn issue_subject_rules() {
    let mut dto = CreateIssueDto {
        project_id: 1,
        tracker_id: 1,
        subject: "  A subject  ".to_string(),
        description: None,
        status_id: None,
        priority_id: None,
        assigned_to_id: None,
        category_id: None,
        parent_id: None,
        start_date: None,
        due_date: None,
        is_private: false,
        uploads: None,
    };
    assert!(dto.validate().is_ok());
    dto.subject = " \t ".to_string();
    assert_eq!(dto.validate(), Err(vec!["Subject cannot be blank".to_string()]));
    dto.subject = format!(" {} ", "s".repeat(255));
    assert!(dto.validate().is_ok());
    dto.subject = "é".repeat(128);
    assert_eq!(
        dto.validate_subject(),
        Err("Subject is too long (maximum 255 characters)".to_string())
    );
}

#[test]
fn issue_update_validation_and_changes() {
    let mut dto = empty_update();
    assert!(dto.validate().is_ok());
    assert!(!dto.has_changes());
    dto.notes = Some("   ".to_string());
    assert!(!dto.has_changes());
    dto.notes = Some("A note".to_string());
    assert!(dto.has_changes());
    let mut dto = empty_update();
    dto.subject = Some(" ".to_string());
    dto.done_ratio = Some(101);
    assert_eq!(
        dto.validate(),
        Err(vec![
            "Subject cannot be blank".to_string(),
            "Done ratio must be between 0 and 100".to_string(),
        ])
    );
    assert!(dto.has_changes());
    let mut dto = empty_update();
    dto.done_ratio = Some(100);
    assert!(dto.validate_done_ratio().is_ok());
    dto.done_ratio = Some(-1);
    assert!(dto.validate_done_ratio().is_err());
    let mut dto = empty_update();
    dto.estimated_hours_given = true;
    assert!(dto.has_changes());
}
