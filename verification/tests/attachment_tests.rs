use rsmine::domain::{
    Attachment, CurrentUser, Issue, Project, StorageConfig, StorageError, User,
};
use rsmine::errors::ApplicationError;
use rsmine::use_cases::attachment::download_attachment::{
    content_type_of_extension, detect_content_type,
};
use rsmine::use_cases::attachment::get_attachment::{content_url, is_image_content_type};
use rsmine::domain::SaveResult;
use rsmine::use_cases::attachment::upload_file::token_from_uuid_text;
use rsmine::use_cases::attachment::{
    DeleteAttachmentUseCase, GetAttachmentUseCase, UpdateAttachmentDto, UploadFileUseCase,
};

fn attachment(container: Option<(&str, i32)>, content_type: Option<&str>) -> Attachment {
    Attachment {
        id: 7,
        container_id: container.map(|c| c.1),
        container_type: container.map(|c| c.0.to_string()),
        filename: "my report.pdf".to_string(),
        disk_filename: "260101_abc.pdf".to_string(),
        disk_directory: Some("2026/01".to_string()),
        filesize: 1234,
        content_type: content_type.map(|c| c.to_string()),
        digest: Some("d1g357".to_string()),
        description: None,
        author_id: 3,
        created_on: None,
    }
}

fn user(admin: bool) -> CurrentUser {
    CurrentUser {
        id: 2,
        login: "someone".to_string(),
        admin,
    }
}

fn project(id: i32, is_public: bool) -> Project {
    Project {
        id,
        name: "Project".to_string(),
        is_public,
        status: 1,
    }
}

#[test]
fn test_application_error_not_found() {
    let err = ApplicationError::NotFound("Attachment 123 not found".to_string());
    assert!(err.to_string().contains("not found"));
}

#[test]
fn test_application_error_forbidden() {
    let err = ApplicationError::Forbidden("Permission denied".to_string());
    assert!(err.to_string().contains("Permission denied"));
}

#[test]
fn test_detect_content_type_pdf() {
    assert_eq!(detect_content_type("document.pdf"), "application/pdf");
}

#[test]
fn test_detect_content_type_image() {
    assert_eq!(detect_content_type("image.png"), "image/png");
    assert_eq!(detect_content_type("photo.jpg"), "image/jpeg");
    assert_eq!(detect_content_type("photo.jpeg"), "image/jpeg");
    assert_eq!(detect_content_type("animation.gif"), "image/gif");
}

#[test]
fn test_detect_content_type_text() {
    assert_eq!(detect_content_type("notes.txt"), "text/plain");
    assert_eq!(detect_content_type("data.csv"), "text/csv");
}

#[test]
fn test_detect_content_type_office() {
    assert_eq!(
        detect_content_type("document.docx"),
        "application/vnd.openxmlformats-officedocument.wordprocessingml.document"
    );
    assert_eq!(
        detect_content_type("spreadsheet.xlsx"),
        "application/vnd.openxmlformats-officedocument.spreadsheetml.sheet"
    );
}

#[test]
fn test_detect_content_type_unknown() {
    assert_eq!(detect_content_type("unknown.xyz"), "application/octet-stream");
    assert_eq!(detect_content_type("noextension"), "application/octet-stream");
}

#[test]
fn test_is_image_content_type() {
    assert!(is_image_content_type(Some("image/png")));
    assert!(is_image_content_type(Some("image/jpeg")));
    assert!(is_image_content_type(Some("image/gif")));
    assert!(is_image_content_type(Some("image/webp")));
    assert!(!is_image_content_type(Some("image/svg+xml")));
    assert!(!is_image_content_type(Some("image/x-icon")));
    assert!(!is_image_content_type(Some("application/pdf")));
    assert!(!is_image_content_type(None));
}

#[test]
fn test_update_attachment_dto_validation() {
    let dto = UpdateAttachmentDto {
        description: Some("A valid description".to_string()),
    };
    assert!(dto.validate().is_ok());

    let dto = UpdateAttachmentDto { description: None };
    assert!(dto.validate().is_ok());

    let dto = UpdateAttachmentDto {
        description: Some("a".repeat(255)),
    };
    assert!(dto.validate().is_ok());

    let dto = UpdateAttachmentDto {
        description: Some("a".repeat(256)),
    };
    assert!(dto.validate().is_err());
}

#[test]
fn content_type_detection_ignores_case_and_uses_last_extension() {
    assert_eq!(detect_content_type("SCAN.PDF"), "application/pdf");
    assert_eq!(detect_content_type("archive.tar.gz"), "application/gzip");
    assert_eq!(detect_content_type(".hidden"), "application/octet-stream");
}

#[test]
fn every_error_kind_has_its_display_prefix() {
    let cases = vec![
        (ApplicationError::NotFound("x".to_string()), "Entity not found: x"),
        (ApplicationError::Validation("x".to_string()), "Validation failed: x"),
        (ApplicationError::PermissionDenied("x".to_string()), "Permission denied: x"),
        (ApplicationError::AlreadyExists("x".to_string()), "Entity already exists: x"),
        (ApplicationError::Authentication("x".to_string()), "Authentication failed: x"),
        (ApplicationError::Unauthorized("x".to_string()), "Unauthorized: x"),
        (ApplicationError::Forbidden("x".to_string()), "Forbidden: x"),
        (ApplicationError::Internal("x".to_string()), "Internal error: x"),
    ];
    for (err, text) in cases {
        assert_eq!(err.to_string(), text);
        assert_eq!(err.message(), "x");
    }
}

#[test]
fn content_url_percent_encodes_the_file_name() {
    assert_eq!(
        content_url("http://localhost:3000", 7, "my report ü.pdf"),
        "http://localhost:3000/attachments/download/7/my%20report%20%C3%BC.pdf"
    );
}

#[test]
fn get_attachment_links_and_thumbnails() {
    let uc = GetAttachmentUseCase::new("https://host".to_string());
    let author = Some(User {
        id: 3,
        login: "jdoe".to_string(),
        firstname: "John".to_string(),
        lastname: "Doe".to_string(),
        admin: false,
        status: 1,
        hashed_password: None,
        salt: None,
        created_on: None,
        updated_on: None,
        last_login_on: None,
        passwd_changed_on: None,
        twofa_scheme: None,
    });
    let r = uc.build_response(attachment(Some(("Issue", 1)), Some("image/png")), &author);
    assert_eq!(
        r.attachment.content_url,
        "https://host/attachments/download/7/my%20report.pdf"
    );
    assert_eq!(
        r.attachment.thumbnail_url,
        Some("https://host/attachments/thumbnail/7".to_string())
    );
    assert_eq!(r.attachment.author.name, "John Doe");
    let r = uc.build_response(attachment(Some(("Issue", 1)), Some("image/svg+xml")), &None);
    assert_eq!(r.attachment.thumbnail_url, None);
    assert_eq!(r.attachment.author.id, 3);
    assert_eq!(r.attachment.author.name, "User 3");
}

#[test]
fn upload_tokens_are_uuids_without_hyphens() {
    assert_eq!(
        token_from_uuid_text("67e55044-10b1-426f-9247-bb680e5fe0c8"),
        "67e5504410b1426f9247bb680e5fe0c8"
    );
    assert_eq!(token_from_uuid_text("a-b--c"), "abc");
    assert_eq!(token_from_uuid_text(""), "");
}

#[test]
fn upload_record_keeps_the_file_under_its_token() {
    let uc = UploadFileUseCase::new(StorageConfig {
        path: "/tmp/files".to_string(),
        max_file_size: 100,
    });
    let t = uc.temp_upload(
        "tok".to_string(),
        "a.txt".to_string(),
        36,
        Some("text/plain".to_string()),
        &user(false),
        SaveResult {
            disk_directory: "2026/01".to_string(),
            disk_filename: "x_a.txt".to_string(),
            digest: "abc".to_string(),
        },
    );
    assert_eq!(t.token, "tok");
    assert_eq!(t.filename, "a.txt");
    assert_eq!(t.filesize, 36);
    assert_eq!(t.author_id, 2);
    assert_eq!(t.disk_filename, "x_a.txt");
    assert_eq!(t.digest, Some("abc".to_string()));
    assert_eq!(t.lifetime_hours, 24);
}

#[test]
fn upload_size_limit() {
    let uc = UploadFileUseCase::new(StorageConfig {
        path: "/tmp/files".to_string(),
        max_file_size: 10,
    });
    assert!(uc.check_file_size(10).is_ok());
    let err = uc.check_file_size(11).unwrap_err();
    assert_eq!(err.message(), "File size exceeds maximum of 10 bytes");
    assert!(matches!(err, ApplicationError::Validation(_)));
    let err = uc.save_error(StorageError::Io("disk full".to_string()));
    assert!(matches!(err, ApplicationError::Internal(_)));
    assert_eq!(err.message(), "Failed to save file: disk full");
    let err = uc.save_error(StorageError::InvalidFilename("bad name".to_string()));
    assert!(matches!(err, ApplicationError::Validation(_)));
}

#[test]
fn delete_permission_follows_the_container() {
    let uc = DeleteAttachmentUseCase::new();
    let on_issue = attachment(Some(("Issue", 5)), None);
    let issue = Some(Issue {
        id: 5,
        project_id: 9,
        tracker_id: 1,
        status_id: 1,
        priority_id: 2,
        author_id: 3,
        assigned_to_id: None,
        category_id: None,
        parent_id: None,
        subject: "S".to_string(),
        description: None,
        start_date: None,
        due_date: None,
        done_ratio: 0,
        is_private: false,
        created_on: None,
        updated_on: None,
        closed_on: None,
    });
    assert!(uc
        .check_delete_permission(&on_issue, &user(true), &None, false, &None)
        .is_ok());
    assert!(uc
        .check_delete_permission(&on_issue, &user(false), &issue, true, &None)
        .is_ok());
    assert!(uc
        .check_delete_permission(&on_issue, &user(false), &issue, false, &Some(project(9, true)))
        .is_ok());
    let err = uc
        .check_delete_permission(&on_issue, &user(false), &issue, false, &Some(project(9, false)))
        .unwrap_err();
    assert!(matches!(err, ApplicationError::Forbidden(_)));
    let err = uc
        .check_delete_permission(&on_issue, &user(false), &None, false, &None)
        .unwrap_err();
    assert!(matches!(err, ApplicationError::NotFound(_)));
    let orphan = attachment(None, None);
    let err = uc
        .check_delete_permission(&orphan, &user(false), &None, false, &None)
        .unwrap_err();
    assert!(matches!(err, ApplicationError::Forbidden(_)));
    assert!(uc.should_delete_file(&on_issue, false));
    assert!(!uc.should_delete_file(&on_issue, true));
}

#[test]
fn content_type_of_an_extension() {
    assert_eq!(content_type_of_extension(Some("JPG")), "image/jpeg");
    assert_eq!(content_type_of_extension(Some("Mp4")), "video/mp4");
    assert_eq!(content_type_of_extension(Some("")), "application/octet-stream");
    assert_eq!(content_type_of_extension(None), "application/octet-stream");
}

#[test]
fn content_type_of_names_with_directories() {
    assert_eq!(detect_content_type("docs/report.pdf"), "application/pdf");
    assert_eq!(detect_content_type("a/b.PNG/"), "image/png");
    assert_eq!(detect_content_type("x/y.txt/."), "text/plain");
    assert_eq!(detect_content_type("a/.."), "application/octet-stream");
    assert_eq!(detect_content_type("dir.pdf/readme"), "application/octet-stream");
}
