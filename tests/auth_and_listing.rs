use storage_server::auth::{
    check_login, local_credentials, validate_csrf, ResponseError, UserAuthError, UserModelWithPassword,
};
use storage_server::storage::{sort_listing, FileEntry, FileType, ListOptions};
use storage_server::util::JsonErrorResponse;

fn account(password: Option<String>) -> UserModelWithPassword {
    UserModelWithPassword {
        id: "u1".to_string(),
        username: "alice".to_string(),
        email: "a@example.com".to_string(),
        password,
        created_at: 1_700_000_000,
        name: None,
    }
}

#[test]
fn password_login_outcomes() {
    let hash = bcrypt::hash("hunter2", 4).unwrap();
    let ok = check_login(Some(account(Some(hash.clone()))), "hunter2", false).unwrap();
    assert_eq!(ok.id, "u1");
    assert_eq!(ok.created_at, 1_700_000_000);
    assert_eq!(check_login(Some(account(Some(hash.clone()))), "wrong", false).unwrap_err(), UserAuthError::PasswordInvalid);
    assert!(check_login(Some(account(Some(hash))), "wrong", true).is_ok());
    assert_eq!(check_login(None, "x", false).unwrap_err(), UserAuthError::UserNotFound);
    assert_eq!(check_login(Some(account(None)), "x", false).unwrap_err(), UserAuthError::PasswordInvalid);
    assert!(matches!(
        check_login(Some(account(Some("not-a-hash".to_string()))), "x", false),
        Err(UserAuthError::EncryptionError(_))
    ));
}

#[test]
fn new_local_credentials() {
    let c = local_credentials("hunter2").unwrap();
    assert_eq!(c.id.len(), 36);
    assert_eq!(c.password_hash.len(), 60);
    assert!(bcrypt::verify("hunter2", &c.password_hash).unwrap());
    assert_eq!(c.id.chars().nth(14), Some('4'));
}

#[test]
fn form_token_is_consumed_on_match() {
    let mut stored = Some("tok".to_string());
    assert!(!validate_csrf(&mut stored, "other"));
    assert_eq!(stored, Some("tok".to_string()));
    assert!(validate_csrf(&mut stored, "tok"));
    assert_eq!(stored, None);
    assert!(!validate_csrf(&mut stored, "tok"));
}

#[test]
fn auth_error_codes_messages_and_statuses() {
    let e = UserAuthError::DatabaseError("timeout".to_string());
    assert_eq!(e.get_err_code(), "DATABASE_ERROR");
    assert_eq!(e.get_err_msg(), "Error from database: timeout");
    assert_eq!(e.get_response_code(), 500);
    assert_eq!(UserAuthError::UserNotFound.get_response_code(), 404);
    assert_eq!(UserAuthError::UserAlreadyExists.get_err_code(), "USER_EXISTS");
    assert_eq!(UserAuthError::UserAlreadyExists.get_response_code(), 409);
    assert_eq!(UserAuthError::PasswordInvalid.get_response_code(), 401);
    assert_eq!(UserAuthError::EncryptionError("x".to_string()).get_err_msg(), "Error occurred during password encryption");
    let body = UserAuthError::PasswordInvalid.into_response_err();
    assert_eq!(body.code, "PASSWORD_INVALID");
    assert_eq!(body.message, "Password is invalid or incorrect");
}

#[test]
fn response_error_bodies_and_statuses() {
    let nf = JsonErrorResponse { code: "FILE_NOT_FOUND".to_string(), message: "gone".to_string() };
    assert_eq!(ResponseError::NotFound(nf.clone()).get_http_status(), 404);
    assert_eq!(ResponseError::NotFound(nf).into_res_err().code, "FILE_NOT_FOUND");
    assert_eq!(ResponseError::CSRFError.get_http_status(), 401);
    assert_eq!(ResponseError::CSRFError.into_res_err().code, "CSRF_VALIDATION_FAILED");
    let generic = ResponseError::GenericError.into_res_err();
    assert_eq!(generic.code, "INTERNAL_SERVER_ERROR");
    assert_eq!(generic.message, "An unknown error occurred");
    assert_eq!(ResponseError::AuthError(UserAuthError::UserAlreadyExists).get_http_status(), 409);
}

fn entry(path: &str, size: u64, t: FileType) -> FileEntry {
    FileEntry { path: path.to_string(), size, _type: t }
}

fn names(v: &[FileEntry]) -> Vec<&str> {
    v.iter().map(|e| e.path.as_str()).collect()
}

fn sample() -> Vec<FileEntry> {
    vec![
        entry("b.txt", 30, FileType::File),
        entry("docs", 0, FileType::Folder),
        entry("a.txt", 50, FileType::File),
        entry("c.txt", 10, FileType::File),
        entry("assets", 0, FileType::Folder),
    ]
}

#[test]
fn listing_sorted_by_name_folders_first() {
    let v = sort_listing(sample(), ListOptions::default()).unwrap();
    assert_eq!(names(&v), vec!["assets", "docs", "a.txt", "b.txt", "c.txt"]);
}

#[test]
fn listing_sorted_by_size_descending() {
    let opts = ListOptions { sort_field: Some("size".to_string()), sort_descending: Some(true) };
    let v = sort_listing(sample(), opts).unwrap();
    assert_eq!(names(&v), vec!["a.txt", "b.txt", "c.txt", "assets", "docs"]);
}

#[test]
fn listing_defaults_to_name_and_refuses_other_fields() {
    let opts = ListOptions { sort_field: None, sort_descending: None };
    assert_eq!(names(&sort_listing(sample(), opts).unwrap()), vec!["assets", "docs", "a.txt", "b.txt", "c.txt"]);
    let bad = ListOptions { sort_field: Some("last_modified".to_string()), sort_descending: None };
    assert!(sort_listing(sample(), bad).is_err());
    assert!(sort_listing(vec![], ListOptions::default()).unwrap().is_empty());
}

#[test]
fn equal_sizes_keep_input_order_and_descending_reverses() {
    let list = vec![
        entry("x", 10, FileType::File),
        entry("y", 5, FileType::File),
        entry("z", 10, FileType::File),
        entry("w", 5, FileType::File),
    ];
    let asc = ListOptions { sort_field: Some("size".to_string()), sort_descending: Some(false) };
    assert_eq!(names(&sort_listing(list.clone(), asc).unwrap()), vec!["y", "w", "x", "z"]);
    let desc = ListOptions { sort_field: Some("size".to_string()), sort_descending: Some(true) };
    assert_eq!(names(&sort_listing(list, desc).unwrap()), vec!["z", "x", "w", "y"]);
}

#[test]
fn names_compare_by_bytes() {
    let list = vec![entry("b", 0, FileType::File), entry("B", 0, FileType::File), entry("ab", 0, FileType::File), entry("a", 0, FileType::File), entry("é", 0, FileType::File)];
    assert_eq!(names(&sort_listing(list, ListOptions::default()).unwrap()), vec!["B", "a", "ab", "b", "é"]);
}
