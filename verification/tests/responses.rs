use fishy_edge::routes::favorite::favorite_recipe;
use fishy_edge::routes::login::post::{login_body, LoginBody, LoginResponse, UserData};
use fishy_edge::routes::presign_s3::{
    presign_request, presign_s3, presigned, File, Presign, S3Settings, EXPIRY_SECS,
};
use fishy_edge::utils::{lookup_status, store_status, Cause, HttpError, StorageFailed, StoreAnswer};

fn profile() -> UserData {
    UserData {
        weight: Some(70),
        age: Some(33),
        sex: Some("Female".to_string()),
        plan_to_get_pregnant: None,
        portion_size: Some(3),
        image_url: None,
        first_name: Some("Ada".to_string()),
        last_name: None,
    }
}

fn settings() -> S3Settings {
    S3Settings {
        bucket: "fish-images".to_string(),
        region: "us-east-1".to_string(),
        access_key_id: "SECRET-REDACTED".to_string(),
        secret_access_key: "wJalrXUtnFEMI/K7MDENG/bPxRfiCYEXAMPLEKEY".to_string(),
    }
}

#[test]
fn a_write_is_ok_or_a_server_error() {
    assert_eq!(store_status(StoreAnswer::Done), 200);
    assert_eq!(store_status(StoreAnswer::Failed), 500);
    assert_eq!(store_status(StoreAnswer::RowNotFound), 500);
}

#[test]
fn a_row_that_is_not_there_is_a_bad_request() {
    assert_eq!(lookup_status(StoreAnswer::Done), 200);
    assert_eq!(lookup_status(StoreAnswer::RowNotFound), 400);
    assert_eq!(lookup_status(StoreAnswer::Failed), 500);
}

#[test]
fn a_favorite_needs_a_user_id() {
    assert_eq!(favorite_recipe(None), Err(HttpError { status: 400, cause: Cause::MissingUserId }));
    assert_eq!(
        favorite_recipe(Some("not-a-uuid")),
        Err(HttpError { status: 400, cause: Cause::MalformedUserId })
    );
    assert_eq!(favorite_recipe(Some("00000000-0000-0000-0000-00000000002a")), Ok(42));
}

#[test]
fn a_login_is_answered_with_the_profile_where_it_can_be_read() {
    let response = LoginResponse { user_id: 5, is_admin: true };
    assert_eq!(
        login_body(response, Ok(profile())),
        LoginBody::WithProfile { user_id: 5, is_admin: true, data: profile() }
    );
    assert_eq!(login_body(response, Err(StorageFailed)), LoginBody::Bare(5, true));
}

#[test]
fn an_upload_url_is_good_for_a_day() {
    assert_eq!(EXPIRY_SECS, 86400);
    let file = File { name: "herring.png".to_string() };
    let url = presign_s3(&settings(), &file).unwrap().url;
    assert!(url.starts_with("https://"));
    assert!(url.contains("fish-images"));
    assert!(url.contains("herring.png"));
    assert!(url.contains("X-Amz-Expires=86400"));
    assert!(url.contains("SECRET-REDACTED"));
    assert!(!url.contains("wJalrXUtnFEMI"));
}

#[test]
fn the_signer_is_asked_for_the_file_and_one_day() {
    let settings = settings();
    let file = File { name: "walleye/photo 1.png".to_string() };
    let request = presign_request(&settings, &file);
    assert_eq!(request.path, "walleye/photo 1.png");
    assert_eq!(request.expiry_secs, 86400);
    assert_eq!(request.settings.bucket, "fish-images");
    assert_eq!(request.settings.region, "us-east-1");
    assert_eq!(request.settings.access_key_id, "SECRET-REDACTED");
    assert_eq!(request.settings.secret_access_key, "wJalrXUtnFEMI/K7MDENG/bPxRfiCYEXAMPLEKEY");
}

#[test]
fn a_signing_that_brought_nothing_is_a_server_error() {
    assert_eq!(presigned(Some("https://example.com/x".to_string())), Ok(Presign { url: "https://example.com/x".to_string() }));
    assert_eq!(presigned(None), Err(HttpError { status: 500, cause: Cause::PresignFailed }));
}
