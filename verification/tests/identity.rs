use fishy_edge::utils::{
    e400, e500, get_optional_user_id, get_user_id, parse_user_id, Cause, HttpError, BAD_REQUEST,
    INTERNAL_SERVER_ERROR, NOT_ACCEPTABLE, OK, UNAUTHORIZED,
};

const VALUE: u128 = 0xa1a2a3a4b1b2c1c2d1d2d3d4d5d6d7d8;

fn malformed() -> HttpError {
    HttpError { status: 400, cause: Cause::MalformedUserId }
}

#[test]
fn the_status_codes_are_the_usual_ones() {
    assert_eq!((OK, BAD_REQUEST, UNAUTHORIZED, NOT_ACCEPTABLE, INTERNAL_SERVER_ERROR), (200, 400, 401, 406, 500));
}

#[test]
fn e500_and_e400_keep_the_cause() {
    assert_eq!(e500(Cause::StorageFailed), HttpError { status: 500, cause: Cause::StorageFailed });
    assert_eq!(e400(Cause::PasswordsDiffer), HttpError { status: 400, cause: Cause::PasswordsDiffer });
}

#[test]
fn a_hyphenated_uuid_is_read() {
    assert_eq!(parse_user_id("a1a2a3a4-b1b2-c1c2-d1d2-d3d4d5d6d7d8"), Ok(VALUE));
    assert_eq!(get_user_id(Some("a1a2a3a4-b1b2-c1c2-d1d2-d3d4d5d6d7d8")), Ok(VALUE));
    assert_eq!(get_optional_user_id(Some("a1a2a3a4-b1b2-c1c2-d1d2-d3d4d5d6d7d8")), Ok(Some(VALUE)));
}

#[test]
fn the_other_forms_of_a_uuid_are_read_too() {
    assert_eq!(parse_user_id("a1a2a3a4b1b2c1c2d1d2d3d4d5d6d7d8"), Ok(VALUE));
    assert_eq!(parse_user_id("A1A2A3A4-B1B2-C1C2-D1D2-D3D4D5D6D7D8"), Ok(VALUE));
    assert_eq!(parse_user_id("urn:uuid:a1a2a3a4-b1b2-c1c2-d1d2-d3d4d5d6d7d8"), Ok(VALUE));
    assert_eq!(parse_user_id("{a1a2a3a4-b1b2-c1c2-d1d2-d3d4d5d6d7d8}"), Ok(VALUE));
    assert_eq!(parse_user_id("00000000-0000-0000-0000-000000000000"), Ok(0));
    assert_eq!(parse_user_id("ffffffff-ffff-ffff-ffff-ffffffffffff"), Ok(u128::MAX));
    assert_eq!(parse_user_id("00000000-0000-0000-0000-000000000001"), Ok(1));
}

#[test]
fn the_library_reads_what_the_uuid_crate_reads() {
    for text in ["67e55044-10b1-426f-9247-bb680e5fe0c8", "67e5504410b1426f9247bb680e5fe0c8", "nope", ""] {
        let expected = uuid::Uuid::parse_str(text).ok().map(|id| id.as_u128());
        assert_eq!(parse_user_id(text).ok(), expected);
    }
    let id = uuid::Uuid::new_v4();
    assert_eq!(parse_user_id(&id.to_string()), Ok(id.as_u128()));
    assert_eq!(uuid::Uuid::from_u128(parse_user_id(&id.to_string()).unwrap()), id);
}

#[test]
fn a_malformed_user_id_is_a_bad_request() {
    assert_eq!(get_user_id(Some("not-a-uuid")), Err(malformed()));
    assert_eq!(get_user_id(Some("")), Err(malformed()));
    assert_eq!(get_user_id(Some("a1a2a3a4-b1b2-c1c2-d1d2-d3d4d5d6d7d")), Err(malformed()));
    assert_eq!(get_user_id(Some("a1a2a3a4-b1b2-c1c2-d1d2-d3d4d5d6d7d8 ")), Err(malformed()));
    assert_eq!(get_user_id(Some("g1a2a3a4-b1b2-c1c2-d1d2-d3d4d5d6d7d8")), Err(malformed()));
}

#[test]
fn a_missing_required_user_id_is_a_server_error() {
    assert_eq!(get_user_id(None), Err(HttpError { status: 500, cause: Cause::MissingUserId }));
}

#[test]
fn a_malformed_optional_user_id_is_a_bad_request() {
    assert_eq!(get_optional_user_id(Some("1234")), Err(malformed()));
    assert_eq!(get_optional_user_id(Some("1234")).unwrap_err().status, 400);
}

#[test]
fn an_absent_optional_user_id_is_no_identity() {
    assert_eq!(get_optional_user_id(None), Ok(None));
}
