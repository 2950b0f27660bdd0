use bigdecimal::BigDecimal;
use chrono::NaiveDate;
use pioki::access::PIOKIIdentifierData;
use pioki::db::{DbFailure, DbFailureKind};
use pioki::dtos::CreateUserDTO;
use pioki::models::User;
use pioki::response::{Reply, ReplyBody};
use pioki::users::{
    create_user_plan, create_user_reply, get_user_reply, get_users_reply, new_user_record,
    truncate_display_name,
};
use pioki::validation::{serialize_body_into_struct, SerializationErrorData, ValidationErrorKind};

fn user(id: i32, pioki_id: &str) -> User {
    let t = NaiveDate::from_ymd_opt(2024, 5, 1).unwrap().and_hms_opt(8, 0, 0).unwrap();
    User {
        id,
        pioki_id: pioki_id.to_string(),
        oauth_display_name: format!("name{}", id),
        oauth_profile_picture: None,
        is_active: true,
        created_at: t,
        updated_at: t,
        coin_amount: BigDecimal::from(3),
    }
}

fn text_of<T>(r: &Reply<T>) -> &str {
    match &r.body {
        ReplyBody::Text(t) => t.as_str(),
        _ => panic!("expected a text body"),
    }
}

fn message_of<T>(r: &Reply<T>) -> &str {
    match &r.body {
        ReplyBody::Json(b) => b.message.as_deref().unwrap(),
        _ => panic!("expected an envelope"),
    }
}

#[test]
fn display_name_is_cut_to_32_bytes() {
    assert_eq!(truncate_display_name("short"), "short");
    let long = "abcdefghijklmnopqrstuvwxyz0123456789";
    assert_eq!(truncate_display_name(long), "abcdefghijklmnopqrstuvwxyz012345");
    assert_eq!(truncate_display_name(long).len(), 32);
    // 16 two-byte characters make exactly 32 bytes
    let wide = "éééééééééééééééééééé";
    assert_eq!(truncate_display_name(wide), "éééééééééééééééé");
}

#[test]
fn new_users_start_active() {
    let row = new_user_record("g-1", "Alice", Some("https://x.test/a.png"));
    assert_eq!(row.pioki_id, "g-1");
    assert_eq!(row.oauth_display_name, "Alice");
    assert_eq!(row.oauth_profile_picture.as_deref(), Some("https://x.test/a.png"));
    assert!(row.is_active);
}

#[test]
fn create_user_plan_checks_body_then_caller() {
    let dto = CreateUserDTO {
        oauth_display_name: "a very long display name that goes past the limit".to_string(),
        oauth_profile_picture: None,
    };
    let valid = serialize_body_into_struct(Ok(dto.clone()));
    let row = create_user_plan(valid, Some(PIOKIIdentifierData { id: "g-9".to_string() })).unwrap();
    assert_eq!(row.oauth_display_name, "a very long display name that go");
    assert_eq!(row.pioki_id, "g-9");

    let valid = serialize_body_into_struct(Ok(dto));
    let refused = create_user_plan(valid, None).unwrap_err();
    assert_eq!(refused.status, 502);
    assert_eq!(text_of(&refused), "Bad incoming source");

    let bad = serialize_body_into_struct::<CreateUserDTO>(Err("expected value".to_string()));
    assert_eq!(
        bad,
        Err(ValidationErrorKind::SerializationError(SerializationErrorData::new("expected value".to_string())))
    );
    let refused = create_user_plan(bad, Some(PIOKIIdentifierData { id: "g".to_string() })).unwrap_err();
    assert_eq!(refused.status, 422);
    assert_eq!(text_of(&refused), "expected value");
}

#[test]
fn create_user_reply_maps_failures() {
    let ok = create_user_reply(Ok(user(1, "g-1")));
    assert_eq!(ok.status, 201);
    assert_eq!(message_of(&ok), "success");
    let dup = create_user_reply(Err(DbFailure {
        kind: DbFailureKind::UniqueViolation,
        message: "duplicate key".to_string(),
    }));
    assert_eq!(dup.status, 409);
    assert_eq!(text_of(&dup), "Identifier does already exist");
    let other = create_user_reply(Err(DbFailure { kind: DbFailureKind::Other, message: "x".to_string() }));
    assert_eq!(other.status, 500);
    assert_eq!(text_of(&other), "Something went wrong creating user");
}

#[test]
fn get_user_reply_cases() {
    let found = get_user_reply(Ok(Some(user(2, "g-2"))));
    assert_eq!(found.status, 200);
    match &found.body {
        ReplyBody::Json(b) => assert_eq!(b.data.as_ref().unwrap().id, 2),
        _ => panic!(),
    }
    let missing = get_user_reply(Ok(None));
    assert_eq!(missing.status, 404);
    assert_eq!(message_of(&missing), "Not found");
    let failed = get_user_reply(Err(DbFailure { kind: DbFailureKind::Other, message: "gone".to_string() }));
    assert_eq!(failed.status, 500);
    assert_eq!(text_of(&failed), "gone");
    let all = get_users_reply(vec![user(1, "a"), user(2, "b")]);
    assert_eq!(all.status, 200);
    match &all.body {
        ReplyBody::Json(b) => assert_eq!(b.data.as_ref().unwrap().len(), 2),
        _ => panic!(),
    }
}
