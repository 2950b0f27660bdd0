use pioki::dtos::{CreatePostDTO, CreateUserDTO};
use pioki::response::ReplyBody;
use pioki::validation::{
    serialize_body_into_struct, throw_error_response_based_on_validation_error_kind, Validate,
    ValidationErrorData, ValidationErrorKind,
};

fn post(content: &str, picture: Option<&str>, spoiler: Option<&str>) -> CreatePostDTO {
    CreatePostDTO {
        content: content.to_string(),
        quota_limit: 3,
        oauth_profile_picture: picture.map(|s| s.to_string()),
        spoiler_header: spoiler.map(|s| s.to_string()),
    }
}

#[test]
fn valid_post_passes() {
    assert!(post("hello", Some("https://pioki.test/p.png"), Some("abc")).validate().is_ok());
    assert!(post("x", None, None).validate().is_ok());
}

#[test]
fn empty_content_is_refused() {
    let e = post("", None, None).validate().unwrap_err();
    assert_eq!(e.field_errors.len(), 1);
    let f = &e.field_errors[0];
    assert_eq!(f.field, "content");
    assert_eq!(f.code, "length");
    assert_eq!(f.message, "Content data cannot be empty");
    assert_eq!(f.min, Some(1));
    assert_eq!(f.max, None);
}

#[test]
fn spoiler_header_bounds() {
    assert!(post("c", None, Some("ab")).validate().is_err());
    assert!(post("c", None, Some("abc")).validate().is_ok());
    assert!(post("c", None, Some(&"x".repeat(50))).validate().is_ok());
    let e = post("c", None, Some(&"x".repeat(51))).validate().unwrap_err();
    assert_eq!(e.field_errors[0].field, "spoiler_header");
    assert_eq!(e.field_errors[0].min, Some(3));
    assert_eq!(e.field_errors[0].max, Some(50));
    // characters, not bytes, are counted
    assert!(post("c", None, Some("ééé")).validate().is_ok());
}

#[test]
fn bad_url_is_refused_and_errors_keep_field_order() {
    let e = post("", Some("not a url"), Some("ab")).validate().unwrap_err();
    let fields: Vec<&str> = e.field_errors.iter().map(|f| f.field.as_str()).collect();
    assert_eq!(fields, vec!["content", "oauth_profile_picture", "spoiler_header"]);
    assert_eq!(e.field_errors[1].code, "url");
    assert_eq!(e.field_errors[1].message, "The url is invalid");
    assert_eq!(e.field_errors[1].value, "not a url");
}

#[test]
fn user_display_name_needs_three_characters() {
    let short = CreateUserDTO { oauth_display_name: "ab".to_string(), oauth_profile_picture: None };
    let e = short.validate().unwrap_err();
    assert_eq!(e.field_errors[0].message, "Should have atleast 3 characters");
    let ok = CreateUserDTO { oauth_display_name: "abc".to_string(), oauth_profile_picture: None };
    assert!(ok.validate().is_ok());
}

#[test]
fn refused_bodies_are_answered() {
    let r = serialize_body_into_struct(Ok(post("", None, None)));
    let kind = r.unwrap_err();
    let expected_errors = post("", None, None).validate().unwrap_err();
    assert_eq!(kind, ValidationErrorKind::ValidationError(ValidationErrorData::new(expected_errors.clone())));
    let reply = throw_error_response_based_on_validation_error_kind::<()>(kind);
    assert_eq!(reply.status, 400);
    match reply.body {
        ReplyBody::Json(b) => {
            assert_eq!(b.response_type.as_deref(), Some("Validation error"));
            assert_eq!(b.message, None);
            assert_eq!(b.validation_errors_by_field, Some(expected_errors));
            assert!(b.data.is_none());
        }
        _ => panic!("expected an envelope"),
    }
    let ok = serialize_body_into_struct(Ok(post("fine", None, None)));
    assert_eq!(ok, Ok(post("fine", None, None)));
}
