use pioki::access::{
    identifier_extractor, identity_reply, oauth_credential_reply, valid_incoming_source_checker,
    PIOKIIdentifierData, PortalAuthenticated, ProviderPayload, TokenClaims,
};
use pioki::dtos::{
    statistic_data_reply, RelationshipCheckResponseDTO, RelationshipStatus, StatisticDataOutput,
};
use pioki::response::{data_reply, message_reply, text_reply, Reply, ReplyBody, ResponseToUserEnd};

#[test]
fn identifier_comes_from_the_header() {
    assert_eq!(identifier_extractor(Some("abc")), Some(PIOKIIdentifierData { id: "abc".to_string() }));
    assert_eq!(identifier_extractor(None), None);
}

#[test]
fn access_key_must_match_exactly() {
    let s = valid_incoming_source_checker(Some(b"k3y".as_slice()), "k3y");
    assert!(s.unwrap().is_authenticated());
    assert!(valid_incoming_source_checker(Some(b"k3".as_slice()), "k3y").is_none());
    assert!(valid_incoming_source_checker(Some(b"k3yy".as_slice()), "k3y").is_none());
    assert!(valid_incoming_source_checker(None, "k3y").is_none());
    assert!(valid_incoming_source_checker(Some("é".as_bytes()), "é").is_some());
}

#[test]
fn portal_authentication() {
    let s = valid_incoming_source_checker(Some(b"k".as_slice()), "k");
    assert_eq!(PortalAuthenticated::from_request(s), Ok(PortalAuthenticated(true)));
    let r = PortalAuthenticated::from_request(None).unwrap_err();
    assert_eq!(r.status, 403);
    assert_eq!(
        r.body,
        ReplyBody::Text("Request not authorized. Must interact with API's via web-browser".to_string())
    );
}

#[test]
fn oauth_replies() {
    let r = oauth_credential_reply(None);
    assert_eq!(r, Reply { status: 401, body: ReplyBody::Text("No authorization header found".to_string()) });
    let r = oauth_credential_reply(Some(Err(())));
    assert_eq!(r, Reply { status: 401, body: ReplyBody::Text("Invalid given authorization header".to_string()) });
    let r = oauth_credential_reply(Some(Ok(TokenClaims {
        email: Some("a@b.test".to_string()),
        sub: "123".to_string(),
    })));
    assert_eq!(
        r,
        Reply {
            status: 200,
            body: ReplyBody::Raw(ProviderPayload { email: "a@b.test".to_string(), id: "123".to_string() })
        }
    );
    assert_eq!(
        identity_reply(Some(PIOKIIdentifierData { id: "me".to_string() })),
        Reply { status: 200, body: ReplyBody::Raw("me".to_string()) }
    );
    assert_eq!(identity_reply(None).status, 502);
}

#[test]
fn relationship_names() {
    assert_eq!(RelationshipStatus::Requested.to_string(), "requested");
    assert_eq!(RelationshipStatus::Friended.to_string(), "friended");
    assert_eq!(RelationshipStatus::Pending.to_string(), "pending");
    assert_eq!(RelationshipStatus::Unrelated.to_string(), "none");
    assert_eq!(RelationshipCheckResponseDTO::default().status, "");
}

#[test]
fn envelopes() {
    let m = ResponseToUserEnd::<u8>::only_this_message("hello");
    assert_eq!(
        m,
        ResponseToUserEnd { response_type: None, message: Some("hello".to_string()), validation_errors_by_field: None, data: None }
    );
    let mut m = ResponseToUserEnd::<u8>::only_this_message("success");
    m.with_data(5).with_data(6);
    assert_eq!(m.data, Some(6));
    assert_eq!(m.message.as_deref(), Some("success"));
    assert_eq!(ResponseToUserEnd::<u8>::default().message, None);
    assert_eq!(text_reply::<u8>(418, "t").body, ReplyBody::Text("t".to_string()));
    assert_eq!(message_reply::<u8>(200, "m").body, ReplyBody::Json(ResponseToUserEnd::only_this_message("m")));
    let d = data_reply(200, "success", 9u8);
    match d.body {
        ReplyBody::Json(b) => assert_eq!(b.data, Some(9)),
        _ => panic!(),
    }
}

#[test]
fn statistics() {
    let zero = StatisticDataOutput::default();
    assert_eq!(zero.total_user, 0);
    assert_eq!(zero.total_post_passed_along, 0);
    let data = StatisticDataOutput { total_user: 3, total_created_post: 4, total_post_kept: 2, total_post_passed_along: 1 };
    let r = statistic_data_reply(data);
    assert_eq!(r.status, 200);
    match r.body {
        ReplyBody::Json(b) => assert_eq!(b.data, Some(data)),
        _ => panic!(),
    }
}
