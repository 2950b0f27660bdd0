use bigdecimal::BigDecimal;
use chrono::NaiveDate;
use pioki::access::PIOKIIdentifierData;
use pioki::db::{DbFailure, DbFailureKind};
use pioki::friends::{
    friend_entries, friend_ids, friend_list_reply, friend_request_after_lookup, friend_request_reply,
    friends_of_user_query, new_friend_request, pair_friends_with_users, pending_friend_entries,
    pending_friend_requests_query, pending_friend_requests_reply, remove_friend_reply,
};
use pioki::friends::every_sender_known_checked;
use pioki::models::{clone_optional_string, Friend, User};
use pioki::response::{Reply, ReplyBody};

fn user(id: i32, pioki_id: &str, coins: i64) -> User {
    let t = NaiveDate::from_ymd_opt(2024, 5, 1).unwrap().and_hms_opt(8, 0, 0).unwrap();
    User {
        id,
        pioki_id: pioki_id.to_string(),
        oauth_display_name: format!("name{}", id),
        oauth_profile_picture: Some(format!("https://p.test/{}.png", id)),
        is_active: true,
        created_at: t,
        updated_at: t,
        coin_amount: BigDecimal::from(coins),
    }
}

fn friend(from: &str, to: &str) -> Friend {
    let t = NaiveDate::from_ymd_opt(2024, 6, 2).unwrap().and_hms_opt(9, 30, 0).unwrap();
    Friend {
        pioki_id: from.to_string(),
        pioki_friend_id: to.to_string(),
        is_blocked: false,
        aka: None,
        created_at: Some(t),
        updated_at: Some(t),
    }
}

fn text_of<T>(r: &Reply<T>) -> &str {
    match &r.body {
        ReplyBody::Text(t) => t.as_str(),
        _ => panic!("expected a text body"),
    }
}

fn message_of<T>(r: &Reply<T>) -> &str {
    match &r.body {
        ReplyBody::Json(b) => b.message.as_deref().unwrap(),
        _ => panic!("expected an envelope"),
    }
}

#[test]
fn friend_request_record() {
    let f = new_friend_request("u1", "u2");
    assert_eq!(f.pioki_id, "u1");
    assert_eq!(f.pioki_friend_id, "u2");
    assert!(!f.is_blocked);
    assert_eq!(f.aka, None);
    assert_eq!(f.created_at, None);
    assert_eq!(f.updated_at, None);
}

#[test]
fn query_texts_match_the_service_queries() {
    let id = "115";
    let pending = format!(
        "
        SELECT f1.*
        FROM friends f1
        JOIN friends f2 ON f2.pioki_id = '{}' AND f2.pioki_friend_id <> f1.pioki_id
        WHERE f1.pioki_friend_id = '{}'
        ",
        id, id
    );
    assert_eq!(pending_friend_requests_query(id), pending);
    let mutual = format!(
        "
            SELECT f1.*
            FROM friends f1
            JOIN friends f2 ON f1.pioki_id = f2.pioki_friend_id AND f1.pioki_friend_id = f2.pioki_id
            WHERE f1.pioki_id = '{}'
        ",
        id
    );
    assert_eq!(friends_of_user_query(id), mutual);
}

#[test]
fn friends_are_paired_with_last_user_of_their_id() {
    let friends = vec![friend("a", "me"), friend("b", "me"), friend("a", "me")];
    assert_eq!(friend_ids(&friends), vec!["a".to_string(), "b".to_string(), "a".to_string()]);
    let users = vec![user(1, "a", 1), user(2, "b", 2), user(3, "a", 3)];
    let pairs = pair_friends_with_users(friends.clone(), users);
    assert_eq!(pairs.len(), 3);
    assert_eq!(pairs[0].0, friends[0]);
    assert_eq!(pairs[0].1.id, 3);
    assert_eq!(pairs[1].1.id, 2);
    assert_eq!(pairs[2].1.id, 3);
}

#[test]
fn entries_show_the_right_fields() {
    let pairs = vec![(friend("a", "me"), user(4, "a", 9))];
    let pending = pending_friend_entries(pairs.clone());
    assert_eq!(pending[0].id, 4);
    assert_eq!(pending[0].pioki_id, "a");
    assert_eq!(pending[0].requested_at, pairs[0].0.created_at);
    assert_eq!(pending[0].coin_owned, BigDecimal::from(9));
    let listed = friend_entries(vec![(friend("me", "a"), user(4, "a", 9))]);
    assert_eq!(listed[0].pioki_id, "me");
    assert_eq!(listed[0].oauth_display_name, "name4");
}

#[test]
fn friend_request_lookup_and_result() {
    assert!(friend_request_after_lookup(Ok(Some(user(1, "x", 0))), "x").is_none());
    let unknown = friend_request_after_lookup(Ok(None), "zz").unwrap();
    assert_eq!(unknown.status, 404);
    assert_eq!(message_of(&unknown), "User with id:\"zz\" doesn't exist");
    let failed = friend_request_after_lookup(
        Err(DbFailure { kind: DbFailureKind::Other, message: "down".to_string() }),
        "zz",
    )
    .unwrap();
    assert_eq!(failed.status, 500);
    assert_eq!(text_of(&failed), "Something might have gone wrong . . .");

    let ok = friend_request_reply(Ok(friend("a", "b")));
    assert_eq!(ok, Reply { status: 200, body: ReplyBody::Raw(friend("a", "b")) });
    let dup = friend_request_reply(Err(DbFailure {
        kind: DbFailureKind::UniqueViolation,
        message: "dup".to_string(),
    }));
    assert_eq!(dup.status, 400);
    assert_eq!(message_of(&dup), "Request is already in pending state");
    let own = friend_request_reply(Err(DbFailure {
        kind: DbFailureKind::ForeignKeyViolation,
        message: "insert or update on table \"friends\" violates foreign key constraint \"friends_pioki_id_fkey\""
            .to_string(),
    }));
    assert_eq!(own.status, 400);
    assert_eq!(text_of(&own), "Your user_id is invalid");
    let other = friend_request_reply(Err(DbFailure {
        kind: DbFailureKind::ForeignKeyViolation,
        message: "violates \"friends_pioki_friend_id_fkey\"".to_string(),
    }));
    assert_eq!(other.status, 400);
    assert_eq!(text_of(&other), "violates \"friends_pioki_friend_id_fkey\"");
    let rolled = friend_request_reply(Err(DbFailure {
        kind: DbFailureKind::RollbackTransaction,
        message: "r".to_string(),
    }));
    assert_eq!(rolled.status, 500);
}

#[test]
fn list_replies() {
    let me = Some(PIOKIIdentifierData { id: "me".to_string() });
    let r = pending_friend_requests_reply(&me, Ok(vec![(friend("a", "me"), user(1, "a", 0))]));
    assert_eq!(r.status, 200);
    assert_eq!(message_of(&r), "success");
    let r = pending_friend_requests_reply(&None, Ok(vec![]));
    assert_eq!(r.status, 502);
    let r = pending_friend_requests_reply(&me, Err(DbFailure { kind: DbFailureKind::Other, message: String::new() }));
    assert_eq!(text_of(&r), "Bad incoming source");
    let r = friend_list_reply(Ok(vec![]));
    assert_eq!(r.status, 200);
    let r = friend_list_reply(Err(DbFailure { kind: DbFailureKind::Other, message: String::new() }));
    assert_eq!(r.status, 502);
    assert_eq!(remove_friend_reply(&me, true).status, 200);
    let r = remove_friend_reply(&me, false);
    assert_eq!(r.status, 500);
    assert_eq!(message_of(&r), "Unknown error has occured");
    assert_eq!(remove_friend_reply(&None, true).status, 502);
}

#[test]
fn every_sender_must_be_known() {
    let friends = vec![friend("a", "me"), friend("b", "me")];
    assert!(every_sender_known_checked(&friends, &vec![user(1, "b", 0), user(2, "a", 0)]));
    assert!(!every_sender_known_checked(&friends, &vec![user(1, "a", 0)]));
    assert!(every_sender_known_checked(&vec![], &vec![]));
}

#[test]
fn optional_strings_are_copied() {
    assert_eq!(clone_optional_string(&Some("x".to_string())), Some("x".to_string()));
    assert_eq!(clone_optional_string(&None), None);
}
