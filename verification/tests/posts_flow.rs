use bigdecimal::BigDecimal;
use chrono::{NaiveDate, NaiveDateTime};
use pioki::access::PIOKIIdentifierData;
use pioki::db::{DbFailure, DbFailureKind};
use pioki::dtos::CreatePostDTO;
use pioki::keeping::PostKeepingError;
use pioki::models::{NewPost, Post, PostKeeper, User};
use pioki::posts::{
    create_post_plan, create_post_reply, keep_post_reply, kept_post_entries, kept_post_ids, kept_post_ids_reply,
    kept_posts_reply, new_post_record, pass_post_reply, post_entries, post_feeds_query, post_lookup_plan,
    post_ownership_reply, post_request_plan, user_posts_reply, PostLookupWhereClause, PostQueryPlan,
};
use pioki::response::{Reply, ReplyBody};
use pioki::validation::serialize_body_into_struct;

fn at(h: u32) -> NaiveDateTime {
    NaiveDate::from_ymd_opt(2024, 7, 3).unwrap().and_hms_opt(h, 0, 0).unwrap()
}

fn user(id: i32, pioki_id: &str) -> User {
    User {
        id,
        pioki_id: pioki_id.to_string(),
        oauth_display_name: "n".to_string(),
        oauth_profile_picture: None,
        is_active: false,
        created_at: at(1),
        updated_at: at(2),
        coin_amount: BigDecimal::from(0),
    }
}

fn post(id: i32, creator: &str) -> Post {
    Post {
        id,
        creator_id: creator.to_string(),
        spoiler_header: Some("spoiler".to_string()),
        origin_quota_limit: 5,
        quota_left: 2,
        content: "secret".to_string(),
        created_at: at(3),
        updated_at: at(4),
    }
}

fn keeper(id: i32, post_id: i32) -> PostKeeper {
    PostKeeper { id, pioki_id: "me".to_string(), post_id, pass_along_at: None, created_at: at(5), updated_at: at(6) }
}

fn text_of<T>(r: &Reply<T>) -> &str {
    match &r.body {
        ReplyBody::Text(t) => t.as_str(),
        _ => panic!("expected a text body"),
    }
}

fn message_of<T>(r: &Reply<T>) -> &str {
    match &r.body {
        ReplyBody::Json(b) => b.message.as_deref().unwrap(),
        _ => panic!("expected an envelope"),
    }
}

fn dto(quota: u32) -> CreatePostDTO {
    CreatePostDTO { content: "hi".to_string(), quota_limit: quota, oauth_profile_picture: None, spoiler_header: None }
}

#[test]
fn new_post_gets_its_whole_quota() {
    let row = new_post_record("me".to_string(), dto(4));
    assert_eq!(
        row,
        NewPost {
            content: "hi".to_string(),
            creator_id: "me".to_string(),
            origin_quota_limit: 4,
            quota_left: 4,
            spoiler_header: None
        }
    );
    // a quota past i32::MAX wraps as the cast does
    let big = new_post_record("me".to_string(), dto(u32::MAX));
    assert_eq!(big.origin_quota_limit, -1);
}

#[test]
fn lookup_plan() {
    assert_eq!(
        post_lookup_plan(Some(PostLookupWhereClause { user_id: Some("u".to_string()) })),
        PostQueryPlan { creator_id: Some("u".to_string()), newest_first: true }
    );
    assert_eq!(
        post_lookup_plan(Some(PostLookupWhereClause { user_id: None })),
        PostQueryPlan { creator_id: None, newest_first: true }
    );
    assert_eq!(post_lookup_plan(None), PostQueryPlan { creator_id: None, newest_first: false });
}

#[test]
fn feed_query_text() {
    let user_id = "42";
    let expected = format!("
                SELECT p.id,p.creator_id, p.spoiler_header, CASE 
                WHEN pk.post_id IS NOT NULL THEN p.content 
                ELSE '#!@#$%-System-Encrypted-#!@#$%' 
                END as content, p.origin_quota_limit,p.quota_left,p.created_at,p.updated_at, u.oauth_display_name, u.oauth_profile_picture
        FROM public.posts p
        LEFT JOIN 
            public.post_keepers pk ON p.id = pk.post_id AND pk.pioki_id = '111610436275740323798'
        LEFT JOIN 
            public.users u ON p.creator_id = u.pioki_id
            
        where creator_id IN (
            SELECT DISTINCT f1.pioki_id
            FROM friends f1
            WHERE pioki_friend_id = '{}'
            AND pioki_id IN (
                SELECT DISTINCT pioki_friend_id
                FROM friends
                WHERE pioki_id = '{}'
                AND pioki_friend_id = f1.pioki_id
            )
        ) order by created_at desc
        "
        ,user_id,user_id);
    assert_eq!(post_feeds_query(user_id), expected);
}

#[test]
fn post_list_hides_content() {
    let posts = vec![(post(1, "a"), user(7, "a"))];
    let entries = post_entries(&posts);
    assert_eq!(entries[0].content, None);
    assert_eq!(entries[0].spoiler_header.as_deref(), Some("spoiler"));
    assert_eq!(entries[0].quota_left, 2);
    assert_eq!(entries[0].user.id, 7);
    assert!(!entries[0].user.is_active);
    let me = Some(PIOKIIdentifierData { id: "me".to_string() });
    assert_eq!(user_posts_reply(&me, posts.clone()).status, 200);
    assert_eq!(user_posts_reply(&None, posts).status, 502);
}

#[test]
fn create_post_plan_and_reply() {
    let me = Some(PIOKIIdentifierData { id: "me".to_string() });
    let row = create_post_plan(me.clone(), serialize_body_into_struct(Ok(dto(2)))).unwrap();
    assert_eq!(row.creator_id, "me");
    let r = create_post_plan(None, serialize_body_into_struct(Ok(dto(2)))).unwrap_err();
    assert_eq!(r.status, 502);
    let r = create_post_plan(me, serialize_body_into_struct::<CreatePostDTO>(Err("bad json".to_string())))
        .unwrap_err();
    assert_eq!(r.status, 422);
    let ok = create_post_reply(Ok(post(1, "me")));
    assert_eq!(ok.status, 200);
    let err = create_post_reply(Err(DbFailure { kind: DbFailureKind::Other, message: "boom".to_string() }));
    assert_eq!(err.status, 500);
    assert_eq!(message_of(&err), "boom");
}

#[test]
fn post_request_plan_cases() {
    let me = Some(PIOKIIdentifierData { id: "me".to_string() });
    assert_eq!(post_request_plan::<()>(me.clone(), "12"), Ok(("me".to_string(), 12)));
    let r = post_request_plan::<()>(me, "12x").unwrap_err();
    assert_eq!(r.status, 400);
    assert_eq!(text_of(&r), "Invalid post_id in params");
    let r = post_request_plan::<()>(None, "12").unwrap_err();
    assert_eq!(r.status, 502);
}

#[test]
fn keep_reply_messages() {
    assert_eq!(keep_post_reply(Ok(keeper(1, 2))).status, 200);
    let r = keep_post_reply(Err(PostKeepingError::AlreadyInteractedError));
    assert_eq!((r.status, message_of(&r)), (400, "You've once interacted with this post already"));
    let r = keep_post_reply(Err(PostKeepingError::RollbackError));
    assert_eq!((r.status, message_of(&r)), (400, "Lost the chance to keep post due to race condition"));
    let r = keep_post_reply(Err(PostKeepingError::NoMoreQuota));
    assert_eq!((r.status, message_of(&r)), (400, "Quota has been already depleted"));
    let r = keep_post_reply(Err(PostKeepingError::DatabaseError("x".to_string())));
    assert_eq!((r.status, message_of(&r)), (500, "Something has gone wrong with the database"));
}

#[test]
fn ownership_and_pass_replies() {
    let r = post_ownership_reply(Ok(Some(keeper(1, 2))));
    assert_eq!(r.status, 200);
    match r.body {
        ReplyBody::Json(b) => assert_eq!(b.data, Some(keeper(1, 2))),
        _ => panic!(),
    }
    let r = post_ownership_reply(Ok(None));
    assert_eq!((r.status, message_of(&r)), (200, "success"));
    let r = post_ownership_reply(Err(DbFailure { kind: DbFailureKind::Other, message: String::new() }));
    assert_eq!((r.status, text_of(&r)), (500, "Something has gone wrong . . ."));
    assert_eq!(pass_post_reply(Ok(())).status, 200);
    let r = pass_post_reply(Err(DbFailure { kind: DbFailureKind::RollbackTransaction, message: String::new() }));
    assert_eq!((r.status, message_of(&r)), (400, "failed passing along the post"));
    let r = pass_post_reply(Err(DbFailure { kind: DbFailureKind::Other, message: String::new() }));
    assert_eq!(r.status, 500);
}

#[test]
fn kept_posts_listing() {
    let kept = vec![
        (keeper(1, 10), (post(10, "a"), user(1, "a"))),
        (keeper(2, 11), (post(11, "b"), user(2, "b"))),
        (keeper(3, 10), (post(10, "a"), user(1, "a"))),
    ];
    assert_eq!(kept_post_ids(&kept), vec![10, 11]);
    let entries = kept_post_entries(kept.clone());
    assert_eq!(entries.len(), 3);
    assert_eq!(entries[1].keep_data, keeper(2, 11));
    assert_eq!(entries[1].post_data, post(11, "b"));
    assert_eq!(entries[1].creator_data, user(2, "b"));
    let me = Some(PIOKIIdentifierData { id: "me".to_string() });
    assert_eq!(kept_post_ids_reply(&me, Ok(kept.clone())).status, 200);
    assert_eq!(kept_post_ids_reply(&None, Ok(kept.clone())).status, 502);
    let fail = DbFailure { kind: DbFailureKind::Other, message: String::new() };
    assert_eq!(kept_post_ids_reply(&me, Err(fail.clone())).status, 500);
    assert_eq!(kept_posts_reply(&me, Ok(kept)).status, 200);
    assert_eq!(kept_posts_reply(&me, Err(fail)).status, 500);
}
