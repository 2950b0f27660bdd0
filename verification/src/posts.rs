use vstd::prelude::*;
use chrono::NaiveDateTime;
use crate::access::PIOKIIdentifierData;
use crate::db::{DbFailure, DbFailureKind};
use crate::dtos::CreatePostDTO;
use crate::keeping::PostKeepingError;
use crate::models::{NewPost, Post, PostKeeper, User};
use crate::response::{
    data_reply, is_data_reply, is_message_reply, is_text_reply, message_reply, text_reply, Reply, ReplyBody,
};
use crate::text::{parse_i32, parsed_i32};
use crate::validation::{
    is_validation_error_reply, throw_error_response_based_on_validation_error_kind, ValidationErrorKind,
};

verus! {

/// Which posts a listing asks for.
#[derive(Debug, Clone, PartialEq)]
pub struct PostLookupWhereClause {
    /// Only the posts of this creator, where given.
    pub user_id: Option<String>,
}

/// How the post listing query is built.
#[derive(Debug, Clone, PartialEq)]
pub struct PostQueryPlan {
    /// Only the posts of this creator, where given.
    pub creator_id: Option<String>,
    /// Newest first.
    pub newest_first: bool,
}

/// The public part of a post's creator.
#[derive(Debug, PartialEq)]
pub struct UserResponseDTO {
    pub id: i32,
    pub pioki_id: String,
    pub is_active: bool,
    pub created_at: NaiveDateTime,
}

/// A post as a user's post list shows it: the content is never shown.
#[derive(Debug, PartialEq)]
pub struct PostResponseeDTO {
    pub id: i32,
    pub creator_id: String,
    pub spoiler_header: Option<String>,
    pub content: Option<String>,
    pub origin_quota_limit: i32,
    pub quota_left: i32,
    pub created_at: NaiveDateTime,
    pub updated_at: NaiveDateTime,
    pub user: UserResponseDTO,
}

/// A post that the caller keeps, with its creator and the keep itself.
#[derive(Debug, PartialEq)]
pub struct ListKeptPostsResponseDTO {
    pub post_data: Post,
    pub creator_data: User,
    pub keep_data: PostKeeper,
}

/// The row that user `user_id` creates from `dto`: the limit is the requested
/// quota as an `i32`, and the whole quota is left.
pub fn new_post_record(user_id: String, dto: CreatePostDTO) -> (r: NewPost)
    ensures
        r == (NewPost {
            content: dto.content,
            creator_id: user_id,
            origin_quota_limit: dto.quota_limit as i32,
            quota_left: dto.quota_limit as i32,
            spoiler_header: dto.spoiler_header,
        }),
{
    NewPost {
        content: dto.content,
        creator_id: user_id,
        origin_quota_limit: dto.quota_limit as i32,
        quota_left: dto.quota_limit as i32,
        spoiler_header: dto.spoiler_header,
    }
}

/// How to list posts: with a clause, only the creator it names (if any),
/// newest first; without one, all posts in the database's order.
pub fn post_lookup_plan(clause: Option<PostLookupWhereClause>) -> (r: PostQueryPlan)
    ensures
        match clause {
            Some(c) => r == PostQueryPlan { creator_id: c.user_id, newest_first: true },
            None => r == PostQueryPlan { creator_id: None, newest_first: false },
        },
{
    match clause {
        Some(clause_data) => PostQueryPlan { creator_id: clause_data.user_id, newest_first: true },
        None => PostQueryPlan { creator_id: None, newest_first: false },
    }
}

/// The query text for the feed of `user_id`: the posts of the users who are
/// friends with them both ways, newest first, with the content of the posts
/// that the fixed keeper of the query does not keep replaced by a marker.
pub open spec fn post_feeds_sql(user_id: Seq<char>) -> Seq<char> {
    "\n                SELECT p.id,p.creator_id, p.spoiler_header, CASE \n                WHEN pk.post_id IS NOT NULL THEN p.content \n                ELSE '#!@#$%-System-Encrypted-#!@#$%' \n                END as content, p.origin_quota_limit,p.quota_left,p.created_at,p.updated_at, u.oauth_display_name, u.oauth_profile_picture\n        FROM public.posts p\n        LEFT JOIN \n            public.post_keepers pk ON p.id = pk.post_id AND pk.pioki_id = '111610436275740323798'\n        LEFT JOIN \n            public.users u ON p.creator_id = u.pioki_id\n            \n        where creator_id IN (\n            SELECT DISTINCT f1.pioki_id\n            FROM friends f1\n            WHERE pioki_friend_id = '"@
        + user_id
        + "'\n            AND pioki_id IN (\n                SELECT DISTINCT pioki_friend_id\n                FROM friends\n                WHERE pioki_id = '"@
        + user_id
        + "'\n                AND pioki_friend_id = f1.pioki_id\n            )\n        ) order by created_at desc\n        "@
}

/// The fixed text of the feed query, around its two identifier slots.
pub open spec fn post_feeds_frame() -> (Seq<char>, Seq<char>, Seq<char>) {
    (
        "\n                SELECT p.id,p.creator_id, p.spoiler_header, CASE \n                WHEN pk.post_id IS NOT NULL THEN p.content \n                ELSE '#!@#$%-System-Encrypted-#!@#$%' \n                END as content, p.origin_quota_limit,p.quota_left,p.created_at,p.updated_at, u.oauth_display_name, u.oauth_profile_picture\n        FROM public.posts p\n        LEFT JOIN \n            public.post_keepers pk ON p.id = pk.post_id AND pk.pioki_id = '111610436275740323798'\n        LEFT JOIN \n            public.users u ON p.creator_id = u.pioki_id\n            \n        where creator_id IN (\n            SELECT DISTINCT f1.pioki_id\n            FROM friends f1\n            WHERE pioki_friend_id = '"@,
        "'\n            AND pioki_id IN (\n                SELECT DISTINCT pioki_friend_id\n                FROM friends\n                WHERE pioki_id = '"@,
        "'\n                AND pioki_friend_id = f1.pioki_id\n            )\n        ) order by created_at desc\n        "@,
    )
}

/// The feed query of any identifier is the same fixed text with that
/// identifier, whole and unchanged, in both friendship filters.
pub proof fn lemma_feed_query_holds_whole_id(user_id: Seq<char>)
    ensures
        post_feeds_sql(user_id) == post_feeds_frame().0 + user_id + post_feeds_frame().1 + user_id
            + post_feeds_frame().2,
        post_feeds_sql(user_id).len() == post_feeds_sql(Seq::empty()).len() + 2 * user_id.len(),
{
    let e = Seq::<char>::empty();
    let f = post_feeds_frame();
    assert(f.0 + e + f.1 + e + f.2 =~= f.0 + f.1 + f.2);
}

/// Builds the query text for the feed of `user_id`.
pub fn post_feeds_query(user_id: &str) -> (r: String)
    ensures
        r@ == post_feeds_sql(user_id@),
{
    let mut q = "\n                SELECT p.id,p.creator_id, p.spoiler_header, CASE \n                WHEN pk.post_id IS NOT NULL THEN p.content \n                ELSE '#!@#$%-System-Encrypted-#!@#$%' \n                END as content, p.origin_quota_limit,p.quota_left,p.created_at,p.updated_at, u.oauth_display_name, u.oauth_profile_picture\n        FROM public.posts p\n        LEFT JOIN \n            public.post_keepers pk ON p.id = pk.post_id AND pk.pioki_id = '111610436275740323798'\n        LEFT JOIN \n            public.users u ON p.creator_id = u.pioki_id\n            \n        where creator_id IN (\n            SELECT DISTINCT f1.pioki_id\n            FROM friends f1\n            WHERE pioki_friend_id = '".to_owned();
    q.append(user_id);
    q.append("'\n            AND pioki_id IN (\n                SELECT DISTINCT pioki_friend_id\n                FROM friends\n                WHERE pioki_id = '");
    q.append(user_id);
    q.append("'\n                AND pioki_friend_id = f1.pioki_id\n            )\n        ) order by created_at desc\n        ");
    q
}

/// `d` shows post `p` of creator `u` without its content.
pub open spec fn post_entry_of(d: PostResponseeDTO, p: Post, u: User) -> bool {
    &&& d.id == p.id
    &&& d.creator_id == p.creator_id
    &&& d.origin_quota_limit == p.origin_quota_limit
    &&& d.quota_left == p.quota_left
    &&& d.content is None
    &&& d.created_at == p.created_at
    &&& d.updated_at == p.updated_at
    &&& d.spoiler_header == p.spoiler_header
    &&& d.user == UserResponseDTO {
        id: u.id,
        pioki_id: u.pioki_id,
        is_active: u.is_active,
        created_at: u.created_at,
    }
}

/// The entries of a user's post list, in order, without the posts' content.
pub fn post_entries(posts: &Vec<(Post, User)>) -> (r: Vec<PostResponseeDTO>)
    ensures
        r@.len() == posts@.len(),
        forall|i: int| 0 <= i < r@.len() ==> post_entry_of(#[trigger] r@[i], posts@[i].0, posts@[i].1),
{
    let mut res: Vec<PostResponseeDTO> = Vec::new();
    let mut i: usize = 0;
    while i < posts.len()
        invariant
            0 <= i <= posts@.len(),
            res@.len() == i,
            forall|k: int| 0 <= k < i ==> post_entry_of(#[trigger] res@[k], posts@[k].0, posts@[k].1),
        decreases posts@.len() - i,
    {
        let post = &posts[i];
        res.push(
            PostResponseeDTO {
                id: post.0.id,
                creator_id: post.0.creator_id.clone(),
                origin_quota_limit: post.0.origin_quota_limit,
                quota_left: post.0.quota_left,
                content: None,
                created_at: post.0.created_at,
                updated_at: post.0.updated_at,
                spoiler_header: crate::models::clone_optional_string(&post.0.spoiler_header),
                user: UserResponseDTO {
                    id: post.1.id,
                    pioki_id: post.1.pioki_id.clone(),
                    is_active: post.1.is_active,
                    created_at: post.1.created_at,
                },
            },
        );
        i = i + 1;
    }
    res
}

/// The answer listing a user's posts: 502 where the caller is unknown, else 200
/// with the entries.
pub fn user_posts_reply(identifier_data: &Option<PIOKIIdentifierData>, posts: Vec<(Post, User)>) -> (r: Reply<
    Vec<PostResponseeDTO>,
>)
    ensures
        match identifier_data {
            None => is_text_reply(r, 502, "Bad incoming source"@),
            Some(_) => r.status == 200 && (r.body matches ReplyBody::Json(b) && {
                &&& b.message matches Some(m) && m@ == "success"@
                &&& b.response_type is None
                &&& b.validation_errors_by_field is None
                &&& b.data matches Some(entries) && entries@.len() == posts@.len() && forall|i: int|
                    0 <= i < entries@.len() ==> post_entry_of(
                        #[trigger] entries@[i],
                        posts@[i].0,
                        posts@[i].1,
                    )
            }),
        },
{
    match identifier_data {
        Some(_) => {
            let entries = post_entries(&posts);
            data_reply(200, "success", entries)
        },
        None => text_reply(502, "Bad incoming source"),
    }
}

/// Decides a request that creates a post, before anything is written: 502 where
/// the caller is unknown; a refused body as
/// `throw_error_response_based_on_validation_error_kind` answers it; else the
/// row that the caller creates from the body.
pub fn create_post_plan(
    identifier_data: Option<PIOKIIdentifierData>,
    dto: Result<CreatePostDTO, ValidationErrorKind>,
) -> (r: Result<NewPost, Reply<Post>>)
    ensures
        match identifier_data {
            None => r matches Err(reply) && is_text_reply(reply, 502, "Bad incoming source"@),
            Some(id) => match dto {
                Err(k) => r matches Err(reply) && is_validation_error_reply(reply, k),
                Ok(d) => r == Ok::<NewPost, Reply<Post>>(
                    NewPost {
                        content: d.content,
                        creator_id: id.id,
                        origin_quota_limit: d.quota_limit as i32,
                        quota_left: d.quota_limit as i32,
                        spoiler_header: d.spoiler_header,
                    },
                ),
            },
        },
{
    match identifier_data {
        None => Err(text_reply(502, "Bad incoming source")),
        Some(identifier) => match dto {
            Ok(input) => Ok(new_post_record(identifier.id, input)),
            Err(ekind) => Err(throw_error_response_based_on_validation_error_kind(ekind)),
        },
    }
}

/// The answer once the post was inserted: 200 with the post, or 500 with the
/// failure's text as the message.
pub fn create_post_reply(result: Result<Post, DbFailure>) -> (r: Reply<Post>)
    ensures
        match result {
            Ok(p) => is_data_reply(r, 200, "success"@, p),
            Err(e) => is_message_reply(r, 500, e.message@),
        },
{
    match result {
        Ok(created_post) => data_reply(200, "success", created_post),
        Err(e) => message_reply(500, e.message.as_str()),
    }
}

/// Decides a request about one post, before the database is asked: 502 where
/// the caller is unknown, 400 where the post identifier is not an `i32`, else
/// the caller's identifier and the post's.
pub fn post_request_plan<T>(identifier_data: Option<PIOKIIdentifierData>, post_id: &str) -> (r: Result<
    (String, i32),
    Reply<T>,
>)
    ensures
        match identifier_data {
            None => r matches Err(reply) && is_text_reply(reply, 502, "Bad incoming source"@),
            Some(id) => match parsed_i32(post_id@) {
                None => r matches Err(reply) && is_text_reply(reply, 400, "Invalid post_id in params"@),
                Some(n) => r == Ok::<(String, i32), Reply<T>>((id.id, n)),
            },
        },
{
    match identifier_data {
        Some(identifier) => match parse_i32(post_id) {
            Some(n) => Ok((identifier.id, n)),
            None => Err(text_reply(400, "Invalid post_id in params")),
        },
        None => Err(text_reply(502, "Bad incoming source")),
    }
}

/// The answer to a keep: 200 with the keeper row; each refusal 400 with its
/// own message; a database failure 500.
pub fn keep_post_reply(result: Result<PostKeeper, PostKeepingError>) -> (r: Reply<PostKeeper>)
    ensures
        match result {
            Ok(pk) => is_data_reply(r, 200, "success"@, pk),
            Err(PostKeepingError::AlreadyInteractedError) => is_message_reply(
                r,
                400,
                "You've once interacted with this post already"@,
            ),
            Err(PostKeepingError::RollbackError) => is_message_reply(
                r,
                400,
                "Lost the chance to keep post due to race condition"@,
            ),
            Err(PostKeepingError::NoMoreQuota) => is_message_reply(r, 400, "Quota has been already depleted"@),
            Err(PostKeepingError::DatabaseError(_)) => is_message_reply(
                r,
                500,
                "Something has gone wrong with the database"@,
            ),
        },
{
    match result {
        Ok(pk) => data_reply(200, "success", pk),
        Err(e) => match e {
            PostKeepingError::AlreadyInteractedError => message_reply(
                400,
                "You've once interacted with this post already",
            ),
            PostKeepingError::RollbackError => message_reply(
                400,
                "Lost the chance to keep post due to race condition",
            ),
            PostKeepingError::NoMoreQuota => message_reply(400, "Quota has been already depleted"),
            PostKeepingError::DatabaseError(_) => message_reply(
                500,
                "Something has gone wrong with the database",
            ),
        },
    }
}

/// The answer to "do I keep this post": 200 with the keeper row where there is
/// one, 200 with no data where there is none, 500 where the lookup failed.
pub fn post_ownership_reply(result: Result<Option<PostKeeper>, DbFailure>) -> (r: Reply<PostKeeper>)
    ensures
        match result {
            Ok(Some(pk)) => is_data_reply(r, 200, "success"@, pk),
            Ok(None) => is_message_reply(r, 200, "success"@),
            Err(_) => is_text_reply(r, 500, "Something has gone wrong . . ."@),
        },
{
    match result {
        Ok(post_keep_opt) => match post_keep_opt {
            Some(post_keep) => data_reply(200, "success", post_keep),
            None => message_reply(200, "success"),
        },
        Err(_) => text_reply(500, "Something has gone wrong . . ."),
    }
}

/// The answer to a pass-along: 200; 400 where the transaction was rolled back;
/// 500 on any other failure.
pub fn pass_post_reply(result: Result<(), DbFailure>) -> (r: Reply<()>)
    ensures
        match result {
            Ok(_) => is_message_reply(r, 200, "success"@),
            Err(e) => if e.kind == DbFailureKind::RollbackTransaction {
                is_message_reply(r, 400, "failed passing along the post"@)
            } else {
                is_text_reply(r, 500, "Something has gone wrong . . ."@)
            },
        },
{
    match result {
        Ok(_) => message_reply(200, "success"),
        Err(e) => if e.kind == DbFailureKind::RollbackTransaction {
            message_reply(400, "failed passing along the post")
        } else {
            text_reply(500, "Something has gone wrong . . .")
        },
    }
}

/// `id` is the post of one of the keeps in `kept`.
pub open spec fn is_kept_post_id(kept: Seq<(PostKeeper, (Post, User))>, id: i32) -> bool {
    exists|i: int| 0 <= i < kept.len() && (#[trigger] kept[i]).0.post_id == id
}

/// Whether `id` is in `ids`.
fn contains_id(ids: &Vec<i32>, id: i32) -> (r: bool)
    ensures
        r == ids@.contains(id),
{
    let mut i: usize = 0;
    while i < ids.len()
        invariant
            0 <= i <= ids@.len(),
            forall|k: int| 0 <= k < i ==> ids@[k] != id,
        decreases ids@.len() - i,
    {
        if ids[i] == id {
            return true;
        }
        i = i + 1;
    }
    false
}

/// The posts that the caller keeps, each once: every kept post's identifier,
/// and nothing else.
pub fn kept_post_ids(kept: &Vec<(PostKeeper, (Post, User))>) -> (r: Vec<i32>)
    ensures
        r@.no_duplicates(),
        forall|id: i32| r@.contains(id) <==> is_kept_post_id(kept@, id),
{
    let mut ids: Vec<i32> = Vec::new();
    let mut i: usize = 0;
    while i < kept.len()
        invariant
            0 <= i <= kept@.len(),
            ids@.no_duplicates(),
            forall|id: i32| ids@.contains(id) <==> is_kept_post_id(kept@.take(i as int), id),
        decreases kept@.len() - i,
    {
        let id = kept[i].0.post_id;
        let ghost before = ids@;
        if !contains_id(&ids, id) {
            ids.push(id);
        }
        proof {
            let t = kept@.take(i + 1);
            let p = kept@.take(i as int);
            assert(t[i as int] == kept@[i as int]);
            assert(is_kept_post_id(t, id));
            assert(ids@.contains(id)) by {
                if before.contains(id) {
                    let j = choose|j: int| 0 <= j < before.len() && before[j] == id;
                    assert(ids@[j] == id);
                } else {
                    assert(ids@[ids@.len() - 1] == id);
                }
            }
            assert forall|x: i32| ids@.contains(x) <==> is_kept_post_id(t, x) by {
                if x != id {
                    if ids@.contains(x) {
                        let j = choose|j: int| 0 <= j < ids@.len() && ids@[j] == x;
                        assert(j < before.len());
                        assert(before[j] == x);
                        assert(before.contains(x));
                        let k = choose|k: int| 0 <= k < p.len() && (#[trigger] p[k]).0.post_id == x;
                        assert(t[k] == p[k]);
                    }
                    if is_kept_post_id(t, x) {
                        let k = choose|k: int| 0 <= k < t.len() && (#[trigger] t[k]).0.post_id == x;
                        assert(k != i);
                        assert(p[k] == t[k]);
                        assert(is_kept_post_id(p, x));
                        assert(before.contains(x));
                        let j = choose|j: int| 0 <= j < before.len() && before[j] == x;
                        assert(ids@[j] == x);
                    }
                }
            }
        }
        i = i + 1;
    }
    assert(kept@.take(kept@.len() as int) =~= kept@);
    ids
}

/// The answer listing the identifiers of the posts the caller keeps: 502 where
/// the caller is unknown, 500 where the list failed, else 200 with each kept
/// post's identifier once.
pub fn kept_post_ids_reply(
    identifier_data: &Option<PIOKIIdentifierData>,
    result: Result<Vec<(PostKeeper, (Post, User))>, DbFailure>,
) -> (r: Reply<Vec<i32>>)
    ensures
        match identifier_data {
            None => is_text_reply(r, 502, "Bad incoming source"@),
            Some(_) => match result {
                Err(_) => is_text_reply(r, 500, "Something has gone wrong . . ."@),
                Ok(kept) => r.status == 200 && (r.body matches ReplyBody::Json(b) && {
                    &&& b.message matches Some(m) && m@ == "success"@
                    &&& b.response_type is None
                    &&& b.validation_errors_by_field is None
                    &&& b.data matches Some(ids) && ids@.no_duplicates() && forall|id: i32|
                        ids@.contains(id) <==> is_kept_post_id(kept@, id)
                }),
            },
        },
{
    match identifier_data {
        None => text_reply(502, "Bad incoming source"),
        Some(_) => match result {
            Ok(kept_posts) => {
                let ids = kept_post_ids(&kept_posts);
                data_reply(200, "success", ids)
            },
            Err(_) => text_reply(500, "Something has gone wrong . . ."),
        },
    }
}

/// The entries of the list of kept posts, in order: each post with its creator
/// and the keep.
pub fn kept_post_entries(kept: Vec<(PostKeeper, (Post, User))>) -> (r: Vec<ListKeptPostsResponseDTO>)
    ensures
        r@.len() == kept@.len(),
        forall|i: int|
            0 <= i < r@.len() ==> #[trigger] r@[i] == (ListKeptPostsResponseDTO {
                post_data: kept@[i].1.0,
                creator_data: kept@[i].1.1,
                keep_data: kept@[i].0,
            }),
{
    let mut res: Vec<ListKeptPostsResponseDTO> = Vec::new();
    let mut i: usize = 0;
    while i < kept.len()
        invariant
            0 <= i <= kept@.len(),
            res@.len() == i,
            forall|k: int|
                0 <= k < i ==> #[trigger] res@[k] == (ListKeptPostsResponseDTO {
                    post_data: kept@[k].1.0,
                    creator_data: kept@[k].1.1,
                    keep_data: kept@[k].0,
                }),
        decreases kept@.len() - i,
    {
        let post = &kept[i];
        res.push(
            ListKeptPostsResponseDTO {
                creator_data: post.1.1.clone(),
                post_data: post.1.0.clone(),
                keep_data: post.0.clone(),
            },
        );
        i = i + 1;
    }
    res
}

/// The answer listing the posts the caller keeps: 502 where the caller is
/// unknown, 500 where the list failed, else 200 with the entries.
pub fn kept_posts_reply(
    identifier_data: &Option<PIOKIIdentifierData>,
    result: Result<Vec<(PostKeeper, (Post, User))>, DbFailure>,
) -> (r: Reply<Vec<ListKeptPostsResponseDTO>>)
    ensures
        match identifier_data {
            None => is_text_reply(r, 502, "Bad incoming source"@),
            Some(_) => match result {
                Err(_) => is_text_reply(r, 500, "Something has gone wrong . . ."@),
                Ok(kept) => r.status == 200 && (r.body matches ReplyBody::Json(b) && {
                    &&& b.message matches Some(m) && m@ == "success"@
                    &&& b.response_type is None
                    &&& b.validation_errors_by_field is None
                    &&& b.data matches Some(entries) && entries@.len() == kept@.len() && forall|i: int|
                        0 <= i < entries@.len() ==> #[trigger] entries@[i] == (ListKeptPostsResponseDTO {
                            post_data: kept@[i].1.0,
                            creator_data: kept@[i].1.1,
                            keep_data: kept@[i].0,
                        })
                }),
            },
        },
{
    match identifier_data {
        None => text_reply(502, "Bad incoming source"),
        Some(_) => match result {
            Ok(kept_posts) => {
                let entries = kept_post_entries(kept_posts);
                data_reply(200, "success", entries)
            },
            Err(_) => text_reply(500, "Something has gone wrong . . ."),
        },
    }
}

} // verus!
