use vstd::prelude::*;
use chrono::NaiveDateTime;
use bigdecimal::BigDecimal;
use crate::access::PIOKIIdentifierData;
use crate::db::{DbFailure, DbFailureKind};
use crate::models::{Friend, User};
use crate::response::{
    data_reply, is_message_reply, is_text_reply, message_reply, text_reply, Reply, ReplyBody,
};
use crate::text::{contains, contains_text};

verus! {

/// A user who asked the caller to be friends.
#[derive(Debug, PartialEq)]
pub struct PendingFriendResponseDTO {
    pub id: i32,
    pub pioki_id: String,
    pub oauth_display_name: String,
    pub oauth_profile_picture: Option<String>,
    pub requested_at: Option<NaiveDateTime>,
    pub coin_owned: BigDecimal,
}

/// A friend of a user.
#[derive(Debug, PartialEq)]
pub struct ListFriendResponseDTO {
    pub id: i32,
    pub pioki_id: String,
    pub oauth_display_name: String,
    pub oauth_profile_picture: Option<String>,
    pub coin_owned: BigDecimal,
}

/// The friend request that `from_id` sends to `to_id`: not blocked, no alias,
/// and the timestamps left to the database.
pub fn new_friend_request(from_id: &str, to_id: &str) -> (r: Friend)
    ensures
        r.pioki_id@ == from_id@,
        r.pioki_friend_id@ == to_id@,
        !r.is_blocked,
        r.aka is None,
        r.created_at is None,
        r.updated_at is None,
{
    Friend {
        pioki_id: from_id.to_owned(),
        pioki_friend_id: to_id.to_owned(),
        is_blocked: false,
        aka: None,
        created_at: None,
        updated_at: None,
    }
}

/// The query text that finds the friend requests sent to `user_id`.
pub open spec fn pending_friend_requests_sql(user_id: Seq<char>) -> Seq<char> {
    "\n        SELECT f1.*\n        FROM friends f1\n        JOIN friends f2 ON f2.pioki_id = '"@ + user_id
        + "' AND f2.pioki_friend_id <> f1.pioki_id\n        WHERE f1.pioki_friend_id = '"@ + user_id
        + "'\n        "@
}

/// The query text that finds the mutual friendships of `user_id`.
pub open spec fn friends_of_user_sql(user_id: Seq<char>) -> Seq<char> {
    "\n            SELECT f1.*\n            FROM friends f1\n            JOIN friends f2 ON f1.pioki_id = f2.pioki_friend_id AND f1.pioki_friend_id = f2.pioki_id\n            WHERE f1.pioki_id = '"@
        + user_id + "'\n        "@
}

/// The fixed text of the pending-requests query, around its two identifier slots.
pub open spec fn pending_friend_requests_frame() -> (Seq<char>, Seq<char>, Seq<char>) {
    (
        "\n        SELECT f1.*\n        FROM friends f1\n        JOIN friends f2 ON f2.pioki_id = '"@,
        "' AND f2.pioki_friend_id <> f1.pioki_id\n        WHERE f1.pioki_friend_id = '"@,
        "'\n        "@,
    )
}

/// The fixed text of the mutual-friends query, around its identifier slot.
pub open spec fn friends_of_user_frame() -> (Seq<char>, Seq<char>) {
    (
        "\n            SELECT f1.*\n            FROM friends f1\n            JOIN friends f2 ON f1.pioki_id = f2.pioki_friend_id AND f1.pioki_friend_id = f2.pioki_id\n            WHERE f1.pioki_id = '"@,
        "'\n        "@,
    )
}

/// The pending-requests query of any identifier is the same fixed text with
/// that identifier, whole and unchanged, in both slots: the join on the
/// requested side and the filter on the receiving side.
pub proof fn lemma_pending_query_holds_whole_id(user_id: Seq<char>)
    ensures
        pending_friend_requests_sql(user_id) == pending_friend_requests_frame().0 + user_id
            + pending_friend_requests_frame().1 + user_id + pending_friend_requests_frame().2,
        pending_friend_requests_sql(user_id).len() == pending_friend_requests_sql(Seq::empty()).len() + 2
            * user_id.len(),
{
    let e = Seq::<char>::empty();
    let f = pending_friend_requests_frame();
    assert(f.0 + e + f.1 + e + f.2 =~= f.0 + f.1 + f.2);
}

/// The mutual-friends query of any identifier is the same fixed text with
/// that identifier, whole and unchanged, in its filter.
pub proof fn lemma_friends_query_holds_whole_id(user_id: Seq<char>)
    ensures
        friends_of_user_sql(user_id) == friends_of_user_frame().0 + user_id + friends_of_user_frame().1,
        friends_of_user_sql(user_id).len() == friends_of_user_sql(Seq::empty()).len() + user_id.len(),
{
    let e = Seq::<char>::empty();
    let f = friends_of_user_frame();
    assert(f.0 + e + f.1 =~= f.0 + f.1);
}

/// Builds the query text that finds the friend requests sent to `user_id`.
pub fn pending_friend_requests_query(user_id: &str) -> (r: String)
    ensures
        r@ == pending_friend_requests_sql(user_id@),
{
    let mut q = "\n        SELECT f1.*\n        FROM friends f1\n        JOIN friends f2 ON f2.pioki_id = '".to_owned();
    q.append(user_id);
    q.append("' AND f2.pioki_friend_id <> f1.pioki_id\n        WHERE f1.pioki_friend_id = '");
    q.append(user_id);
    q.append("'\n        ");
    q
}

/// Builds the query text that finds the mutual friendships of `user_id`.
pub fn friends_of_user_query(user_id: &str) -> (r: String)
    ensures
        r@ == friends_of_user_sql(user_id@),
{
    let mut q = "\n            SELECT f1.*\n            FROM friends f1\n            JOIN friends f2 ON f1.pioki_id = f2.pioki_friend_id AND f1.pioki_friend_id = f2.pioki_id\n            WHERE f1.pioki_id = '".to_owned();
    q.append(user_id);
    q.append("'\n        ");
    q
}

/// The identifiers of the users who sent the friend rows, in order.
pub fn friend_ids(friends: &Vec<Friend>) -> (r: Vec<String>)
    ensures
        r@.len() == friends@.len(),
        forall|i: int| 0 <= i < r@.len() ==> #[trigger] r@[i]@ == friends@[i].pioki_id@,
{
    let mut ids: Vec<String> = Vec::new();
    let mut i: usize = 0;
    while i < friends.len()
        invariant
            0 <= i <= friends@.len(),
            ids@.len() == i,
            forall|k: int| 0 <= k < i ==> #[trigger] ids@[k]@ == friends@[k].pioki_id@,
        decreases friends@.len() - i,
    {
        ids.push(friends[i].pioki_id.clone());
        i = i + 1;
    }
    ids
}

/// The index of the last user whose identifier is `id`, or -1 when none is:
/// where two users share an identifier, the later one is the one found, as a
/// map filled in order keeps it.
pub open spec fn last_user_index(users: Seq<User>, id: Seq<char>) -> int
    decreases users.len(),
{
    if users.len() == 0 {
        -1
    } else if users.last().pioki_id@ == id {
        users.len() - 1
    } else {
        last_user_index(users.drop_last(), id)
    }
}

proof fn lemma_last_user_index_bounds(users: Seq<User>, id: Seq<char>)
    ensures
        -1 <= last_user_index(users, id) < users.len(),
        last_user_index(users, id) >= 0 ==> users[last_user_index(users, id)].pioki_id@ == id,
        last_user_index(users, id) == -1 <==> forall|k: int| 0 <= k < users.len() ==> users[k].pioki_id@ != id,
    decreases users.len(),
{
    if users.len() > 0 {
        lemma_last_user_index_bounds(users.drop_last(), id);
        if users.last().pioki_id@ != id {
            assert forall|k: int| 0 <= k < users.len() && users.drop_last().len() == users.len() - 1
                && (forall|j: int| 0 <= j < users.drop_last().len() ==> users.drop_last()[j].pioki_id@ != id)
                implies users[k].pioki_id@ != id by {
                if k < users.len() - 1 {
                    assert(users[k] == users.drop_last()[k]);
                }
            }
        }
    }
}

/// The user found for an identifier has it, and no later user has it: the
/// last one with the identifier wins.
pub proof fn lemma_last_user_index_is_last(users: Seq<User>, id: Seq<char>)
    ensures
        last_user_index(users, id) >= 0 ==> users[last_user_index(users, id)].pioki_id@ == id,
        forall|j: int| last_user_index(users, id) < j < users.len() ==> (#[trigger] users[j]).pioki_id@ != id,
        (exists|j: int| 0 <= j < users.len() && (#[trigger] users[j]).pioki_id@ == id) ==> last_user_index(users, id)
            >= 0,
    decreases users.len(),
{
    lemma_last_user_index_bounds(users, id);
    if users.len() > 0 && users.last().pioki_id@ != id {
        let d = users.drop_last();
        lemma_last_user_index_is_last(d, id);
        assert forall|j: int| last_user_index(users, id) < j < users.len() implies (#[trigger] users[j]).pioki_id@ != id by {
            if j < users.len() - 1 {
                assert(users[j] == d[j]);
            }
        }
    }
}

/// Every friend row was sent by some user of `users`.
pub open spec fn every_sender_known(friends: Seq<Friend>, users: Seq<User>) -> bool {
    forall|i: int| 0 <= i < friends.len() ==> last_user_index(users, #[trigger] friends[i].pioki_id@) >= 0
}

/// Whether some user of `users` has the identifier `id`.
fn has_user(users: &Vec<User>, id: &String) -> (r: bool)
    ensures
        r == (last_user_index(users@, id@) >= 0),
{
    proof {
        lemma_last_user_index_bounds(users@, id@);
    }
    let mut j: usize = 0;
    while j < users.len()
        invariant
            0 <= j <= users@.len(),
            forall|k: int| 0 <= k < j ==> users@[k].pioki_id@ != id@,
        decreases users@.len() - j,
    {
        if users[j].pioki_id == *id {
            proof {
                lemma_last_user_index_bounds(users@, id@);
                assert(users@[j as int].pioki_id@ == id@);
            }
            return true;
        }
        j = j + 1;
    }
    false
}

/// Whether every friend row was sent by some user of `users`.
pub fn every_sender_known_checked(friends: &Vec<Friend>, users: &Vec<User>) -> (r: bool)
    ensures
        r == every_sender_known(friends@, users@),
{
    let mut i: usize = 0;
    while i < friends.len()
        invariant
            0 <= i <= friends@.len(),
            forall|k: int| 0 <= k < i ==> last_user_index(users@, #[trigger] friends@[k].pioki_id@) >= 0,
        decreases friends@.len() - i,
    {
        if !has_user(users, &friends[i].pioki_id) {
            return false;
        }
        i = i + 1;
    }
    true
}

/// The last user whose identifier is `id`.
fn find_last_user(users: &Vec<User>, id: &String) -> (r: usize)
    requires
        last_user_index(users@, id@) >= 0,
    ensures
        r == last_user_index(users@, id@),
{
    let mut j: usize = users.len();
    assert(users@.take(j as int) =~= users@);
    while j > 0
        invariant
            0 <= j <= users@.len(),
            last_user_index(users@, id@) == last_user_index(users@.take(j as int), id@),
            last_user_index(users@, id@) >= 0,
        decreases j,
    {
        let ghost t = users@.take(j as int);
        assert(t.drop_last() =~= users@.take(j - 1));
        if users[j - 1].pioki_id == *id {
            return j - 1;
        }
        j = j - 1;
    }
    proof {
        assert(users@.take(0) =~= Seq::<User>::empty());
    }
    0
}

/// Pairs each friend row with the user who sent it, in the order of the rows;
/// the user is the last one in `users` with the row's identifier.
pub fn pair_friends_with_users(friends: Vec<Friend>, users: Vec<User>) -> (r: Vec<(Friend, User)>)
    requires
        every_sender_known(friends@, users@),
    ensures
        r@.len() == friends@.len(),
        forall|i: int|
            0 <= i < r@.len() ==> (#[trigger] r@[i]).0 == friends@[i] && r@[i].1 == users@[last_user_index(
                users@,
                friends@[i].pioki_id@,
            )],
{
    let mut res: Vec<(Friend, User)> = Vec::new();
    let mut i: usize = 0;
    while i < friends.len()
        invariant
            0 <= i <= friends@.len(),
            every_sender_known(friends@, users@),
            res@.len() == i,
            forall|k: int|
                0 <= k < i ==> (#[trigger] res@[k]).0 == friends@[k] && res@[k].1 == users@[last_user_index(
                    users@,
                    friends@[k].pioki_id@,
                )],
        decreases friends@.len() - i,
    {
        assert(last_user_index(users@, friends@[i as int].pioki_id@) >= 0);
        let j = find_last_user(&users, &friends[i].pioki_id);
        proof {
            lemma_last_user_index_bounds(users@, friends@[i as int].pioki_id@);
        }
        res.push((friends[i].clone(), users[j].clone()));
        i = i + 1;
    }
    res
}

/// `d` shows the user of `pair` as one who asked to be friends at the time of the row.
pub open spec fn pending_entry_of(d: PendingFriendResponseDTO, pair: (Friend, User)) -> bool {
    &&& d.id == pair.1.id
    &&& d.pioki_id == pair.1.pioki_id
    &&& d.oauth_display_name == pair.1.oauth_display_name
    &&& d.oauth_profile_picture == pair.1.oauth_profile_picture
    &&& d.requested_at == pair.0.created_at
    &&& d.coin_owned == pair.1.coin_amount
}

/// `d` shows the user of `pair` as a friend under the row's sender identifier.
pub open spec fn friend_entry_of(d: ListFriendResponseDTO, pair: (Friend, User)) -> bool {
    &&& d.id == pair.1.id
    &&& d.pioki_id == pair.0.pioki_id
    &&& d.oauth_display_name == pair.1.oauth_display_name
    &&& d.oauth_profile_picture == pair.1.oauth_profile_picture
    &&& d.coin_owned == pair.1.coin_amount
}

/// The entries of a list of friend requests, in order.
pub fn pending_friend_entries(pairs: Vec<(Friend, User)>) -> (r: Vec<PendingFriendResponseDTO>)
    ensures
        r@.len() == pairs@.len(),
        forall|i: int| 0 <= i < r@.len() ==> pending_entry_of(#[trigger] r@[i], pairs@[i]),
{
    let mut res: Vec<PendingFriendResponseDTO> = Vec::new();
    let mut i: usize = 0;
    while i < pairs.len()
        invariant
            0 <= i <= pairs@.len(),
            res@.len() == i,
            forall|k: int| 0 <= k < i ==> pending_entry_of(#[trigger] res@[k], pairs@[k]),
        decreases pairs@.len() - i,
    {
        let ele = &pairs[i];
        res.push(
            PendingFriendResponseDTO {
                id: ele.1.id,
                oauth_display_name: ele.1.oauth_display_name.clone(),
                oauth_profile_picture: crate::models::clone_optional_string(&ele.1.oauth_profile_picture),
                pioki_id: ele.1.pioki_id.clone(),
                requested_at: ele.0.created_at,
                coin_owned: ele.1.coin_amount.clone(),
            },
        );
        i = i + 1;
    }
    res
}

/// The entries of a list of friends, in order.
pub fn friend_entries(pairs: Vec<(Friend, User)>) -> (r: Vec<ListFriendResponseDTO>)
    ensures
        r@.len() == pairs@.len(),
        forall|i: int| 0 <= i < r@.len() ==> friend_entry_of(#[trigger] r@[i], pairs@[i]),
{
    let mut res: Vec<ListFriendResponseDTO> = Vec::new();
    let mut i: usize = 0;
    while i < pairs.len()
        invariant
            0 <= i <= pairs@.len(),
            res@.len() == i,
            forall|k: int| 0 <= k < i ==> friend_entry_of(#[trigger] res@[k], pairs@[k]),
        decreases pairs@.len() - i,
    {
        let ele = &pairs[i];
        res.push(
            ListFriendResponseDTO {
                id: ele.1.id,
                oauth_display_name: ele.1.oauth_display_name.clone(),
                oauth_profile_picture: crate::models::clone_optional_string(&ele.1.oauth_profile_picture),
                pioki_id: ele.0.pioki_id.clone(),
                coin_owned: ele.1.coin_amount.clone(),
            },
        );
        i = i + 1;
    }
    res
}

/// The text of the answer for a friend request to an unknown user.
pub open spec fn unknown_user_message(id: Seq<char>) -> Seq<char> {
    "User with id:\""@ + id + "\" doesn't exist"@
}

/// The answer to a request for an unknown user names the requested
/// identifier, whole and unchanged, inside the same fixed sentence.
pub proof fn lemma_unknown_user_message_names_id(id: Seq<char>)
    ensures
        unknown_user_message(id) == "User with id:\""@ + id + "\" doesn't exist"@,
        unknown_user_message(id).len() == unknown_user_message(Seq::empty()).len() + id.len(),
{
    let e = Seq::<char>::empty();
    assert("User with id:\""@ + e + "\" doesn't exist"@ =~= "User with id:\""@ + "\" doesn't exist"@);
}

/// Decides a friend request once the target user was looked up: `None` means
/// go on and insert the request; a failed lookup is answered 500; an unknown
/// user 404 with a message that names the identifier.
pub fn friend_request_after_lookup(lookup: Result<Option<User>, DbFailure>, send_to_user_id: &str) -> (r:
    Option<Reply<Friend>>)
    ensures
        match lookup {
            Ok(Some(_)) => r is None,
            Ok(None) => r matches Some(reply) && is_message_reply(reply, 404, unknown_user_message(send_to_user_id@)),
            Err(_) => r matches Some(reply) && is_text_reply(reply, 500, "Something might have gone wrong . . ."@),
        },
{
    match lookup {
        Ok(user) => match user {
            Some(_) => None,
            None => {
                let mut msg = "User with id:\"".to_owned();
                msg.append(send_to_user_id);
                msg.append("\" doesn't exist");
                let mut res: crate::response::ResponseToUserEnd<Friend> = crate::response::ResponseToUserEnd::default();
                res.message = Some(msg);
                Some(Reply { status: 404, body: ReplyBody::Json(res) })
            },
        },
        Err(_) => Some(text_reply(500, "Something might have gone wrong . . .")),
    }
}

/// Database failures that the friend-request answer knows how to report.
pub open spec fn friend_request_failure_handled(result: Result<Friend, DbFailure>) -> bool {
    result matches Err(e) ==> e.kind != DbFailureKind::OtherDatabaseError
}

/// The answer once the friend request was inserted: 200 with the request
/// itself; a request that exists already 400; a refused reference 400, saying
/// that the caller's identifier is invalid where the refused constraint is the
/// sender's, else with the database's text; any other failure 500.
pub fn friend_request_reply(result: Result<Friend, DbFailure>) -> (r: Reply<Friend>)
    requires
        friend_request_failure_handled(result),
    ensures
        match result {
            Ok(f) => r == Reply { status: 200, body: ReplyBody::Raw(f) },
            Err(e) => match e.kind {
                DbFailureKind::UniqueViolation => is_message_reply(
                    r,
                    400,
                    "Request is already in pending state"@,
                ),
                DbFailureKind::ForeignKeyViolation => if contains_text(e.message@, "friends_pioki_id_fkey"@) {
                    is_text_reply(r, 400, "Your user_id is invalid"@)
                } else {
                    r == Reply::<Friend> { status: 400, body: ReplyBody::Text(e.message) }
                },
                _ => is_text_reply(r, 500, "Something might have gone wrong . . ."@),
            },
        },
{
    match result {
        Ok(created_friend_request) => Reply { status: 200, body: ReplyBody::Raw(created_friend_request) },
        Err(e) => match e.kind {
            DbFailureKind::UniqueViolation => message_reply(400, "Request is already in pending state"),
            DbFailureKind::ForeignKeyViolation => {
                if contains(e.message.as_str(), "friends_pioki_id_fkey") {
                    return text_reply(400, "Your user_id is invalid");
                }
                Reply { status: 400, body: ReplyBody::Text(e.message) }
            },
            _ => text_reply(500, "Something might have gone wrong . . ."),
        },
    }
}

/// The answer listing the friend requests sent to the caller: 200 with the
/// entries, 502 where the caller is unknown or the list failed.
pub fn pending_friend_requests_reply(
    identifier_data: &Option<PIOKIIdentifierData>,
    result: Result<Vec<(Friend, User)>, DbFailure>,
) -> (r: Reply<Vec<PendingFriendResponseDTO>>)
    ensures
        match (identifier_data, result) {
            (Some(_), Ok(pairs)) => r.status == 200 && (r.body matches ReplyBody::Json(b) && {
                &&& b.message matches Some(m) && m@ == "success"@
                &&& b.response_type is None
                &&& b.validation_errors_by_field is None
                &&& b.data matches Some(entries) && entries@.len() == pairs@.len() && forall|i: int|
                    0 <= i < entries@.len() ==> pending_entry_of(#[trigger] entries@[i], pairs@[i])
            }),
            _ => is_text_reply(r, 502, "Bad incoming source"@),
        },
{
    match identifier_data {
        Some(_) => match result {
            Ok(pairs) => {
                let entries = pending_friend_entries(pairs);
                data_reply(200, "success", entries)
            },
            Err(_) => text_reply(502, "Bad incoming source"),
        },
        None => text_reply(502, "Bad incoming source"),
    }
}

/// The answer listing a user's friends: 200 with the entries, 502 where the
/// list failed.
pub fn friend_list_reply(result: Result<Vec<(Friend, User)>, DbFailure>) -> (r: Reply<Vec<ListFriendResponseDTO>>)
    ensures
        match result {
            Ok(pairs) => r.status == 200 && (r.body matches ReplyBody::Json(b) && {
                &&& b.message matches Some(m) && m@ == "success"@
                &&& b.response_type is None
                &&& b.validation_errors_by_field is None
                &&& b.data matches Some(entries) && entries@.len() == pairs@.len() && forall|i: int|
                    0 <= i < entries@.len() ==> friend_entry_of(#[trigger] entries@[i], pairs@[i])
            }),
            Err(_) => is_text_reply(r, 502, "Bad incoming source"@),
        },
{
    match result {
        Ok(pairs) => {
            let entries = friend_entries(pairs);
            data_reply(200, "success", entries)
        },
        Err(_) => text_reply(502, "Bad incoming source"),
    }
}

/// The answer to a removal of a friend: 502 where the caller is unknown, 500
/// where the removal failed, else 200.
pub fn remove_friend_reply(identifier_data: &Option<PIOKIIdentifierData>, removed: bool) -> (r: Reply<()>)
    ensures
        match identifier_data {
            None => is_text_reply(r, 502, "Bad incoming source"@),
            Some(_) => if removed {
                is_message_reply(r, 200, "success"@)
            } else {
                is_message_reply(r, 500, "Unknown error has occured"@)
            },
        },
{
    match identifier_data {
        Some(_) => {
            if !removed {
                return message_reply(500, "Unknown error has occured");
            }
            message_reply(200, "success")
        },
        None => text_reply(502, "Bad incoming source"),
    }
}

} // verus!
