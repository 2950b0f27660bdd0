use vstd::prelude::*;
use vstd::string::StringSliceAdditionalSpecFns;
use crate::access::PIOKIIdentifierData;
use crate::db::{DbFailure, DbFailureKind};
use crate::dtos::CreateUserDTO;
use crate::models::{NewUser, User};
use crate::response::{
    data_reply, is_data_reply, is_message_reply, is_text_reply, message_reply, text_reply, Reply,
};
use crate::validation::{
    is_validation_error_reply, throw_error_response_based_on_validation_error_kind, ValidationErrorKind,
};

verus! {

/// The longest display name kept, in bytes.
pub const DISPLAY_NAME_MAX_BYTES: usize = 32;

/// The number of bytes of a display name that are kept.
pub open spec fn kept_name_bytes(len: nat) -> nat {
    if len > 32 {
        32
    } else {
        len
    }
}

/// A display name keeps all its bytes up to 32, and exactly 32 beyond.
pub proof fn lemma_kept_name_bytes(len: nat)
    ensures
        kept_name_bytes(len) <= 32,
        kept_name_bytes(len) <= len,
        len <= 32 ==> kept_name_bytes(len) == len,
        len > 32 ==> kept_name_bytes(len) == 32,
{
}

/// The display name kept for a new user: its first 32 bytes, or all of it when
/// it is shorter. The cut must fall on a character boundary.
pub fn truncate_display_name(name: &str) -> (r: &str)
    requires
        name.spec_bytes().len() <= usize::MAX,
        name.spec_bytes().len() > 32 ==> vstd::utf8::is_char_boundary(name.spec_bytes(), 32),
    ensures
        r.spec_bytes() == name.spec_bytes().subrange(0, kept_name_bytes(name.spec_bytes().len()) as int),
        r@ == name@.take(r@.len() as int),
{
    let n = if name.len() > DISPLAY_NAME_MAX_BYTES {
        DISPLAY_NAME_MAX_BYTES
    } else {
        name.len()
    };
    proof {
        vstd::utf8::encode_utf8_valid_utf8(name@);
        vstd::utf8::is_char_boundary_start_end_of_seq(name.spec_bytes());
        assert(vstd::utf8::is_char_boundary(name.spec_bytes(), n as int));
    }
    let (head, _) = name.split_at(n);
    proof {
        lemma_cut_at_boundary_is_prefix(name@, n as int);
        vstd::utf8::encode_utf8_decode_utf8(head@);
    }
    head
}

/// Cutting the encoding of `s` at a character boundary keeps a prefix of its characters.
proof fn lemma_cut_at_boundary_is_prefix(s: Seq<char>, n: int)
    requires
        0 <= n <= vstd::utf8::encode_utf8(s).len(),
        vstd::utf8::is_char_boundary(vstd::utf8::encode_utf8(s), n),
    ensures
        vstd::utf8::decode_utf8(vstd::utf8::encode_utf8(s).subrange(0, n)).len() <= s.len(),
        vstd::utf8::decode_utf8(vstd::utf8::encode_utf8(s).subrange(0, n)) == s.take(
            vstd::utf8::decode_utf8(vstd::utf8::encode_utf8(s).subrange(0, n)).len() as int,
        ),
{
    let b = vstd::utf8::encode_utf8(s);
    vstd::utf8::encode_utf8_valid_utf8(s);
    vstd::utf8::encode_utf8_decode_utf8(s);
    vstd::utf8::decode_utf8_split(b, n);
    let head = vstd::utf8::decode_utf8(b.subrange(0, n));
    let tail = vstd::utf8::decode_utf8(b.subrange(n, b.len() as int));
    assert(s =~= head + tail);
    assert(s.take(head.len() as int) =~= head);
}

/// The characters of an optional string.
pub open spec fn optional_view(o: Option<String>) -> Option<Seq<char>> {
    match o {
        Some(s) => Some(s@),
        None => None,
    }
}

/// The optional string `o` is the optional text `t`.
pub open spec fn same_optional_text(o: Option<String>, t: Option<&str>) -> bool {
    match t {
        Some(p) => o matches Some(q) && q@ == p@,
        None => o is None,
    }
}

/// The row that creating user `pioki_id` inserts; a new user is active.
pub fn new_user_record(pioki_id: &str, display_name: &str, profile_picture_url: Option<&str>) -> (r: NewUser)
    ensures
        r.pioki_id@ == pioki_id@,
        r.oauth_display_name@ == display_name@,
        same_optional_text(r.oauth_profile_picture, profile_picture_url),
        r.is_active,
{
    let picture = match profile_picture_url {
        Some(p) => Some(p.to_owned()),
        None => None,
    };
    NewUser {
        pioki_id: pioki_id.to_owned(),
        oauth_display_name: display_name.to_owned(),
        oauth_profile_picture: picture,
        is_active: true,
    }
}

/// The display name of `d` can be cut to its first 32 bytes (and its length
/// fits in `usize`).
pub open spec fn display_name_cuttable(d: CreateUserDTO) -> bool {
    &&& vstd::utf8::encode_utf8(d.oauth_display_name@).len() <= usize::MAX
    &&&     vstd::utf8::encode_utf8(d.oauth_display_name@).len() > 32 ==> vstd::utf8::is_char_boundary(
        vstd::utf8::encode_utf8(d.oauth_display_name@),
        32,
    )
}

/// Decides a request that creates a user, before anything is written: a refused
/// body is answered as `throw_error_response_based_on_validation_error_kind`
/// answers it; a request without the caller's identifier is answered 502; else
/// the row to insert is the caller's identifier, the display name cut to 32
/// bytes and the picture.
pub fn create_user_plan(
    dto: Result<CreateUserDTO, ValidationErrorKind>,
    identifier_data: Option<PIOKIIdentifierData>,
) -> (r: Result<NewUser, Reply<User>>)
    requires
        dto matches Ok(d) ==> (identifier_data is Some ==> display_name_cuttable(d)),
    ensures
        match dto {
            Err(k) => r matches Err(reply) && is_validation_error_reply(reply, k),
            Ok(d) => match identifier_data {
                None => r matches Err(reply) && is_text_reply(reply, 502, "Bad incoming source"@),
                Some(id) => r matches Ok(row) && {
                    &&& row.pioki_id@ == id.id@
                    &&& vstd::utf8::encode_utf8(row.oauth_display_name@)
                        == vstd::utf8::encode_utf8(d.oauth_display_name@).subrange(
                        0,
                        kept_name_bytes(vstd::utf8::encode_utf8(d.oauth_display_name@).len()) as int,
                    )
                    &&& optional_view(row.oauth_profile_picture) == optional_view(d.oauth_profile_picture)
                    &&& row.is_active
                },
            },
        },
{
    match dto {
        Ok(create_user_dto) => match identifier_data {
            Some(identifier) => {
                let name = truncate_display_name(create_user_dto.oauth_display_name.as_str());
                let picture = match &create_user_dto.oauth_profile_picture {
                    Some(p) => Some(p.as_str()),
                    None => None,
                };
                let row = new_user_record(identifier.id.as_str(), name, picture);
                proof {
                }
                Ok(row)
            },
            None => Err(text_reply(502, "Bad incoming source")),
        },
        Err(ekind) => Err(throw_error_response_based_on_validation_error_kind(ekind)),
    }
}

/// The answer once the user row was inserted: 201 with the user; an existing
/// identifier is answered 409; any other failure 500.
pub fn create_user_reply(result: Result<User, DbFailure>) -> (r: Reply<User>)
    ensures
        match result {
            Ok(u) => is_data_reply(r, 201, "success"@, u),
            Err(e) => if e.kind == DbFailureKind::UniqueViolation {
                is_text_reply(r, 409, "Identifier does already exist"@)
            } else {
                is_text_reply(r, 500, "Something went wrong creating user"@)
            },
        },
{
    match result {
        Ok(created_user) => data_reply(201, "success", created_user),
        Err(e) => if e.kind == DbFailureKind::UniqueViolation {
            text_reply(409, "Identifier does already exist")
        } else {
            text_reply(500, "Something went wrong creating user")
        },
    }
}

/// The answer to a lookup of one user: 200 with the user, 404 when there is
/// none, 500 with the failure's text when the lookup failed.
pub fn get_user_reply(result: Result<Option<User>, DbFailure>) -> (r: Reply<User>)
    ensures
        match result {
            Ok(Some(u)) => is_data_reply(r, 200, "success"@, u),
            Ok(None) => is_message_reply(r, 404, "Not found"@),
            Err(e) => r == Reply::<User> { status: 500, body: crate::response::ReplyBody::Text(e.message) },
        },
{
    match result {
        Ok(user_opt) => match user_opt {
            Some(user) => data_reply(200, "success", user),
            None => message_reply(404, "Not found"),
        },
        Err(e) => Reply { status: 500, body: crate::response::ReplyBody::Text(e.message) },
    }
}

/// The answer listing all users.
pub fn get_users_reply(users: Vec<User>) -> (r: Reply<Vec<User>>)
    ensures
        is_data_reply(r, 200, "success"@, users),
{
    data_reply(200, "success", users)
}

} // verus!
