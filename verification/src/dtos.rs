use vstd::prelude::*;
use crate::response::{data_reply, is_data_reply, Reply};
use crate::validation::{
    error_if, length_error, length_within, url_field_errors, FieldError, FieldErrorView, Validate,
    ValidationErrors,
};

verus! {

/// The body of a request that creates a post.
#[derive(Debug, Clone, PartialEq)]
pub struct CreatePostDTO {
    /// Must not be empty.
    pub content: String,
    /// How many users may hold the post at once.
    pub quota_limit: u32,
    /// Must be a url where given.
    pub oauth_profile_picture: Option<String>,
    /// From 3 to 50 characters where given.
    pub spoiler_header: Option<String>,
}

/// The body of a request that creates a user.
#[derive(Debug, Clone, PartialEq)]
pub struct CreateUserDTO {
    /// At least 3 characters.
    pub oauth_display_name: String,
    /// Must be a url where given.
    pub oauth_profile_picture: Option<String>,
}

/// The path parameters of a request about one post.
#[derive(Debug, Clone, PartialEq)]
pub struct PostIdParams {
    pub post_id: String,
}

/// The path parameters of a friend request.
#[derive(Debug, Clone, PartialEq)]
pub struct SendFriendRequestParams {
    pub send_to_user_id: String,
}

/// The path parameters of a request about one user.
#[derive(Debug, Clone, PartialEq)]
pub struct UserIdParams {
    pub user_id: String,
}

/// The answer to "how am I related to this user".
#[derive(Debug, Clone, PartialEq)]
pub struct RelationshipCheckResponseDTO {
    pub status: String,
}

impl Default for RelationshipCheckResponseDTO {
    fn default() -> (r: Self)
        ensures
            r.status@ == Seq::<char>::empty(),
    {
        RelationshipCheckResponseDTO { status: String::new() }
    }
}

/// How one user stands to another.
#[derive(Debug, Clone, Copy, PartialEq, Eq)]
pub enum RelationshipStatus {
    /// The first user asked the second to be friends.
    Requested,
    /// Both are friends.
    Friended,
    /// The second user asked the first, who has not answered.
    Pending,
    Unrelated,
}

/// The name under which a status is reported.
pub open spec fn relationship_status_name(s: RelationshipStatus) -> Seq<char> {
    match s {
        RelationshipStatus::Requested => "requested"@,
        RelationshipStatus::Friended => "friended"@,
        RelationshipStatus::Pending => "pending"@,
        RelationshipStatus::Unrelated => "none"@,
    }
}

impl RelationshipStatus {
    /// The name under which the status is reported.
    pub fn to_string(&self) -> (r: String)
        ensures
            r@ == relationship_status_name(*self),
    {
        match self {
            RelationshipStatus::Requested => "requested".to_owned(),
            RelationshipStatus::Friended => "friended".to_owned(),
            RelationshipStatus::Pending => "pending".to_owned(),
            RelationshipStatus::Unrelated => "none".to_owned(),
        }
    }
}

/// Counts over the whole service.
#[derive(Debug, Clone, Copy, PartialEq, Eq)]
pub struct StatisticDataOutput {
    pub total_user: i64,
    pub total_created_post: i64,
    pub total_post_kept: i64,
    pub total_post_passed_along: i64,
}

impl Default for StatisticDataOutput {
    fn default() -> (r: Self)
        ensures
            r == (StatisticDataOutput {
                total_user: 0,
                total_created_post: 0,
                total_post_kept: 0,
                total_post_passed_along: 0,
            }),
    {
        StatisticDataOutput {
            total_user: 0,
            total_created_post: 0,
            total_post_kept: 0,
            total_post_passed_along: 0,
        }
    }
}

/// The answer that reports the service's counts.
pub fn statistic_data_reply(data: StatisticDataOutput) -> (r: Reply<StatisticDataOutput>)
    ensures
        is_data_reply(r, 200, "success"@, data),
{
    data_reply(200, "success", data)
}

/// Whether the service marks its callers as suspicious.
#[derive(Debug, Clone, Copy, PartialEq, Eq)]
pub struct AppState {
    pub suspicious: bool,
}

/// The errors of an optional field that must hold from `min` to `max` characters.
pub open spec fn optional_length_errors(
    field: Seq<char>,
    message: Seq<char>,
    min: Option<u64>,
    max: Option<u64>,
    v: Option<String>,
) -> Seq<FieldErrorView> {
    match v {
        Some(s) => error_if(!length_within(s@, min, max), length_error(field, message, min, max, s@)),
        None => seq![],
    }
}

/// Checks that `value` holds from `min` to `max` characters and appends the error to `errs`.
fn check_length_field(
    field: &str,
    message: &str,
    min: Option<u64>,
    max: Option<u64>,
    value: &String,
    errs: &mut Vec<FieldError>,
)
    ensures
        final(errs)@.map_values(|e: FieldError| e@) == old(errs)@.map_values(|e: FieldError| e@)
            + error_if(
            !length_within(value@, min, max),
            length_error(field@, message@, min, max, value@),
        ),
{
    let ghost before = errs@.map_values(|e: FieldError| e@);
    if !crate::validation::check_length(value.as_str(), min, max) {
        let e = crate::validation::make_length_error(field, message, min, max, value);
        errs.push(e);
        assert(errs@.map_values(|e: FieldError| e@) =~= before + seq![e@]);
    } else {
        assert(errs@.map_values(|e: FieldError| e@) =~= before + seq![]);
    }
}

/// Checks an optional field of `min` to `max` characters and appends its error to `errs`.
fn check_optional_length_field(
    field: &str,
    message: &str,
    min: Option<u64>,
    max: Option<u64>,
    value: &Option<String>,
    errs: &mut Vec<FieldError>,
)
    ensures
        final(errs)@.map_values(|e: FieldError| e@) == old(errs)@.map_values(|e: FieldError| e@)
            + optional_length_errors(field@, message@, min, max, *value),
{
    let ghost before = errs@.map_values(|e: FieldError| e@);
    match value {
        Some(s) => check_length_field(field, message, min, max, s, errs),
        None => {
            assert(errs@.map_values(|e: FieldError| e@) =~= before + seq![]);
        },
    }
}

/// A post body passes its checks exactly when its content is not empty, its
/// picture (where given) is a url, and its spoiler header (where given) holds
/// from 3 to 50 characters.
pub proof fn lemma_create_post_valid_iff(dto: CreatePostDTO)
    ensures
        dto.expected_errors().len() == 0 <==> {
            &&& dto.content@.len() >= 1
            &&& (dto.oauth_profile_picture matches Some(u) ==> crate::validation::parses_as_url(u@))
            &&& (dto.spoiler_header matches Some(s) ==> 3 <= s@.len() <= 50)
        },
{
}

/// A user body passes its checks exactly when its display name holds at least
/// 3 characters and its picture (where given) is a url.
pub proof fn lemma_create_user_valid_iff(dto: CreateUserDTO)
    ensures
        dto.expected_errors().len() == 0 <==> {
            &&& dto.oauth_display_name@.len() >= 3
            &&& (dto.oauth_profile_picture matches Some(u) ==> crate::validation::parses_as_url(u@))
        },
{
}

/// What each failed check of a post body reports: an empty content is the
/// first error, a header outside 3 to 50 characters the last, and a picture
/// that is not a url is among them, each with its field, code, message,
/// bounds and the failing value.
pub proof fn lemma_create_post_error_details(dto: CreatePostDTO)
    ensures
        dto.content@.len() == 0 ==> dto.expected_errors()[0] == (FieldErrorView {
            field: "content"@,
            code: "length"@,
            message: "Content data cannot be empty"@,
            min: Some(1u64),
            max: None,
            value: dto.content@,
        }),
        (dto.spoiler_header matches Some(h) ==> (!(3 <= h@.len() <= 50) ==> dto.expected_errors().last()
            == (FieldErrorView {
            field: "spoiler_header"@,
            code: "length"@,
            message: "Should have atleast 3 characters and at most 50 characters"@,
            min: Some(3u64),
            max: Some(50u64),
            value: h@,
        }))),
        (dto.oauth_profile_picture matches Some(u) ==> (!crate::validation::parses_as_url(u@)
            ==> dto.expected_errors().contains(
            FieldErrorView {
                field: "oauth_profile_picture"@,
                code: "url"@,
                message: "The url is invalid"@,
                min: None,
                max: None,
                value: u@,
            },
        ))),
{
    let a = error_if(
        !length_within(dto.content@, Some(1), None),
        length_error("content"@, "Content data cannot be empty"@, Some(1), None, dto.content@),
    );
    let b = url_field_errors("oauth_profile_picture"@, "The url is invalid"@, dto.oauth_profile_picture);
    let c = optional_length_errors(
        "spoiler_header"@,
        "Should have atleast 3 characters and at most 50 characters"@,
        Some(3),
        Some(50),
        dto.spoiler_header,
    );
    assert(dto.expected_errors() == a + b + c);
    if b.len() == 1 {
        assert((a + b + c)[a.len() as int] == b[0]);
    }
}

/// What each failed check of a user body reports: a display name under 3
/// characters is the first error, and a picture that is not a url the last.
pub proof fn lemma_create_user_error_details(dto: CreateUserDTO)
    ensures
        dto.oauth_display_name@.len() < 3 ==> dto.expected_errors()[0] == (FieldErrorView {
            field: "oauth_display_name"@,
            code: "length"@,
            message: "Should have atleast 3 characters"@,
            min: Some(3u64),
            max: None,
            value: dto.oauth_display_name@,
        }),
        (dto.oauth_profile_picture matches Some(u) ==> (!crate::validation::parses_as_url(u@)
            ==> dto.expected_errors().last() == (FieldErrorView {
            field: "oauth_profile_picture"@,
            code: "url"@,
            message: "The url is invalid"@,
            min: None,
            max: None,
            value: u@,
        }))),
{
}

impl Validate for CreatePostDTO {
    open spec fn expected_errors(&self) -> Seq<FieldErrorView> {
        error_if(
            !length_within(self.content@, Some(1), None),
            length_error("content"@, "Content data cannot be empty"@, Some(1), None, self.content@),
        ) + url_field_errors("oauth_profile_picture"@, "The url is invalid"@, self.oauth_profile_picture)
            + optional_length_errors(
            "spoiler_header"@,
            "Should have atleast 3 characters and at most 50 characters"@,
            Some(3),
            Some(50),
            self.spoiler_header,
        )
    }

    fn validate(&self) -> (r: Result<(), ValidationErrors>) {
        let mut errs: Vec<FieldError> = Vec::new();
        assert(errs@.map_values(|e: FieldError| e@) =~= Seq::<FieldErrorView>::empty());
        check_length_field("content", "Content data cannot be empty", Some(1), None, &self.content, &mut errs);
        crate::validation::check_url_field(
            "oauth_profile_picture",
            "The url is invalid",
            &self.oauth_profile_picture,
            &mut errs,
        );
        check_optional_length_field(
            "spoiler_header",
            "Should have atleast 3 characters and at most 50 characters",
            Some(3),
            Some(50),
            &self.spoiler_header,
            &mut errs,
        );
        assert(errs@.map_values(|e: FieldError| e@) =~= self.expected_errors());
        if errs.len() == 0 {
            Ok(())
        } else {
            Err(ValidationErrors { field_errors: errs })
        }
    }
}

impl Validate for CreateUserDTO {
    open spec fn expected_errors(&self) -> Seq<FieldErrorView> {
        error_if(
            !length_within(self.oauth_display_name@, Some(3), None),
            length_error(
                "oauth_display_name"@,
                "Should have atleast 3 characters"@,
                Some(3),
                None,
                self.oauth_display_name@,
            ),
        ) + url_field_errors("oauth_profile_picture"@, "The url is invalid"@, self.oauth_profile_picture)
    }

    fn validate(&self) -> (r: Result<(), ValidationErrors>) {
        let mut errs: Vec<FieldError> = Vec::new();
        assert(errs@.map_values(|e: FieldError| e@) =~= Seq::<FieldErrorView>::empty());
        check_length_field(
            "oauth_display_name",
            "Should have atleast 3 characters",
            Some(3),
            None,
            &self.oauth_display_name,
            &mut errs,
        );
        crate::validation::check_url_field(
            "oauth_profile_picture",
            "The url is invalid",
            &self.oauth_profile_picture,
            &mut errs,
        );
        assert(errs@.map_values(|e: FieldError| e@) =~= self.expected_errors());
        if errs.len() == 0 {
            Ok(())
        } else {
            Err(ValidationErrors { field_errors: errs })
        }
    }
}

} // verus!
