use vstd::prelude::*;
use validator::ValidateLength;
use validator::ValidateUrl;
use crate::response::{Reply, ReplyBody, ResponseToUserEnd};

verus! {

/// One failed check of one field, as the request's author is told about it.
#[derive(Debug, Clone, PartialEq)]
pub struct FieldError {
    /// The name of the field.
    pub field: String,
    /// Which check failed: `length` or `url`.
    pub code: String,
    pub message: String,
    /// The bounds of a length check.
    pub min: Option<u64>,
    pub max: Option<u64>,
    /// The value that failed.
    pub value: String,
}

/// A `FieldError` as plain sequences.
pub struct FieldErrorView {
    pub field: Seq<char>,
    pub code: Seq<char>,
    pub message: Seq<char>,
    pub min: Option<u64>,
    pub max: Option<u64>,
    pub value: Seq<char>,
}

impl View for FieldError {
    type V = FieldErrorView;

    open spec fn view(&self) -> FieldErrorView {
        FieldErrorView {
            field: self.field@,
            code: self.code@,
            message: self.message@,
            min: self.min,
            max: self.max,
            value: self.value@,
        }
    }
}

/// The failed checks of a request body, field by field in declaration order.
#[derive(Debug, Clone, PartialEq)]
pub struct ValidationErrors {
    pub field_errors: Vec<FieldError>,
}

impl ValidationErrors {
    /// The failed checks as plain sequences.
    pub open spec fn errors_view(&self) -> Seq<FieldErrorView> {
        self.field_errors@.map_values(|e: FieldError| e@)
    }
}

/// A request body that was not valid JSON of the expected shape.
#[derive(Debug, Clone, PartialEq)]
pub struct SerializationErrorData {
    pub message: String,
}

impl SerializationErrorData {
    /// Wraps the parser's message.
    pub fn new(msg: String) -> (r: Self)
        ensures
            r.message == msg,
    {
        Self { message: msg }
    }
}

/// A request body whose fields failed their checks.
#[derive(Debug, Clone, PartialEq)]
pub struct ValidationErrorData {
    pub errors: ValidationErrors,
}

impl ValidationErrorData {
    /// Wraps the failed checks.
    pub fn new(errors: ValidationErrors) -> (r: Self)
        ensures
            r.errors == errors,
    {
        Self { errors }
    }
}

/// Why a request body was refused.
#[derive(Debug, Clone, PartialEq)]
pub enum ValidationErrorKind {
    SerializationError(SerializationErrorData),
    ValidationError(ValidationErrorData),
}

/// Whether `url::Url::parse` accepts the text `s`.
pub uninterp spec fn parses_as_url(s: Seq<char>) -> bool;

/// The number of characters of `s` lies within the optional bounds.
pub open spec fn length_within(s: Seq<char>, min: Option<u64>, max: Option<u64>) -> bool {
    &&& (min matches Some(m) ==> s.len() >= m)
    &&& (max matches Some(m) ==> s.len() <= m)
}

/// Calls `validator::ValidateLength::validate_length` on a string with no
/// `equal` bound. Its source counts the characters (`chars().count()`) and
/// compares the count with the bounds that are given.
#[verifier::external_body]
pub(crate) fn check_length(s: &str, min: Option<u64>, max: Option<u64>) -> (ok: bool)
    ensures
        ok == length_within(s@, min, max),
{
    s.validate_length(min, max, None)
}

/// Calls `validator::ValidateUrl::validate_url` on a string, which is whether
/// `url::Url::parse` accepts it; that result is named, not stated.
#[verifier::external_body]
fn validate_url(s: &str) -> (ok: bool)
    ensures
        ok == parses_as_url(s@),
{
    s.validate_url()
}

/// The error that a failed length check of `field` reports.
pub open spec fn length_error(
    field: Seq<char>,
    message: Seq<char>,
    min: Option<u64>,
    max: Option<u64>,
    value: Seq<char>,
) -> FieldErrorView {
    FieldErrorView { field, code: "length"@, message, min, max, value }
}

/// The error that a failed url check of `field` reports.
pub open spec fn url_error(field: Seq<char>, message: Seq<char>, value: Seq<char>) -> FieldErrorView {
    FieldErrorView { field, code: "url"@, message, min: None, max: None, value }
}

/// One error where `failed`, none otherwise.
pub open spec fn error_if(failed: bool, e: FieldErrorView) -> Seq<FieldErrorView> {
    if failed {
        seq![e]
    } else {
        seq![]
    }
}

/// The errors of an optional url field.
pub open spec fn url_field_errors(field: Seq<char>, message: Seq<char>, v: Option<String>) -> Seq<FieldErrorView> {
    match v {
        Some(u) => error_if(!parses_as_url(u@), url_error(field, message, u@)),
        None => seq![],
    }
}

/// A request body whose fields are checked before it is used.
pub trait Validate: Sized {
    /// The failed checks of this body, in field order; empty when it is valid.
    spec fn expected_errors(&self) -> Seq<FieldErrorView>;

    /// Runs the checks.
    fn validate(&self) -> (r: Result<(), ValidationErrors>)
        ensures
            r is Ok <==> self.expected_errors().len() == 0,
            r matches Err(e) ==> e.errors_view() == self.expected_errors(),
    ;
}

/// Builds a length error.
pub(crate) fn make_length_error(field: &str, message: &str, min: Option<u64>, max: Option<u64>, value: &String) -> (r: FieldError)
    ensures
        r@ == length_error(field@, message@, min, max, value@),
{
    FieldError {
        field: field.to_owned(),
        code: "length".to_owned(),
        message: message.to_owned(),
        min,
        max,
        value: value.clone(),
    }
}

/// Checks an optional url field and appends its error to `errs`.
pub(crate) fn check_url_field(field: &str, message: &str, v: &Option<String>, errs: &mut Vec<FieldError>)
    ensures
        final(errs)@.map_values(|e: FieldError| e@) == old(errs)@.map_values(|e: FieldError| e@)
            + url_field_errors(field@, message@, *v),
{
    let ghost before = errs@.map_values(|e: FieldError| e@);
    match v {
        Some(u) => {
            if !validate_url(u.as_str()) {
                let e = FieldError {
                    field: field.to_owned(),
                    code: "url".to_owned(),
                    message: message.to_owned(),
                    min: None,
                    max: None,
                    value: u.clone(),
                };
                errs.push(e);
                assert(errs@.map_values(|e: FieldError| e@) =~= before + seq![e@]);
            } else {
                assert(errs@.map_values(|e: FieldError| e@) =~= before + seq![]);
            }
        },
        None => {
            assert(errs@.map_values(|e: FieldError| e@) =~= before + seq![]);
        },
    }
}

/// Turns the outcome of parsing a request body into the checked body: a parse
/// failure becomes a `SerializationError` with the parser's message, failed
/// checks become a `ValidationError`, and a valid body is handed back.
pub fn serialize_body_into_struct<T: Validate>(parsed: Result<T, String>) -> (r: Result<T, ValidationErrorKind>)
    ensures
        match parsed {
            Err(msg) => r == Err::<T, ValidationErrorKind>(
                ValidationErrorKind::SerializationError(SerializationErrorData { message: msg }),
            ),
            Ok(dto) => if dto.expected_errors().len() == 0 {
                r == Ok::<T, ValidationErrorKind>(dto)
            } else {
                r matches Err(ValidationErrorKind::ValidationError(d))
                    && d.errors.errors_view() == dto.expected_errors()
            },
        },
{
    match parsed {
        Ok(dto) => match dto.validate() {
            Ok(_) => Ok(dto),
            Err(e) => Err(ValidationErrorKind::ValidationError(ValidationErrorData::new(e))),
        },
        Err(msg) => Err(ValidationErrorKind::SerializationError(SerializationErrorData::new(msg))),
    }
}

/// `r` is the answer to a request body refused for `ekind`: a parse failure is
/// answered 422 with the parser's message as text; failed checks are answered
/// 400 with an envelope of type `Validation error` that carries them.
pub open spec fn is_validation_error_reply<T>(r: Reply<T>, ekind: ValidationErrorKind) -> bool {
    match ekind {
        ValidationErrorKind::SerializationError(e) => r == Reply::<T> {
            status: 422,
            body: ReplyBody::Text(e.message),
        },
        ValidationErrorKind::ValidationError(e) => {
            &&& r.status == 400
            &&& r.body matches ReplyBody::Json(b) && {
                &&& b.response_type matches Some(t) && t@ == "Validation error"@
                &&& b.message is None
                &&& b.validation_errors_by_field == Some(e.errors)
                &&& b.data is None
            }
        },
    }
}

/// A body that is not valid JSON is answered 422 with the parser's message as
/// its whole text; a body that fails its checks is answered 400 with an
/// envelope of type `Validation error` that carries exactly those checks and
/// nothing else.
pub proof fn lemma_refusal_answers<T>(r: Reply<T>, ekind: ValidationErrorKind)
    requires
        is_validation_error_reply(r, ekind),
    ensures
        ekind matches ValidationErrorKind::SerializationError(e) ==> r.status == 422 && r.body == ReplyBody::<
            T,
        >::Text(e.message),
        ekind matches ValidationErrorKind::ValidationError(e) ==> r.status == 400 && r.body == ReplyBody::<T>::Json(
            ResponseToUserEnd {
                response_type: r.body->Json_0.response_type,
                message: None,
                validation_errors_by_field: Some(e.errors),
                data: None,
            },
        ) && r.body->Json_0.response_type->0@ == "Validation error"@,
{
}

/// The answer to a refused request body.
pub fn throw_error_response_based_on_validation_error_kind<T>(ekind: ValidationErrorKind) -> (r: Reply<T>)
    ensures
        is_validation_error_reply(r, ekind),
{
    match ekind {
        ValidationErrorKind::SerializationError(e) => Reply { status: 422, body: ReplyBody::Text(e.message) },
        ValidationErrorKind::ValidationError(e) => {
            let mut res: ResponseToUserEnd<T> = ResponseToUserEnd::default();
            res.validation_errors_by_field = Some(e.errors);
            res.response_type = Some("Validation error".to_owned());
            res.data = None;
            Reply { status: 400, body: ReplyBody::Json(res) }
        },
    }
}

} // verus!
