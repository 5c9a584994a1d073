//! Uniform error envelope and its HTTP status mapping.
//!
//! Every non-2xx response carries `{ "error": { code, message, details? } }`;
//! `details` is present only for 422 validation failures.

use vstd::prelude::*;

verus! {

/// One validation problem (the `error.details[*]` element).
#[derive(Debug, Clone)]
pub struct ValidationDetail {
    /// Location of the offending value, e.g. `headers["X-Foo"]`.
    pub loc: String,
    /// Human-readable message.
    pub msg: String,
    /// Stable rule identifier, e.g. `header_name_invalid`.
    pub rule_id: String,
}

/// Mathematical form of a [`ValidationDetail`].
#[verifier::ext_equal]
pub struct DetailView {
    pub loc: Seq<char>,
    pub msg: Seq<char>,
    pub rule_id: Seq<char>,
}

impl View for ValidationDetail {
    type V = DetailView;

    open spec fn view(&self) -> DetailView {
        DetailView { loc: self.loc@, msg: self.msg@, rule_id: self.rule_id@ }
    }
}

/// The views of a list of details, in order.
pub open spec fn details_view(ds: Seq<ValidationDetail>) -> Seq<DetailView> {
    ds.map_values(|d: ValidationDetail| d@)
}

impl ValidationDetail {
    /// Convenience constructor.
    pub fn new(loc: String, msg: String, rule_id: String) -> (res: Self)
        ensures
            res.loc == loc,
            res.msg == msg,
            res.rule_id == rule_id,
    {
        ValidationDetail { loc, msg, rule_id }
    }
}

/// Domain and infrastructure errors.
#[derive(Debug, Clone)]
pub enum AppError {
    /// Request or rule-graph validation failure. → 422
    Validation { details: Vec<ValidationDetail> },
    /// Feature slug missing. → 404
    FeatureNotFound(String),
    /// Site slug missing. → 404
    SiteNotFound(String),
    /// Product label missing. → 404
    ProductNotFound(String),
    /// Test-preset slug missing. → 404
    TestPresetNotFound(String),
    /// Version (by number or id) missing. → 404
    VersionNotFound(String),
    /// Outcome id missing. → 404
    OutcomeNotFound(String),
    /// Component id missing. → 404
    ComponentNotFound(String),
    /// Active version requested, none LIVE/STAGING. → 404
    NoLiveVersion(String),
    /// Duplicate feature slug. → 409
    SlugConflict(String),
    /// Duplicate feature `execution_order` within a type. → 409
    ExecutionOrderConflict(String),
    /// Mutation of a non-DRAFT version. → 409
    VersionEditLocked(String),
    /// Illegal publish/unpublish/delete transition. → 409
    InvalidStatusTransition(String),
    /// Delete of the builtin ShowContent outcome. → 409
    BuiltinOutcomeProtected(String),
    /// Unexpected internal error; the text is for server-side logs only. → 500
    Internal(String),
}

/// Handler and service result alias.
pub type AppResult<T> = Result<T, AppError>;

/// The stable SCREAMING_SNAKE_CASE code of each error.
pub open spec fn error_code(e: AppError) -> Seq<char> {
    match e {
        AppError::Validation { .. } => "VALIDATION_ERROR"@,
        AppError::FeatureNotFound(_) => "FEATURE_NOT_FOUND"@,
        AppError::SiteNotFound(_) => "SITE_NOT_FOUND"@,
        AppError::ProductNotFound(_) => "PRODUCT_NOT_FOUND"@,
        AppError::TestPresetNotFound(_) => "TEST_PRESET_NOT_FOUND"@,
        AppError::VersionNotFound(_) => "VERSION_NOT_FOUND"@,
        AppError::OutcomeNotFound(_) => "OUTCOME_NOT_FOUND"@,
        AppError::ComponentNotFound(_) => "COMPONENT_NOT_FOUND"@,
        AppError::NoLiveVersion(_) => "NO_LIVE_VERSION"@,
        AppError::SlugConflict(_) => "SLUG_CONFLICT"@,
        AppError::ExecutionOrderConflict(_) => "EXECUTION_ORDER_CONFLICT"@,
        AppError::VersionEditLocked(_) => "VERSION_EDIT_LOCKED"@,
        AppError::InvalidStatusTransition(_) => "INVALID_STATUS_TRANSITION"@,
        AppError::BuiltinOutcomeProtected(_) => "BUILTIN_OUTCOME_PROTECTED"@,
        AppError::Internal(_) => "INTERNAL_ERROR"@,
    }
}

/// The HTTP status of each error.
pub open spec fn error_status(e: AppError) -> u16 {
    match e {
        AppError::Validation { .. } => 422,
        AppError::FeatureNotFound(_)
        | AppError::SiteNotFound(_)
        | AppError::ProductNotFound(_)
        | AppError::TestPresetNotFound(_)
        | AppError::VersionNotFound(_)
        | AppError::OutcomeNotFound(_)
        | AppError::ComponentNotFound(_)
        | AppError::NoLiveVersion(_) => 404,
        AppError::SlugConflict(_)
        | AppError::ExecutionOrderConflict(_)
        | AppError::VersionEditLocked(_)
        | AppError::InvalidStatusTransition(_)
        | AppError::BuiltinOutcomeProtected(_) => 409,
        AppError::Internal(_) => 500,
    }
}

/// The client-facing message of each error: the carried text for the
/// not-found and conflict errors, fixed texts for validation and internal
/// failures (internal detail never reaches the client).
pub open spec fn error_message(e: AppError) -> Seq<char> {
    match e {
        AppError::Validation { .. } => "validation error"@,
        AppError::Internal(_) => "internal server error"@,
        AppError::FeatureNotFound(m) => m@,
        AppError::SiteNotFound(m) => m@,
        AppError::ProductNotFound(m) => m@,
        AppError::TestPresetNotFound(m) => m@,
        AppError::VersionNotFound(m) => m@,
        AppError::OutcomeNotFound(m) => m@,
        AppError::ComponentNotFound(m) => m@,
        AppError::NoLiveVersion(m) => m@,
        AppError::SlugConflict(m) => m@,
        AppError::ExecutionOrderConflict(m) => m@,
        AppError::VersionEditLocked(m) => m@,
        AppError::InvalidStatusTransition(m) => m@,
        AppError::BuiltinOutcomeProtected(m) => m@,
    }
}

/// The serialized `error` object body.
#[derive(Debug)]
pub struct ErrorBody {
    /// Stable error code.
    pub code: String,
    /// Human-readable message safe to display.
    pub message: String,
    /// Validation problems; present only for 422.
    pub details: Option<Vec<ValidationDetail>>,
}

/// Top-level envelope: `{ "error": { ... } }`.
#[derive(Debug)]
pub struct ErrorEnvelope {
    /// The error object.
    pub error: ErrorBody,
}

/// The `details` of the envelope of each error: the validation details for a
/// validation failure, absent otherwise.
pub open spec fn envelope_details(e: AppError) -> Option<Vec<ValidationDetail>> {
    match e {
        AppError::Validation { details } => Some(details),
        _ => None,
    }
}

/// One field-level failure reported by request-body validation.
#[derive(Debug, Clone)]
pub struct FieldError {
    /// Stable failure code (e.g. `length`, `regex`, `protocol_invalid`).
    pub code: String,
    /// Custom message, when the rule carries one.
    pub message: Option<String>,
}

/// The detail of one field failure: located at the field, with the custom
/// message or else the code as message, and the code as rule id.
pub open spec fn field_error_detail(field: Seq<char>, e: FieldError) -> DetailView {
    DetailView {
        loc: field,
        msg: match e.message {
            Some(m) => m@,
            None => e.code@,
        },
        rule_id: e.code@,
    }
}

/// The details of all failures of one field, in order.
pub open spec fn field_errors_details(field: Seq<char>, es: Seq<FieldError>) -> Seq<DetailView>
    decreases es.len(),
{
    if es.len() == 0 {
        Seq::empty()
    } else {
        field_errors_details(field, es.drop_last()).push(field_error_detail(field, es.last()))
    }
}

/// The details of all failures of all fields, field by field.
pub open spec fn all_field_details(fs: Seq<(String, Vec<FieldError>)>) -> Seq<DetailView>
    decreases fs.len(),
{
    if fs.len() == 0 {
        Seq::empty()
    } else {
        all_field_details(fs.drop_last()) + field_errors_details(fs.last().0@, fs.last().1@)
    }
}

impl AppError {
    /// SCREAMING_SNAKE_CASE stable code for the envelope.
    pub fn code(&self) -> (res: &'static str)
        ensures
            res@ == error_code(*self),
    {
        match self {
            AppError::Validation { .. } => "VALIDATION_ERROR",
            AppError::FeatureNotFound(_) => "FEATURE_NOT_FOUND",
            AppError::SiteNotFound(_) => "SITE_NOT_FOUND",
            AppError::ProductNotFound(_) => "PRODUCT_NOT_FOUND",
            AppError::TestPresetNotFound(_) => "TEST_PRESET_NOT_FOUND",
            AppError::VersionNotFound(_) => "VERSION_NOT_FOUND",
            AppError::OutcomeNotFound(_) => "OUTCOME_NOT_FOUND",
            AppError::ComponentNotFound(_) => "COMPONENT_NOT_FOUND",
            AppError::NoLiveVersion(_) => "NO_LIVE_VERSION",
            AppError::SlugConflict(_) => "SLUG_CONFLICT",
            AppError::ExecutionOrderConflict(_) => "EXECUTION_ORDER_CONFLICT",
            AppError::VersionEditLocked(_) => "VERSION_EDIT_LOCKED",
            AppError::InvalidStatusTransition(_) => "INVALID_STATUS_TRANSITION",
            AppError::BuiltinOutcomeProtected(_) => "BUILTIN_OUTCOME_PROTECTED",
            AppError::Internal(_) => "INTERNAL_ERROR",
        }
    }

    /// HTTP status code for this error.
    pub fn status(&self) -> (res: u16)
        ensures
            res == error_status(*self),
    {
        match self {
            AppError::Validation { .. } => 422,
            AppError::FeatureNotFound(_)
            | AppError::SiteNotFound(_)
            | AppError::ProductNotFound(_)
            | AppError::TestPresetNotFound(_)
            | AppError::VersionNotFound(_)
            | AppError::OutcomeNotFound(_)
            | AppError::ComponentNotFound(_)
            | AppError::NoLiveVersion(_) => 404,
            AppError::SlugConflict(_)
            | AppError::ExecutionOrderConflict(_)
            | AppError::VersionEditLocked(_)
            | AppError::InvalidStatusTransition(_)
            | AppError::BuiltinOutcomeProtected(_) => 409,
            AppError::Internal(_) => 500,
        }
    }

    /// Splits the error into its HTTP status and the envelope the client
    /// receives. The message is the carried text for not-found and conflict
    /// errors and a fixed text for validation and internal failures; details
    /// are present exactly for validation failures.
    pub fn into_envelope(self) -> (res: (u16, ErrorEnvelope))
        ensures
            res.0 == error_status(self),
            res.1.error.code@ == error_code(self),
            res.1.error.message@ == error_message(self),
            res.1.error.details == envelope_details(self),
    {
        let status = self.status();
        let code = self.code().to_owned();
        let (message, details) = match self {
            AppError::Validation { details } => ("validation error".to_owned(), Some(details)),
            AppError::Internal(_) => ("internal server error".to_owned(), None),
            AppError::FeatureNotFound(m) => (m, None),
            AppError::SiteNotFound(m) => (m, None),
            AppError::ProductNotFound(m) => (m, None),
            AppError::TestPresetNotFound(m) => (m, None),
            AppError::VersionNotFound(m) => (m, None),
            AppError::OutcomeNotFound(m) => (m, None),
            AppError::ComponentNotFound(m) => (m, None),
            AppError::NoLiveVersion(m) => (m, None),
            AppError::SlugConflict(m) => (m, None),
            AppError::ExecutionOrderConflict(m) => (m, None),
            AppError::VersionEditLocked(m) => (m, None),
            AppError::InvalidStatusTransition(m) => (m, None),
            AppError::BuiltinOutcomeProtected(m) => (m, None),
        };
        (status, ErrorEnvelope { error: ErrorBody { code, message, details } })
    }

    /// Converts request-body validation failures, given field by field, into
    /// the uniform 422 error: one detail per failure, located at its field,
    /// with the custom message (or else the code) and the code as rule id.
    pub fn from_field_errors(errors: &Vec<(String, Vec<FieldError>)>) -> (res: AppError)
        ensures
            match res {
                AppError::Validation { details } => details_view(details@) == all_field_details(
                    errors@,
                ),
                _ => false,
            },
    {
        let mut details: Vec<ValidationDetail> = Vec::new();
        let mut i: usize = 0;
        while i < errors.len()
            invariant
                0 <= i <= errors@.len(),
                details_view(details@) == all_field_details(errors@.take(i as int)),
            decreases errors@.len() - i,
        {
            let (field, errs) = &errors[i];
            let ghost before = details_view(details@);
            let mut k: usize = 0;
            while k < errs.len()
                invariant
                    0 <= k <= errs@.len(),
                    details_view(details@) == before + field_errors_details(
                        field@,
                        errs@.take(k as int),
                    ),
                decreases errs@.len() - k,
            {
                let e = &errs[k];
                let msg = match &e.message {
                    Some(m) => m.clone(),
                    None => e.code.clone(),
                };
                let d = ValidationDetail::new(field.clone(), msg, e.code.clone());
                let ghost prev = details@;
                details.push(d);
                proof {
                    assert(errs@.take(k + 1).drop_last() =~= errs@.take(k as int));
                    assert(details_view(details@) =~= details_view(prev).push(d@));
                    assert(d@ =~= field_error_detail(field@, errs@[k as int]));
                }
                k = k + 1;
            }
            proof {
                assert(errs@.take(k as int) =~= errs@);
                assert(errors@.take(i + 1).drop_last() =~= errors@.take(i as int));
            }
            i = i + 1;
        }
        proof {
            assert(errors@.take(i as int) =~= errors@);
        }
        AppError::validation(details)
    }

    /// Construct a validation error from a list of details.
    pub fn validation(details: Vec<ValidationDetail>) -> (res: Self)
        ensures
            res == (AppError::Validation { details }),
    {
        AppError::Validation { details }
    }
}

/// The envelope carries validation details exactly when the status is 422,
/// and every error maps to one of the statuses 404, 409, 422 and 500.
pub proof fn law_details_only_for_validation(e: AppError)
    ensures
        (envelope_details(e) is Some) == (error_status(e) == 422),
        error_status(e) == 404 || error_status(e) == 409 || error_status(e) == 422
            || error_status(e) == 500,
{
}

} // verus!
