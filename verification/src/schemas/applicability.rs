//! Version-level applicability gate.
//!
//! An [`Applicability`] decides whether a feature's outcome components apply
//! to a given upstream response. Backend validation is light: each selector
//! that is present must be non-blank and at most [`MAX_SELECTOR_LEN`]
//! characters. Real CSS/JSONPath parsing belongs to the proxy.

use vstd::prelude::*;
use vstd::string::*;

use crate::error::{details_view, DetailView, ValidationDetail};
use crate::text::{char_count, is_blank, is_blank_spec};

verus! {

/// Maximum selector length, in characters.
pub const MAX_SELECTOR_LEN: usize = 500;

/// Version-level applicability gate. An absent selector means "apply
/// whenever the response content type matches the feature type".
#[derive(Debug, Clone, Default, PartialEq, Eq)]
pub struct Applicability {
    /// CSS selector that must match at least one element of an HTML response.
    pub html_selector: Option<String>,
    /// JSONPath that must match in a JSON response.
    pub json_selector: Option<String>,
}

/// The view of an optional string slice.
pub open spec fn opt_str_view(o: Option<&str>) -> Option<Seq<char>> {
    match o {
        Some(s) => Some(s@),
        None => None,
    }
}

/// The view of an optional string.
pub open spec fn opt_string_view(o: Option<String>) -> Option<Seq<char>> {
    match o {
        Some(s) => Some(s@),
        None => None,
    }
}

/// A zero- or one-element sequence.
pub open spec fn opt_seq<T>(o: Option<T>) -> Seq<T> {
    match o {
        Some(d) => seq![d],
        None => Seq::empty(),
    }
}

/// The problem of one optional selector named `field`, if any: a present
/// selector must be non-blank, then at most [`MAX_SELECTOR_LEN`] characters.
pub open spec fn selector_problem(field: Seq<char>, value: Option<Seq<char>>) -> Option<DetailView> {
    match value {
        None => None,
        Some(raw) => if is_blank_spec(raw) {
            Some(
                DetailView {
                    loc: "applicability."@ + field,
                    msg: field + " must not be blank when present"@,
                    rule_id: "applicability_selector_invalid"@,
                },
            )
        } else if raw.len() > MAX_SELECTOR_LEN {
            Some(
                DetailView {
                    loc: "applicability."@ + field,
                    msg: field + " must be at most 500 characters"@,
                    rule_id: "applicability_selector_invalid"@,
                },
            )
        } else {
            None
        },
    }
}

/// The details of a whole applicability gate: the HTML selector's problem,
/// then the JSON selector's.
pub open spec fn applicability_problems(a: Applicability) -> Seq<DetailView> {
    opt_seq(selector_problem("html_selector"@, opt_string_view(a.html_selector))) + opt_seq(
        selector_problem("json_selector"@, opt_string_view(a.json_selector)),
    )
}

/// Builds `first + second`.
fn concat(first: &str, second: &str) -> (res: String)
    ensures
        res@ == first@ + second@,
{
    let mut s = first.to_owned();
    s.append(second);
    s
}

/// Validates one optional selector, appending a detail when it is blank or
/// too long.
pub fn check_selector(field: &str, value: Option<&str>, details: &mut Vec<ValidationDetail>)
    ensures
        details_view(final(details)@) == details_view(old(details)@) + opt_seq(
            selector_problem(field@, opt_str_view(value)),
        ),
{
    let raw = match value {
        Some(raw) => raw,
        None => {
            assert(details_view(final(details)@) =~= details_view(old(details)@) + Seq::empty());
            return ;
        },
    };
    let ghost before = details@;
    if is_blank(raw) {
        let d = ValidationDetail::new(
            concat("applicability.", field),
            concat(field, " must not be blank when present"),
            "applicability_selector_invalid".to_owned(),
        );
        details.push(d);
        proof {
            assert(d@.loc =~= "applicability."@ + field@);
            assert(d@.msg =~= field@ + " must not be blank when present"@);
            assert(details_view(details@) =~= details_view(before) + seq![d@]);
        }
    } else if char_count(raw) > MAX_SELECTOR_LEN {
        let d = ValidationDetail::new(
            concat("applicability.", field),
            concat(field, " must be at most 500 characters"),
            "applicability_selector_invalid".to_owned(),
        );
        details.push(d);
        proof {
            assert(d@.loc =~= "applicability."@ + field@);
            assert(d@.msg =~= field@ + " must be at most 500 characters"@);
            assert(details_view(details@) =~= details_view(before) + seq![d@]);
        }
    } else {
        assert(details_view(details@) =~= details_view(before) + Seq::empty());
    }
}

/// The view of a borrowed optional string.
fn as_opt_str(o: &Option<String>) -> (res: Option<&str>)
    ensures
        opt_str_view(res) == opt_string_view(*o),
{
    match o {
        Some(s) => Some(s.as_str()),
        None => None,
    }
}

impl Applicability {
    /// Light backend validation: one detail per offending selector, the HTML
    /// selector first; empty when valid.
    pub fn validation_details(&self) -> (res: Vec<ValidationDetail>)
        ensures
            details_view(res@) == applicability_problems(*self),
    {
        let mut details: Vec<ValidationDetail> = Vec::new();
        check_selector("html_selector", as_opt_str(&self.html_selector), &mut details);
        check_selector("json_selector", as_opt_str(&self.json_selector), &mut details);
        assert(details_view(details@) =~= applicability_problems(*self));
        details
    }
}

} // verus!
