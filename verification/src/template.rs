use vstd::prelude::*;

verus! {

use crate::errors::RenderError;

#[verifier::external_type_specification]
#[verifier::external_body]
pub struct ExSerdeValue(serde_json::Value);

#[verifier::external_type_specification]
#[verifier::external_body]
pub struct ExTeraContext(tera::Context);

/// Whether a string is well-formed JSON: what `serde_json::from_str`
/// accepts, a function of the string alone.
pub uninterp spec fn json_parse_ok(s: Seq<char>) -> bool;

/// Relies on serde_json::from_str::<Value>: parsing is a function of the
/// string alone, and it succeeds exactly on well-formed JSON.  On failure
/// the error's description is returned.
#[verifier::external_body]
fn parse_json(s: &str) -> (r: Result<serde_json::Value, String>)
    ensures
        (r is Ok) == json_parse_ok(s@),
{
    serde_json::from_str::<serde_json::Value>(s).map_err(|e| format!("{e}"))
}

/// Relies on tera::Context::from_serialize: builds a template context from
/// a parsed JSON value, failing exactly when the value is not a JSON
/// object.  The value is opaque here, so nothing of that is stated; the
/// caller treats either outcome as the collaborator's decision.
#[verifier::external_body]
fn context_from_json(v: &serde_json::Value) -> (r: Result<tera::Context, String>)
{
    tera::Context::from_serialize(v).map_err(|e| format!("{e}"))
}

/// Relies on tera::Tera::one_off: parses the template and renders it
/// against the context in one step, with the built-in filters and tests.
/// The rendered text is not modelled here; the caller treats either
/// outcome as the collaborator's decision.
#[verifier::external_body]
fn render_one_off(template: &str, ctx: &tera::Context, autoescape: bool) -> (r: Result<
    String,
    String,
>)
{
    tera::Tera::one_off(template, ctx, autoescape).map_err(|e| format!("{e}"))
}

/// Template preprocessing of the document source: with no merge data the
/// markup passes through unchanged; with merge data, the data must parse as
/// JSON and describe an object, and the markup is rendered as a template
/// against it.  Every failure is a `Configuration` error carrying the
/// collaborator's description — detected before any renderer exists, and
/// never retried.
pub fn process_template(html: String, json_text: Option<String>) -> (r: Result<
    String,
    RenderError,
>)
    ensures
        json_text is None ==> r == Ok::<String, RenderError>(html),
        (json_text matches Some(j) && !json_parse_ok(j@)) ==> (r matches Err(e)
            && e is Configuration),
        r matches Err(e) ==> json_text is Some && e is Configuration,
{
    match json_text {
        None => Ok(html),
        Some(j) => match parse_json(j.as_str()) {
            Err(detail) => Err(RenderError::Configuration { detail }),
            Ok(value) => match context_from_json(&value) {
                Err(detail) => Err(RenderError::Configuration { detail }),
                Ok(ctx) => match render_one_off(html.as_str(), &ctx, true) {
                    Err(detail) => Err(RenderError::Configuration { detail }),
                    Ok(out) => Ok(out),
                },
            },
        },
    }
}

} // verus!
