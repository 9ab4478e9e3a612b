//! Turning a pipeline value into the text put on the clipboard: a string
//! as it is, anything else as JSON indented by four spaces.
use vstd::prelude::*;
use crate::error::CopyError;

verus! {

#[verifier::external_type_specification]
#[verifier::external_body]
pub struct ExNuValue(nu_protocol::Value);

#[verifier::external_type_specification]
#[verifier::external_body]
pub struct ExShellError(nu_protocol::ShellError);

#[verifier::external_type_specification]
#[verifier::external_body]
pub struct ExJsonValue(nu_json::Value);

#[verifier::external_type_specification]
#[verifier::external_body]
pub struct ExJsonError(nu_json::Error);

/// Spaces per nesting level of the rendered JSON.
pub const JSON_INDENT: usize = 4;

/// A pipeline value as the formatter sees it.
pub enum InputValue {
    /// A string value: copied as it is.
    Text(String),
    /// Any other value: copied as JSON.
    Structured(nu_protocol::Value),
}

/// The text of a string value, as `nu_protocol::Value::as_str` gives it;
/// `None` for any other value.
pub uninterp spec fn string_of(value: nu_protocol::Value) -> Option<Seq<char>>;

/// Whether a custom value occurs anywhere in `value`, as
/// `nu_protocol::Value::recurse_mut` visits it.
pub uninterp spec fn holds_custom(value: nu_protocol::Value) -> bool;

/// What nu-json's `FromValue` impl for `nu_json::Value` makes of a value.
pub uninterp spec fn json_of(value: nu_protocol::Value) -> Result<
    nu_json::Value,
    nu_protocol::ShellError,
>;

/// What `nu_json::to_string_with_indent` renders for a JSON value and an
/// indent.
pub uninterp spec fn rendered(value: nu_json::Value, indent: usize) -> Result<
    Seq<char>,
    nu_json::Error,
>;

/// The `Display` text of a `nu_protocol::ShellError`.
pub uninterp spec fn shell_error_message(error: nu_protocol::ShellError) -> Seq<char>;

/// The `Display` text of a `nu_json::Error`.
pub uninterp spec fn json_error_message(error: nu_json::Error) -> Seq<char>;

/// Relies on `nu_protocol::Value::as_str`, which succeeds on the `String`
/// variant alone, for the text of a string value.
#[verifier::external_body]
pub(crate) fn string_text(value: &nu_protocol::Value) -> (r: Option<String>)
    ensures
        match r {
            Some(t) => string_of(*value) == Some(t@),
            None => string_of(*value) is None,
        },
{
    value.as_str().ok().map(|text| text.to_string())
}

/// Relies on `nu_protocol::Value::recurse_mut`, which visits the value and
/// every value nested in it, to find a custom value at any depth.
#[verifier::external_body]
fn has_custom_value(value: &nu_protocol::Value) -> (r: bool)
    ensures
        r == holds_custom(*value),
{
    let mut copy = value.clone();
    copy.recurse_mut(
        &mut |v: &mut nu_protocol::Value| match v {
            nu_protocol::Value::Custom { .. } => Err(()),
            _ => Ok(()),
        },
    ).is_err()
}

/// Relies on nu-json's `FromValue` impl for `nu_json::Value`: the
/// conversion of a nushell value into a JSON value. That impl asks a custom
/// value for its base value, which a plugin's custom value answers with a
/// panic; such values are kept out.
#[verifier::external_body]
fn to_json_value(value: &nu_protocol::Value) -> (r: Result<nu_json::Value, nu_protocol::ShellError>)
    requires
        !holds_custom(*value),
    ensures
        r == json_of(*value),
{
    <nu_json::Value as nu_protocol::FromValue>::from_value(value.clone())
}

/// Relies on `nu_json::to_string_with_indent`: renders a JSON value as text
/// with `indent` spaces per nesting level.
#[verifier::external_body]
fn render_with_indent(value: &nu_json::Value, indent: usize) -> (r: Result<String, nu_json::Error>)
    ensures
        match r {
            Ok(t) => rendered(*value, indent) == Ok::<Seq<char>, nu_json::Error>(t@),
            Err(e) => rendered(*value, indent) == Err::<Seq<char>, nu_json::Error>(e),
        },
{
    nu_json::to_string_with_indent(value, indent)
}

/// Relies on the `Display` impl of `nu_protocol::ShellError` for the
/// description of a conversion failure.
#[verifier::external_body]
fn shell_error_text(error: &nu_protocol::ShellError) -> (r: String)
    ensures
        r@ == shell_error_message(*error),
{
    error.to_string()
}

/// Relies on the `Display` impl of `nu_json::Error` for the description of
/// a rendering failure.
#[verifier::external_body]
fn json_error_text(error: &nu_json::Error) -> (r: String)
    ensures
        r@ == json_error_message(*error),
{
    error.to_string()
}

/// The cause given for a value that holds a custom value.
pub open spec fn custom_value_cause() -> Seq<char> {
    "custom values cannot be converted to JSON"@
}

/// The outcomes of the two JSON stages for a value: the conversion (outer)
/// and the rendering with four spaces per level (inner), each failure
/// given by its description. A value holding a custom value fails the
/// conversion.
pub open spec fn json_stages_of(value: nu_protocol::Value) -> Result<
    Result<Seq<char>, Seq<char>>,
    Seq<char>,
> {
    if holds_custom(value) {
        Err(custom_value_cause())
    } else {
        match json_of(value) {
            Err(e) => Err(shell_error_message(e)),
            Ok(json) => Ok(
                match rendered(json, JSON_INDENT) {
                    Ok(text) => Ok(text),
                    Err(e) => Err(json_error_message(e)),
                },
            ),
        }
    }
}

/// The stages, with each text seen as its characters.
pub open spec fn stages_view(stages: Result<Result<String, String>, String>) -> Result<
    Result<Seq<char>, Seq<char>>,
    Seq<char>,
> {
    match stages {
        Ok(Ok(text)) => Ok(Ok(text@)),
        Ok(Err(cause)) => Ok(Err(cause@)),
        Err(cause) => Err(cause@),
    }
}

/// `r` is what the formatter owes for those stage outcomes: the text, or
/// the error of the stage that failed with its cause.
pub open spec fn follows_stages(
    r: Result<String, CopyError>,
    stages: Result<Result<Seq<char>, Seq<char>>, Seq<char>>,
) -> bool {
    match stages {
        Ok(Ok(text)) => r matches Ok(t) && t@ == text,
        Ok(Err(cause)) => r matches Err(CopyError::Serialization(c)) && c@ == cause,
        Err(cause) => r matches Err(CopyError::Conversion(c)) && c@ == cause,
    }
}

/// Maps the outcomes of the conversion and of the rendering to the text, or
/// to the error of the stage that failed, with its cause.
pub fn text_from_json_stages(stages: Result<Result<String, String>, String>) -> (r: Result<
    String,
    CopyError,
>)
    ensures
        follows_stages(r, stages_view(stages)),
{
    match stages {
        Ok(Ok(text)) => Ok(text),
        Ok(Err(cause)) => Err(CopyError::Serialization(cause)),
        Err(cause) => Err(CopyError::Conversion(cause)),
    }
}

/// Renders a value as JSON indented by four spaces. The rendering is tried
/// only on a value whose conversion succeeded; a failure is reported as a
/// conversion or a serialization error with its cause.
pub fn format_json(value: &nu_protocol::Value) -> (r: Result<String, CopyError>)
    ensures
        follows_stages(r, json_stages_of(*value)),
{
    let stages = if has_custom_value(value) {
        Err(String::from_str("custom values cannot be converted to JSON"))
    } else {
        match to_json_value(value) {
            Ok(json) => Ok(
                match render_with_indent(&json, JSON_INDENT) {
                    Ok(text) => Ok(text),
                    Err(error) => Err(json_error_text(&error)),
                },
            ),
            Err(error) => Err(shell_error_text(&error)),
        }
    };
    proof {
        reveal_strlit("custom values cannot be converted to JSON");
    }
    assert(stages_view(stages) == json_stages_of(*value));
    text_from_json_stages(stages)
}

/// The text to copy: a string as it is, anything else as JSON.
pub fn format_text(input: &InputValue) -> (r: Result<String, CopyError>)
    ensures
        match input {
            InputValue::Text(s) => r matches Ok(t) && t@ == s@,
            InputValue::Structured(value) => follows_stages(r, json_stages_of(*value)),
        },
{
    match input {
        InputValue::Text(s) => Ok(s.clone()),
        InputValue::Structured(value) => format_json(value),
    }
}

} // verus!
