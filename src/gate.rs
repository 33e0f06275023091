use vstd::prelude::*;

use crate::response::Response;

verus! {

/// An inbound request: the raw LaTeX source, sent under the field `rawInput`.
#[derive(Clone, Debug)]
pub struct LambdaRequest {
    pub raw_input: String,
}

/// Why an invocation produced no response.
#[derive(Clone, Copy, Debug, PartialEq, Eq, Structural)]
pub enum HandlerError {
    /// The request's source field is empty; nothing was rendered.
    EmptyField,
    /// The engine failed without a trace, so no response could be built.
    NoResult,
}

/// The wire name of the request's one required field.
pub open spec fn source_field_name() -> Seq<char> {
    "rawInput"@
}

impl HandlerError {
    pub open spec fn message_spec(self) -> Seq<char> {
        match self {
            HandlerError::EmptyField => "[rawInput]: Empty field. Provide a latex string"@,
            HandlerError::NoResult => "Error"@,
        }
    }

    /// The text reported to the caller.
    pub fn message(&self) -> (r: String)
        ensures
            r@ == self.message_spec(),
    {
        match self {
            HandlerError::EmptyField => String::from_str(
                "[rawInput]: Empty field. Provide a latex string",
            ),
            HandlerError::NoResult => String::from_str("Error"),
        }
    }

    /// The name of the request field at fault, if any.
    pub fn missing_field(&self) -> (r: Option<String>)
        ensures
            *self == HandlerError::EmptyField ==> (r matches Some(f) && f@ == source_field_name()),
            *self == HandlerError::NoResult ==> r is None,
    {
        match self {
            HandlerError::EmptyField => Some(String::from_str("rawInput")),
            HandlerError::NoResult => None,
        }
    }
}

/// Admission control: an empty source is rejected before any rendering, and
/// any other source is handed on unchanged for the engine.
pub fn check_request(request: LambdaRequest) -> (r: Result<String, HandlerError>)
    ensures
        request.raw_input@.len() == 0 <==> r is Err,
        r matches Err(e) ==> e == HandlerError::EmptyField,
        r matches Ok(source) ==> source@ == request.raw_input@,
{
    let raw_latex = request.raw_input;
    if raw_latex.as_str().is_empty() {
        return Err(HandlerError::EmptyField);
    }
    Ok(raw_latex)
}

/// Passes a built response on to the caller; a conversion that produced no
/// response becomes an invocation failure.
pub fn finish(result: Option<Response>) -> (r: Result<Response, HandlerError>)
    ensures
        result matches Some(v) ==> r == Ok::<Response, HandlerError>(v),
        result is None ==> r == Err::<Response, HandlerError>(HandlerError::NoResult),
{
    match result {
        Some(v) => Ok(v),
        None => Err(HandlerError::NoResult),
    }
}

} // verus!
