//! Conversion of a LaTeX engine's outcome into a wire-ready response: the
//! encoding of the rendered PDF as a data URI, the mapping of engine failures
//! into an error response, and the admission gate in front of the engine.

mod adapter;
mod gate;
mod response;

pub use gate::{check_request, finish, source_field_name, HandlerError, LambdaRequest};
pub use response::{opt_response_view, Response, ResponseData, ResponseStatus, ResponseView};
pub use adapter::{
    base64_of, build_response, encodable_len, is_base64_char, is_pdf_data_uri, lemma_failed_response,
    lemma_produced_response_exclusive, lemma_response_shape_determined, outcome_encodable,
    pdf_data_uri, pdf_uri_prefix, response_spec, same_engine_behaviour, EngineFailure,
};
