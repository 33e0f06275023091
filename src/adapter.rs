use vstd::prelude::*;

use crate::response::{opt_response_view, Response, ResponseData, ResponseStatus, ResponseView};

verus! {

/// What the engine reports when it cannot render a source: a short
/// description, and a trace of the failure rendered to text when the engine
/// could produce one.
#[derive(Clone, Debug)]
pub struct EngineFailure {
    pub description: String,
    pub trace: Option<String>,
}

/// The standard, padded base64 encoding of a byte sequence.
pub uninterp spec fn base64_of(bytes: Seq<u8>) -> Seq<char>;

/// A character of the standard base64 alphabet, or the padding character.
pub open spec fn is_base64_char(c: char) -> bool {
    ||| ('A' <= c && c <= 'Z')
    ||| ('a' <= c && c <= 'z')
    ||| ('0' <= c && c <= '9')
    ||| c == '+'
    ||| c == '/'
    ||| c == '='
}

/// Lengths whose encoding, four characters for each started group of three
/// bytes, fits in a `usize`.
pub open spec fn encodable_len(n: int) -> bool {
    n <= usize::MAX / 4 * 3
}

/// Relies on `base64::encode`, which encodes with the standard alphabet and
/// padding: four characters for each started group of three bytes, each of
/// them from the alphabet or `=`. It panics only where that length overflows.
#[verifier::external_body]
fn encode_base64(bytes: &Vec<u8>) -> (r: String)
    requires
        encodable_len(bytes@.len() as int),
    ensures
        r@ == base64_of(bytes@),
        r@.len() == 4 * ((bytes@.len() + 2) / 3),
        forall|i: int| 0 <= i < r@.len() ==> is_base64_char(#[trigger] r@[i]),
{
    base64::encode(bytes)
}

/// The head of a PDF data URI.
pub open spec fn pdf_uri_prefix() -> Seq<char> {
    "data:application/pdf;base64,"@
}

/// `s` is a PDF data URI with a non-empty base64 body.
pub open spec fn is_pdf_data_uri(s: Seq<char>) -> bool {
    let n = pdf_uri_prefix().len();
    &&& s.len() > n
    &&& s.subrange(0, n as int) == pdf_uri_prefix()
    &&& forall|i: int| n <= i < s.len() ==> is_base64_char(#[trigger] s[i])
}

/// Wraps an encoded body as a PDF data URI.
pub fn pdf_data_uri(encoded: &str) -> (r: String)
    ensures
        r@ == pdf_uri_prefix() + encoded@,
{
    String::from_str("data:application/pdf;base64,").concat(encoded)
}

/// The response that an engine outcome calls for: the PDF as a data URI on
/// success; on a failure with a trace, an error carrying the description as
/// message and the trace as log; on a failure without a trace, no response.
pub open spec fn response_spec(outcome: Result<Vec<u8>, EngineFailure>) -> Option<ResponseView> {
    match outcome {
        Ok(pdf) => Some(
            ResponseView {
                status: ResponseStatus::Success,
                message: None,
                log: None,
                pdf: Some(pdf_uri_prefix() + base64_of(pdf@)),
            },
        ),
        Err(failure) => match failure.trace {
            Some(trace) => Some(
                ResponseView {
                    status: ResponseStatus::Error,
                    message: Some(failure.description@),
                    log: Some(trace@),
                    pdf: None,
                },
            ),
            None => None,
        },
    }
}

/// The engine outcomes whose encoding can be carried out: a rendered PDF
/// whose encoded length fits in memory, or any failure.
pub open spec fn outcome_encodable(outcome: Result<Vec<u8>, EngineFailure>) -> bool {
    outcome matches Ok(pdf) ==> encodable_len(pdf@.len() as int)
}

/// Turns the outcome of one engine call into the response for it.
pub fn build_response(outcome: Result<Vec<u8>, EngineFailure>) -> (r: Option<Response>)
    requires
        outcome_encodable(outcome),
    ensures
        opt_response_view(r) == response_spec(outcome),
        r matches Some(x) ==> x@.wf(),
        outcome matches Ok(pdf) && pdf@.len() > 0 ==> {
            &&& r matches Some(x)
            &&& x@.status == ResponseStatus::Success
            &&& x@.pdf matches Some(uri) && is_pdf_data_uri(uri)
            &&& x@.log is None
            &&& x@.message is None
        },
{
    let mut response = Response {
        status: ResponseStatus::Success,
        message: None,
        data: ResponseData { log: None, pdf: None },
    };
    match outcome {
        Ok(raw_pdf) => {
            let encoded = encode_base64(&raw_pdf);
            let uri = pdf_data_uri(encoded.as_str());
            proof {
                let n = pdf_uri_prefix().len();
                assert(uri@.subrange(0, n as int) =~= pdf_uri_prefix());
                assert forall|i: int| n <= i < uri@.len() implies is_base64_char(#[trigger] uri@[i]) by {
                    assert(uri@[i] == encoded@[i - n]);
                }
                if raw_pdf@.len() > 0 {
                    assert((raw_pdf@.len() + 2) / 3 >= 1);
                }
            }
            response.data.pdf = Some(uri);
        },
        Err(failure) => {
            let trace = match failure.trace {
                Some(t) => t,
                None => {
                    return None;
                },
            };
            response.data.log = Some(trace);
            response.status = ResponseStatus::Error;
            response.message = Some(failure.description);
        },
    }
    Some(response)
}

/// Two engine outcomes that behave alike: both rendered a PDF, whatever its
/// bytes, or both failed, with a trace on both sides or on neither.
pub open spec fn same_engine_behaviour(
    a: Result<Vec<u8>, EngineFailure>,
    b: Result<Vec<u8>, EngineFailure>,
) -> bool {
    match (a, b) {
        (Ok(_), Ok(_)) => true,
        (Err(fa), Err(fb)) => (fa.trace is Some) == (fb.trace is Some),
        _ => false,
    }
}

/// Converting the same source twice, under the same engine behaviour, gives
/// responses of the same shape: the same status and the same optional fields
/// present. Only the PDF's bytes may differ.
pub proof fn lemma_response_shape_determined(
    a: Result<Vec<u8>, EngineFailure>,
    b: Result<Vec<u8>, EngineFailure>,
)
    requires
        same_engine_behaviour(a, b),
    ensures
        response_spec(a) is Some <==> response_spec(b) is Some,
        response_spec(a) matches Some(va) ==> va.shape() == response_spec(b)->Some_0.shape(),
{
}

/// Every response that a conversion produces carries exactly one of a PDF
/// and a log, and is well formed.
pub proof fn lemma_produced_response_exclusive(outcome: Result<Vec<u8>, EngineFailure>)
    ensures
        response_spec(outcome) matches Some(v) ==> {
            &&& (v.pdf is Some) != (v.log is Some)
            &&& v.wf()
        },
{
}

/// An engine failure with a trace gives an error response without a PDF,
/// whose log is the trace and whose message is the description; both are
/// non-empty where the engine's texts are.
pub proof fn lemma_failed_response(failure: EngineFailure)
    requires
        failure.trace is Some,
    ensures
        response_spec(Err(failure)) matches Some(v) && {
            &&& v.status == ResponseStatus::Error
            &&& v.pdf is None
            &&& v.log == Some(failure.trace->Some_0@)
            &&& v.message == Some(failure.description@)
            &&& failure.trace->Some_0@.len() > 0 ==> v.log->Some_0.len() > 0
            &&& failure.description@.len() > 0 ==> v.message->Some_0.len() > 0
        },
{
}

} // verus!
