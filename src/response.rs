use vstd::prelude::*;

verus! {

/// Outcome tag of a response.
///
/// `Success` and `Error` are the two outcomes that the conversion produces.
/// `Failure` is kept in the wire vocabulary for catastrophic conditions of the
/// runtime around the conversion; no function of this library produces it.
#[derive(Clone, Copy, Debug, PartialEq, Eq, Structural)]
pub enum ResponseStatus {
    Success,
    Error,
    Failure,
}

/// Payload envelope: the rendered PDF as a data URI, or the engine's trace.
#[derive(Clone, Debug)]
pub struct ResponseData {
    pub log: Option<String>,
    pub pdf: Option<String>,
}

/// The result of one conversion.
#[derive(Clone, Debug)]
pub struct Response {
    pub status: ResponseStatus,
    pub message: Option<String>,
    pub data: ResponseData,
}

/// Mathematical model of a `Response`, with the strings seen as character
/// sequences and the envelope flattened.
pub struct ResponseView {
    pub status: ResponseStatus,
    pub message: Option<Seq<char>>,
    pub log: Option<Seq<char>>,
    pub pdf: Option<Seq<char>>,
}

pub open spec fn opt_string_view(s: Option<String>) -> Option<Seq<char>> {
    match s {
        Some(t) => Some(t@),
        None => None,
    }
}

impl View for Response {
    type V = ResponseView;

    open spec fn view(&self) -> ResponseView {
        ResponseView {
            status: self.status,
            message: opt_string_view(self.message),
            log: opt_string_view(self.data.log),
            pdf: opt_string_view(self.data.pdf),
        }
    }
}

/// The model of an optional response.
pub open spec fn opt_response_view(r: Option<Response>) -> Option<ResponseView> {
    match r {
        Some(x) => Some(x@),
        None => None,
    }
}

impl ResponseView {
    /// A well-formed response carries exactly one of a PDF and a log; the PDF
    /// goes with `Success`, the log with `Error`, and a message is present
    /// exactly when the status is not `Success`.
    pub open spec fn wf(self) -> bool {
        &&& (self.pdf is Some) != (self.log is Some)
        &&& (self.pdf is Some <==> self.status == ResponseStatus::Success)
        &&& (self.log is Some <==> self.status == ResponseStatus::Error)
        &&& (self.message is Some <==> self.status != ResponseStatus::Success)
    }

    /// What two responses must share to be structurally identical: the status
    /// and which of the optional fields are present.
    pub open spec fn shape(self) -> (ResponseStatus, bool, bool, bool) {
        (self.status, self.message is Some, self.log is Some, self.pdf is Some)
    }
}

} // verus!
