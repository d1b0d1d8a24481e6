//! Server replies: the structured form of one status line read off the
//! control socket, the error taxonomy, and reply classification.

use vstd::prelude::*;
use crate::text::{trim_end, trim_end_sp};

verus! {

/// One status line from the server: a code field (normally three digits)
/// and the remaining text. Built from exactly one full line; multi-line
/// continuations are not recognized.
pub struct ServerResponse(pub String, pub String);

/// Mathematical model of a reply.
pub struct ReplyV {
    pub code: Seq<char>,
    pub text: Seq<char>,
}

impl View for ServerResponse {
    type V = ReplyV;

    open spec fn view(&self) -> ReplyV {
        ReplyV { code: self.0@, text: self.1@ }
    }
}

/// Why an operation failed: the server said no, the server's data could
/// not be read in the expected shape, or the transport broke.
pub enum Error {
    /// The server returned a 4xx or 5xx reply; it is carried for
    /// diagnostics.
    NegativeReturnCode { response: ServerResponse },
    /// A reply or payload could not be parsed into the expected shape.
    InvalidData,
    /// The underlying socket failed; the message describes the error.
    IOError { message: String },
}

/// Mathematical model of an error.
pub enum ErrorV {
    NegativeReturnCode(ReplyV),
    InvalidData,
    IOError(Seq<char>),
}

impl View for Error {
    type V = ErrorV;

    open spec fn view(&self) -> ErrorV {
        match self {
            Error::NegativeReturnCode { response } => ErrorV::NegativeReturnCode(response@),
            Error::InvalidData => ErrorV::InvalidData,
            Error::IOError { message } => ErrorV::IOError(message@),
        }
    }
}

impl ServerResponse {
    /// Builds a reply from a raw code field and the remaining text,
    /// trimming the code's trailing separator and line-ending
    /// characters.
    pub fn from_parts(code: &str, text: &str) -> (r: ServerResponse)
        ensures
            r@.code == trim_end_sp(code@),
            r@.text == text@,
    {
        ServerResponse(trim_end(code).to_owned(), text.to_owned())
    }
}

/// A code whose first character marks a positive or intermediate reply.
pub open spec fn is_positive_code(code: Seq<char>) -> bool {
    code.len() > 0 && (code[0] == '1' || code[0] == '2' || code[0] == '3')
}

/// A code whose first character marks a negative reply.
pub open spec fn is_negative_code(code: Seq<char>) -> bool {
    code.len() > 0 && (code[0] == '4' || code[0] == '5')
}

/// Model of classification: a reply succeeds as itself when its code
/// leads with '1', '2' or '3', fails carrying itself when it leads with
/// '4' or '5', and is malformed data otherwise — an empty code included.
pub open spec fn classify_sp(r: ReplyV) -> Result<ReplyV, ErrorV> {
    if is_positive_code(r.code) {
        Ok(r)
    } else if is_negative_code(r.code) {
        Err(ErrorV::NegativeReturnCode(r))
    } else {
        Err(ErrorV::InvalidData)
    }
}

/// The model of a classified reply.
pub open spec fn verdict_view(r: Result<ServerResponse, Error>) -> Result<ReplyV, ErrorV> {
    match r {
        Ok(x) => Ok(x@),
        Err(e) => Err(e@),
    }
}

/// Classification law: the verdict is decided by the code's leading
/// character alone. '1'/'2'/'3' succeed with the reply itself, '4'/'5'
/// fail carrying the reply, and any other leading character — or an
/// empty code — is malformed data.
pub proof fn lemma_classification(r: ReplyV)
    ensures
        is_positive_code(r.code) ==> classify_sp(r) == Ok::<ReplyV, ErrorV>(r),
        is_negative_code(r.code) ==> classify_sp(r) == Err::<ReplyV, ErrorV>(
            ErrorV::NegativeReturnCode(r),
        ),
        !is_positive_code(r.code) && !is_negative_code(r.code) ==> classify_sp(r)
            == Err::<ReplyV, ErrorV>(ErrorV::InvalidData),
        r.code.len() == 0 ==> classify_sp(r) == Err::<ReplyV, ErrorV>(ErrorV::InvalidData),
{
}

/// Classifies a reply by the first character of its code field. Applied
/// after every control-socket read: callers never see an unclassified
/// reply.
pub fn classify(response: ServerResponse) -> (r: Result<ServerResponse, Error>)
    ensures
        verdict_view(r) == classify_sp(response@),
{
    let len = response.0.as_str().unicode_len();
    if len > 0 {
        let c = response.0.as_str().get_char(0);
        if c == '1' || c == '2' || c == '3' {
            return Ok(response);
        }
        if c == '4' || c == '5' {
            return Err(Error::NegativeReturnCode { response });
        }
    }
    Err(Error::InvalidData)
}

/// The raw line divided into the fixed-width code field (its first four
/// characters, trailing separator and line-ending characters trimmed)
/// and the remaining text; a line shorter than the code field is all
/// code.
pub open spec fn split_code_sp(line: Seq<char>) -> ReplyV {
    if line.len() >= 4 {
        ReplyV { code: trim_end_sp(line.take(4)), text: line.skip(4) }
    } else {
        ReplyV { code: trim_end_sp(line), text: Seq::empty() }
    }
}

/// Model of consuming one status line: divide into code and text, then
/// classify.
pub open spec fn parse_reply_sp(line: Seq<char>) -> Result<ReplyV, ErrorV> {
    classify_sp(split_code_sp(line))
}

/// Divides one raw status line into code and text and classifies it.
pub fn parse_server_response(line: &str) -> (r: Result<ServerResponse, Error>)
    ensures
        verdict_view(r) == parse_reply_sp(line@),
{
    let len = line.unicode_len();
    let (code_raw, text) = if len >= 4 {
        (line.substring_char(0, 4), line.substring_char(4, len))
    } else {
        (line, "")
    };
    proof {
        reveal_strlit("");
        assert(""@ =~= Seq::<char>::empty());
        if len >= 4 {
            assert(code_raw@ =~= line@.take(4));
            assert(text@ =~= line@.skip(4));
        }
    }
    classify(ServerResponse::from_parts(code_raw, text))
}

} // verus!
