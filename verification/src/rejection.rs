//! The errors a request is answered with when its path, query string or JSON body cannot
//! be read.

use vstd::prelude::*;
use crate::api::{ApiError, is_generic, status_of};
use crate::text::{decimal, push_decimal};

verus! {

/// Why the parameters of a request path could not be read.
#[derive(Debug, Clone)]
pub enum PathProblem {
    WrongNumberOfParameters { got: usize, expected: usize },
    ParseErrorAtKey { key: String },
    ParseErrorAtIndex { index: usize },
    ParseError { value: String, expected_type: String },
    InvalidUtf8InPathParam { key: String },
    UnsupportedType { name: String },
    Message(String),
    DeserializeError { message: String },
    Other,
}

/// Why a request path was refused.
#[derive(Debug, Clone)]
pub enum PathRejection {
    /// Its parameters could not be read.
    FailedToDeserializePathParams(PathProblem),
    /// The route has no parameters to read; the text is the router's.
    MissingPathParams(String),
    Other,
}

/// Why a query string was refused.
#[derive(Debug, Clone)]
pub enum QueryRejection {
    FailedToDeserializeQueryString,
    Other,
}

/// Why a JSON body was refused.
#[derive(Debug, Clone)]
pub enum JsonRejection {
    /// The JSON was well formed but did not fit the expected shape; the text is the parser's.
    JsonDataError(String),
    JsonSyntaxError,
    MissingJsonContentType,
    Other,
}

/// The error that answers a refused request path.
pub open spec fn path_error(r: PathRejection, e: ApiError) -> bool {
    match r {
        PathRejection::FailedToDeserializePathParams(p) => match p {
            PathProblem::WrongNumberOfParameters { got, expected } => is_generic(e, 400000,
                "Wrong number of path parameters: got "@ + decimal(got as nat) + ", expected "@ + decimal(expected as nat)),
            PathProblem::ParseErrorAtKey { key } => is_generic(e, 400000,
                "Failed to parse path parameter '"@ + key@ + "'"@),
            PathProblem::ParseErrorAtIndex { index } => is_generic(e, 400000,
                "Failed to parse path parameter at index "@ + decimal(index as nat)),
            PathProblem::ParseError { value, expected_type } => is_generic(e, 400000,
                "Failed to parse path parameter value '"@ + value@ + "' as "@ + expected_type@),
            PathProblem::InvalidUtf8InPathParam { key } => is_generic(e, 400000,
                "Invalid UTF-8 in path parameter '"@ + key@ + "'"@),
            PathProblem::UnsupportedType { name } => is_generic(e, 400000,
                "Unsupported type for path parameter '"@ + name@ + "'"@),
            PathProblem::Message(m) => is_generic(e, 400000, m@),
            PathProblem::DeserializeError { message } => is_generic(e, 400000, message@),
            PathProblem::Other => is_generic(e, 500000, "Failed to extract path parameters"@),
        },
        PathRejection::MissingPathParams(m) => is_generic(e, 500000, m@),
        PathRejection::Other => is_generic(e, 500000, "Failed to extract path parameters"@),
    }
}

/// `a`, then `b`, then `c`.
fn concat3(a: &str, b: &str, c: &str) -> (s: String)
    ensures
        s@ == a@ + b@ + c@,
{
    let mut s = a.to_owned();
    s.append(b);
    s.append(c);
    s
}

impl ApiError {
    /// The error that answers a refused request path.
    pub fn from_path_rejection(rejection: PathRejection) -> (e: Self)
        ensures
            path_error(rejection, e),
    {
        match rejection {
            PathRejection::FailedToDeserializePathParams(p) => match p {
                PathProblem::WrongNumberOfParameters { got, expected } => {
                    let mut m = "Wrong number of path parameters: got ".to_owned();
                    push_decimal(&mut m, got);
                    m.append(", expected ");
                    push_decimal(&mut m, expected);
                    ApiError::Generic { code: 400000, message: m }
                },
                PathProblem::ParseErrorAtKey { key } => {
                    let m = concat3("Failed to parse path parameter '", key.as_str(), "'");
                    ApiError::Generic { code: 400000, message: m }
                },
                PathProblem::ParseErrorAtIndex { index } => {
                    let mut m = "Failed to parse path parameter at index ".to_owned();
                    push_decimal(&mut m, index);
                    ApiError::Generic { code: 400000, message: m }
                },
                PathProblem::ParseError { value, expected_type } => {
                    let mut m = concat3("Failed to parse path parameter value '", value.as_str(), "' as ");
                    m.append(expected_type.as_str());
                    ApiError::Generic { code: 400000, message: m }
                },
                PathProblem::InvalidUtf8InPathParam { key } => {
                    let m = concat3("Invalid UTF-8 in path parameter '", key.as_str(), "'");
                    ApiError::Generic { code: 400000, message: m }
                },
                PathProblem::UnsupportedType { name } => {
                    let m = concat3("Unsupported type for path parameter '", name.as_str(), "'");
                    ApiError::Generic { code: 400000, message: m }
                },
                PathProblem::Message(m) => ApiError::bad_request(m.as_str()),
                PathProblem::DeserializeError { message } => ApiError::bad_request(message.as_str()),
                PathProblem::Other => ApiError::unexpected_error("Failed to extract path parameters"),
            },
            PathRejection::MissingPathParams(m) => ApiError::unexpected_error(m.as_str()),
            PathRejection::Other => ApiError::unexpected_error("Failed to extract path parameters"),
        }
    }

    /// The error that answers a refused query string.
    pub fn from_query_rejection(rejection: QueryRejection) -> (e: Self)
        ensures
            rejection is FailedToDeserializeQueryString ==> is_generic(e, 400000, "Invalid query string"@),
            rejection is Other ==> is_generic(e, 400000, "Unexpected query rejection"@),
    {
        match rejection {
            QueryRejection::FailedToDeserializeQueryString => ApiError::bad_request("Invalid query string"),
            QueryRejection::Other => ApiError::bad_request("Unexpected query rejection"),
        }
    }

    /// The error that answers a refused JSON body.
    pub fn from_json_rejection(rejection: JsonRejection) -> (e: Self)
        ensures
            (match rejection {
                JsonRejection::JsonDataError(m) => is_generic(e, 422000, m@),
                JsonRejection::JsonSyntaxError => is_generic(e, 400002, "Invalid JSON syntax"@),
                JsonRejection::MissingJsonContentType => is_generic(e, 400001, "Invalid content type: Missing JSON content type"@),
                JsonRejection::Other => is_generic(e, 400000, "Unexpected JSON rejection"@),
            }),
    {
        match rejection {
            JsonRejection::JsonDataError(m) => ApiError::unprocessable_entity(m.as_str()),
            JsonRejection::JsonSyntaxError => ApiError::invalid_data_format("Invalid JSON syntax"),
            JsonRejection::MissingJsonContentType => {
                let e = ApiError::invalid_content_type("Missing JSON content type");
                proof {
                    reveal_strlit("Invalid content type: ");
                    reveal_strlit("Missing JSON content type");
                    reveal_strlit("Invalid content type: Missing JSON content type");
                    assert("Invalid content type: "@ + "Missing JSON content type"@
                        =~= "Invalid content type: Missing JSON content type"@);
                }
                e
            },
            JsonRejection::Other => ApiError::bad_request("Unexpected JSON rejection"),
        }
    }
}

/// A request path refused for what the client sent (a wrong number of parameters, or one
/// that does not parse) is answered with status 400; a path refused for the server's own
/// reasons (missing parameters, or any other failure to extract them) with status 500.
pub proof fn lemma_path_rejection_status(r: PathRejection, e: ApiError)
    requires
        path_error(r, e),
    ensures
        (r matches PathRejection::FailedToDeserializePathParams(p) && !(p is Other)) ==> status_of(e) == 400,
        (r matches PathRejection::FailedToDeserializePathParams(p) && p is Other) ==> status_of(e) == 500,
        r is MissingPathParams ==> status_of(e) == 500,
        r is Other ==> status_of(e) == 500,
{
}

} // verus!
