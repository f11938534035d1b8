//! Calls of mocked functions: the lookup of the answering resource and the
//! envelope of the answer.

use vstd::prelude::*;

use crate::comresult::{ComResult, ComResultModel, ServiceResponse};
use crate::request::{is_first_answer, resource_answers, resources_view, WebserviceRequest};
use crate::resource::{FileOrString, MockResource};

verus! {

#[verifier::external_type_specification]
#[verifier::external_body]
pub struct ExJsonValue(serde_json::Value);

#[verifier::external_type_specification]
#[verifier::external_body]
pub struct ExJsonError(serde_json::Error);

/// Whether `text` is one JSON value, as `serde_json` reads it.
pub uninterp spec fn json_parses(text: Seq<char>) -> bool;

/// Relies on `serde_json::from_str` into a `Value`: it succeeds exactly when
/// the text holds one JSON value, which depends on the text alone.
#[verifier::external_body]
fn parse_json(text: &str) -> (r: Result<serde_json::Value, serde_json::Error>)
    ensures
        r is Ok <==> json_parses(text@),
{
    serde_json::from_str(text)
}

/// An answer body: a JSON value whose fields stand beside the envelope, or
/// nothing.
#[derive(Debug)]
pub struct OptionalJson(pub Option<serde_json::Value>);

impl FileOrString {
    /// The answer body of the data source, where `file_contents` stands for
    /// the content of the file of a `File` source: nothing for `Empty`, else
    /// the JSON value of the text; an error where the text is no JSON value.
    pub fn as_json_value(&self, file_contents: &str) -> (r: Result<OptionalJson, serde_json::Error>)
        ensures
            match self {
                FileOrString::Empty => r matches Ok(j) && j.0 is None,
                FileOrString::File { .. } => {
                    &&& r is Ok <==> json_parses(file_contents@)
                    &&& r matches Ok(j) ==> j.0 is Some
                },
                FileOrString::String { value } => {
                    &&& r is Ok <==> json_parses(value@)
                    &&& r matches Ok(j) ==> j.0 is Some
                },
            },
    {
        let text = match self {
            FileOrString::Empty => {
                return Ok(OptionalJson(None));
            },
            FileOrString::File { .. } => file_contents,
            FileOrString::String { value } => value.as_str(),
        };
        match parse_json(text) {
            Ok(v) => Ok(OptionalJson(Some(v))),
            Err(e) => Err(e),
        }
    }
}

/// The envelope of a call that a resource answers.
pub open spec fn found_result() -> ComResultModel {
    ComResultModel {
        status: 200,
        code: "200 OK"@,
        info: "Kein Fehler"@,
        info2: Some(Seq::empty()),
        info3: Some(Seq::empty()),
        errno: Some("0"@),
        bereich: Some("WWSVC"@),
        errnotxt: Some("SVCERR_NO_ERROR (0)"@),
    }
}

/// The envelope of a call that no resource answers; it quotes the called name.
pub open spec fn unknown_function_result(function_name: Seq<char>) -> ComResultModel {
    ComResultModel {
        status: 400,
        code: "400 Bad Request"@,
        info: "Es wurde eine fehlerhafte Anforderung übergeben."@,
        info2: Some("Funktionsname nicht bekannt."@),
        info3: Some(function_name),
        errno: Some("20"@),
        bereich: Some("WWSVC"@),
        errnotxt: Some("SVCERR_UNKNOWN_FUNCTION (20)"@),
    }
}

/// The envelope of a call that a resource answers.
pub fn found_comresult() -> (r: ComResult)
    ensures
        r@ == found_result(),
{
    ComResult {
        status: 200,
        code: "200 OK".to_owned(),
        info: "Kein Fehler".to_owned(),
        info2: Some(String::new()),
        info3: Some(String::new()),
        errno: Some("0".to_owned()),
        bereich: Some("WWSVC".to_owned()),
        errnotxt: Some("SVCERR_NO_ERROR (0)".to_owned()),
    }
}

/// The envelope of a call of `function_name` that no resource answers.
pub fn unknown_function_comresult(function_name: &str) -> (r: ComResult)
    ensures
        r@ == unknown_function_result(function_name@),
{
    ComResult {
        status: 400,
        code: "400 Bad Request".to_owned(),
        info: "Es wurde eine fehlerhafte Anforderung übergeben.".to_owned(),
        info2: Some("Funktionsname nicht bekannt.".to_owned()),
        info3: Some(function_name.to_owned()),
        errno: Some("20".to_owned()),
        bereich: Some("WWSVC".to_owned()),
        errnotxt: Some("SVCERR_UNKNOWN_FUNCTION (20)".to_owned()),
    }
}

/// Answers a call from the catalog: where a resource answers it, the success
/// envelope with the data source of the first such resource as the body, to
/// be resolved by the caller; else the unknown-function envelope and no body.
pub fn exec_json(resources: &[MockResource], request: &WebserviceRequest) -> (r: ServiceResponse<
    Option<FileOrString>,
>)
    ensures
        (forall|i: int|
            0 <= i < resources@.len() ==> !resource_answers(
                #[trigger] resources@[i]@,
                request.call_name(),
                request.call_parameters(),
            )) ==> r.comresult@ == unknown_function_result(request.function.function_name@)
            && r.body is None,
        (exists|i: int|
            0 <= i < resources@.len() && resource_answers(
                #[trigger] resources@[i]@,
                request.call_name(),
                request.call_parameters(),
            )) ==> r.comresult@ == found_result() && exists|i: int|
            is_first_answer(
                resources_view(resources@),
                i,
                request.call_name(),
                request.call_parameters(),
            ) && r.body == Some(resources@[i].data_source),
{
    match request.lookup_resource(resources) {
        Some(resource) => ServiceResponse {
            comresult: found_comresult(),
            body: Some(resource.data_source),
        },
        None => ServiceResponse {
            comresult: unknown_function_comresult(request.function.function_name.as_str()),
            body: None,
        },
    }
}

} // verus!
