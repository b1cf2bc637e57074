//! The shared pipeline: a request is assembled from a URL, a method, a
//! body and headers; a response body is parsed as the three-field
//! envelope and its payload decoded into the endpoint's type.

use vstd::prelude::*;
use crate::codec::{opt_field, opt_models, opt_wf, req_field, req_models, req_wf, FromJson};
use crate::error::ApiError;
use crate::headers::{headers_model, sanitize_headers, sanitized};
use crate::json::{parse_json, spec_parse, Json, JsonModel};

verus! {

/// The envelope every response arrives in: a status code, the payload,
/// and an optional diagnostic message.
#[derive(Debug, Clone, PartialEq, Eq, Hash)]
pub struct APIData<T> {
    pub status: i32,
    pub data: T,
    pub error: Option<String>,
}

impl<T: FromJson> FromJson for APIData<T> {
    open spec fn json_wf(j: JsonModel) -> bool {
        &&& j is Obj
        &&& req_wf::<i32>(j->Obj_0, "status"@)
        &&& req_wf::<T>(j->Obj_0, "data"@)
        &&& opt_wf::<String>(j->Obj_0, "error"@)
    }

    open spec fn json_models(&self, j: JsonModel) -> bool {
        &&& j is Obj
        &&& req_models(self.status, j->Obj_0, "status"@)
        &&& req_models(self.data, j->Obj_0, "data"@)
        &&& opt_models(self.error, j->Obj_0, "error"@)
    }

    fn from_json(j: &Json) -> (r: Option<Self>) {
        let fields = match j {
            Json::Obj(f) => f,
            _ => {
                proof {
                    crate::codec::lemma_model_obj(*j);
                }
                return None;
            },
        };
        proof {
            crate::json::lemma_obj_model(*fields);
        }
        let status = match req_field::<i32>(fields, "status") {
            Some(v) => v,
            None => {
                return None;
            },
        };
        let data = match req_field::<T>(fields, "data") {
            Some(v) => v,
            None => {
                return None;
            },
        };
        let error = match opt_field::<String>(fields, "error") {
            Some(v) => v,
            None => {
                return None;
            },
        };
        Some(APIData { status, data, error })
    }
}

/// An HTTP request, assembled and ready for a transport to send.
#[derive(Debug, Clone, PartialEq, Eq, Hash)]
pub struct ApiRequest {
    pub url: String,
    pub method: String,
    pub body: String,
    pub headers: Vec<(String, String)>,
}

/// Assembles a request. The URL, method and body pass through verbatim;
/// header entries that are not legal HTTP headers are dropped.
pub fn build_request(
    url: String,
    method: &str,
    body: &str,
    headers: Vec<(String, String)>,
) -> (r: ApiRequest)
    ensures
        r.url@ == url@,
        r.method@ == method@,
        r.body@ == body@,
        headers_model(r.headers@) == sanitized(headers_model(headers@)),
{
    ApiRequest {
        url,
        method: method.to_owned(),
        body: body.to_owned(),
        headers: sanitize_headers(headers),
    }
}

/// A response body parses as an envelope whose payload is a `T`.
pub open spec fn envelope_ok<T: FromJson>(body: Seq<char>) -> bool {
    spec_parse(body) matches Some(jm) && APIData::<T>::json_wf(jm)
}

/// What a decoded payload says of the body it was taken from.
pub open spec fn payload_models<T: FromJson>(v: T, body: Seq<char>) -> bool {
    spec_parse(body) matches Some(jm) && jm is Obj && req_models(v, jm->Obj_0, "data"@)
}

/// Decodes a response body: the envelope is parsed and its `data` payload
/// returned. The envelope's `status` and `error` fields are read but do
/// not decide success: a well-formed payload wins even beside a non-2xx
/// status, as the service's diagnostic fields are advisory.
pub fn decode_body<T: FromJson>(body: &str) -> (r: Result<T, ApiError>)
    ensures
        r is Ok <==> envelope_ok::<T>(body@),
        r matches Ok(v) ==> payload_models(v, body@),
        r matches Err(e) ==> e is Decode,
{
    match parse_json(body) {
        None => Err(ApiError::Decode("response body is not valid JSON".to_owned())),
        Some(j) => match APIData::<T>::from_json(&j) {
            None => Err(
                ApiError::Decode("response body does not match the expected envelope".to_owned()),
            ),
            Some(d) => Ok(d.data),
        },
    }
}

/// Finishes a call from the transport's outcome: a transport failure is
/// surfaced as [`ApiError::Transport`] and never decoded; a body is
/// decoded as the envelope.
pub fn conclude_fetch<T: FromJson>(outcome: Result<String, String>) -> (r: Result<T, ApiError>)
    ensures
        outcome matches Err(m) ==> r == Err::<T, ApiError>(ApiError::Transport(m)),
        outcome matches Ok(body) ==> {
            &&& (r is Ok <==> envelope_ok::<T>(body@))
            &&& (r matches Ok(v) ==> payload_models(v, body@))
            &&& (r matches Err(e) ==> e is Decode)
        },
{
    match outcome {
        Err(m) => Err(ApiError::Transport(m)),
        Ok(body) => decode_body::<T>(body.as_str()),
    }
}

} // verus!
