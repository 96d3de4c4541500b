//! Speech synthesis: building the one GET request the operation sends, and
//! judging the JSON envelope that comes back.

use vstd::prelude::*;
use vstd::string::*;

use crate::error::TtsError;

verus! {

/// The fixed speech-synthesis endpoint.
pub open spec fn synthesis_endpoint() -> Seq<char> {
    "https://api.milorapart.top/apis/mbAIsc"@
}

/// The format actually sent upstream: exactly `"wav"` stays `"wav"`, every
/// other value falls back to `"mp3"`.
pub open spec fn spec_normalized_format(f: Seq<char>) -> Seq<char> {
    if f == "wav"@ {
        "wav"@
    } else {
        "mp3"@
    }
}

/// Normalize a caller-supplied format to the one of `{mp3, wav}` that is
/// transmitted, per [`spec_normalized_format`].
pub fn normalize_format(format: &str) -> (r: String)
    ensures
        r@ == spec_normalized_format(format@),
{
    proof {
        reveal_strlit("wav");
    }
    let is_wav = if format.unicode_len() == 3 {
        format.get_char(0) == 'w' && format.get_char(1) == 'a' && format.get_char(2) == 'v'
    } else {
        false
    };
    if is_wav {
        proof {
            assert(format@ =~= "wav"@);
        }
        "wav".to_owned()
    } else {
        proof {
            assert(format@ != "wav"@);
        }
        "mp3".to_owned()
    }
}

/// One synthesis call, ready for the transport: a GET to `endpoint` with
/// query parameters `text` and `format`, and `bearer_token` as the
/// `Authorization: Bearer` value. The credential is carried, never rendered.
#[derive(Debug, Clone, PartialEq, Eq)]
pub struct SynthesisRequest {
    pub endpoint: String,
    pub query_text: String,
    pub query_format: String,
    pub bearer_token: String,
}

/// Build the synthesis request: the fixed endpoint, the text as given, the
/// format normalized, the API key as the bearer credential.
pub fn build_synthesis_request(text: String, api_key: String, format: &str) -> (r:
    SynthesisRequest)
    ensures
        r.endpoint@ == synthesis_endpoint(),
        r.query_text@ == text@,
        r.query_format@ == spec_normalized_format(format@),
        r.bearer_token@ == api_key@,
{
    SynthesisRequest {
        endpoint: "https://api.milorapart.top/apis/mbAIsc".to_owned(),
        query_text: text,
        query_format: normalize_format(format),
        bearer_token: api_key,
    }
}

/// What the operation reads from the wire envelope
/// `{code: int, msg?: string, url?: string}`: a field that is absent or has
/// the wrong JSON type is `None`.
#[derive(Debug, Clone, PartialEq, Eq)]
pub struct Envelope {
    pub code: Option<i64>,
    pub msg: Option<String>,
    pub url: Option<String>,
}

/// The mathematical content of an [`Envelope`].
pub ghost struct EnvelopeModel {
    pub code: Option<int>,
    pub msg: Option<Seq<char>>,
    pub url: Option<Seq<char>>,
}

impl View for Envelope {
    type V = EnvelopeModel;

    open spec fn view(&self) -> EnvelopeModel {
        EnvelopeModel {
            code: match self.code {
                Option::Some(c) => Option::Some(c as int),
                Option::None => Option::None,
            },
            msg: match self.msg {
                Option::Some(m) => Option::Some(m@),
                Option::None => Option::None,
            },
            url: match self.url {
                Option::Some(u) => Option::Some(u@),
                Option::None => Option::None,
            },
        }
    }
}

/// The envelope that the JSON parser reads out of a body text, when the text
/// is valid JSON: the outcome depends on the text alone.
pub uninterp spec fn json_envelope(body: Seq<char>) -> Option<EnvelopeModel>;

/// Relies on `serde_json::from_str` to decide whether the body is valid JSON,
/// and on `serde_json::Value::{get, as_i64, as_str}` to read the three
/// envelope fields, each `None` when absent or of another JSON type; the
/// outcome is a function of the body alone, named [`json_envelope`].
#[verifier::external_body]
fn parse_envelope(body: &str) -> (r: Result<Envelope, String>)
    ensures
        r is Ok <==> json_envelope(body@) is Some,
        r matches Ok(e) ==> json_envelope(body@) == Some(e@),
{
    let value: serde_json::Value = match serde_json::from_str(body) {
        Ok(v) => v,
        Err(e) => return Err(e.to_string()),
    };
    Ok(Envelope {
        code: value.get("code").and_then(|c| c.as_i64()),
        msg: value.get("msg").and_then(|m| m.as_str()).map(|s| s.to_string()),
        url: value.get("url").and_then(|u| u.as_str()).map(|s| s.to_string()),
    })
}

/// The code an envelope is judged by: a missing or non-integer `code` counts
/// as 0, which is a failure.
pub open spec fn effective_code(m: EnvelopeModel) -> int {
    match m.code {
        Option::Some(c) => c,
        Option::None => 0,
    }
}

/// The message reported for a failed envelope: its `msg` field when that is a
/// string, else the fallback text.
pub open spec fn spec_api_msg(m: EnvelopeModel) -> Seq<char> {
    match m.msg {
        Option::Some(s) => s,
        Option::None => "unknown error"@,
    }
}

/// Judge a parsed envelope, given the HTTP `status` of the response it came
/// in: `code == 200` with a string `url` yields exactly that URL; `code`
/// other than 200 yields [`TtsError::ApiError`] carrying the envelope's own
/// message or the fallback; a successful code without a `url` yields
/// [`TtsError::MissingField`] and never a value from other fields.
pub fn envelope_to_url(status: u16, env: &Envelope) -> (r: Result<String, TtsError>)
    ensures
        effective_code(env@) == 200 && env@.url is Some ==> (r matches Ok(u) && u@
            == env@.url.unwrap()),
        effective_code(env@) == 200 && env@.url is None ==> (r matches Err(e) && e matches
            TtsError::MissingField { field } && field@ == "url"@),
        effective_code(env@) != 200 ==> (r matches Err(e) && e matches TtsError::ApiError {
            status: s, msg } && s == status && msg@ == spec_api_msg(env@)),
{
    let code: i64 = match env.code {
        Option::Some(c) => c,
        Option::None => 0,
    };
    if code != 200 {
        let msg: String = match &env.msg {
            Option::Some(m) => m.clone(),
            Option::None => "unknown error".to_owned(),
        };
        Err(TtsError::ApiError { status, msg })
    } else {
        match &env.url {
            Option::Some(u) => Ok(u.clone()),
            Option::None => Err(TtsError::MissingField { field: "url".to_owned() }),
        }
    }
}

/// Judge a full synthesis response: parse `body` as JSON, then judge the
/// envelope as [`envelope_to_url`] does. A body that is not valid JSON yields
/// [`TtsError::ResponseParseFailure`]; success is decided by the envelope's
/// `code` alone, while the HTTP `status` is only reported inside the API
/// error.
pub fn interpret_synthesis_response(status: u16, body: &str) -> (r: Result<String, TtsError>)
    ensures
        json_envelope(body@) is None ==> (r matches Err(e) && e matches
            TtsError::ResponseParseFailure { .. }),
        json_envelope(body@) matches Some(m) ==> {
            &&& effective_code(m) == 200 && m.url is Some ==> (r matches Ok(u) && u@
                == m.url.unwrap())
            &&& effective_code(m) == 200 && m.url is None ==> (r matches Err(e) && e matches
                TtsError::MissingField { field } && field@ == "url"@)
            &&& effective_code(m) != 200 ==> (r matches Err(e) && e matches TtsError::ApiError {
                status: s, msg } && s == status && msg@ == spec_api_msg(m))
        },
{
    match parse_envelope(body) {
        Ok(env) => envelope_to_url(status, &env),
        Err(detail) => Err(TtsError::ResponseParseFailure { detail }),
    }
}

} // verus!
