//! Synchronization with the training platform: athlete-identity resolution,
//! and classification of the bulk-upload outcome. The network calls
//! themselves happen at the boundary; every decision around them is here.

use vstd::prelude::*;
use vstd::string::*;
use crate::auth::{auth_header, spec_auth_header};
use crate::config::AppConfig;
use crate::errors::CoreError;
use crate::jsonrep::{JsonRep, json_of, parse_json, value_as_i64, value_get};
use crate::models::UploadResult;
use crate::plan::member;
use crate::text::{dec_str, dec_str_signed, append_u64, i64_to_string};

verus! {

/// How the target athlete identifier is to be found.
#[derive(Debug)]
pub enum AthleteResolution {
    /// The configured default identifier; the lookup endpoint is not
    /// involved.
    UseConfigured(String),
    /// Call the platform's self-identity endpoint with this header value.
    Lookup { auth: String },
}

/// Decide how to resolve the athlete identifier. A configured default wins
/// unconditionally (no network call, even when a credential is also
/// present); otherwise a platform credential is required for the lookup.
pub fn resolve_athlete_step(cfg: &AppConfig) -> (r: Result<AthleteResolution, CoreError>)
    ensures
        match r {
            Ok(AthleteResolution::UseConfigured(id)) => cfg.default_athlete_id matches Some(d)
                && id@ == d@,
            Ok(AthleteResolution::Lookup { auth }) => cfg.default_athlete_id is None && (
            cfg.intervals_api_key matches Some(k) && auth@ == spec_auth_header(k@)),
            Err(e) => cfg.default_athlete_id is None && cfg.intervals_api_key is None
                && e is ConfigError,
        },
{
    match &cfg.default_athlete_id {
        Some(id) => Ok(AthleteResolution::UseConfigured(id.clone())),
        None => match &cfg.intervals_api_key {
            Some(key) => Ok(AthleteResolution::Lookup { auth: auth_header(key.as_str()) }),
            None => Err(CoreError::ConfigError("INTERVALS_API_KEY missing".to_owned())),
        },
    }
}

/// The platform's self-identity endpoint.
pub fn athlete_lookup_url() -> (r: String)
    ensures
        r@ == "https://intervals.icu/api/v1/athlete/0"@,
{
    "https://intervals.icu/api/v1/athlete/0".to_owned()
}

/// Read the athlete identifier out of the lookup response: on a success
/// status, the numeric "id" member, stringified in decimal.
pub fn athlete_id_from_lookup(status: u16, body: &str) -> (r: Result<String, CoreError>)
    ensures
        match r {
            Ok(s) => 200 <= status < 300 && json_of(body@) is Some && (member(
                json_of(body@).unwrap(),
                "id"@,
            ) matches Some(JsonRep::Int(i)) && s@ == dec_str_signed(i as int)),
            Err(e) => match e {
                CoreError::TransportError(_) => 200 <= status < 300 && json_of(body@) is None,
                CoreError::UpstreamError { status: st, message } => st == status && (!(200
                    <= status < 300) || (json_of(body@) is Some && !(member(
                    json_of(body@).unwrap(),
                    "id"@,
                ) matches Some(JsonRep::Int(_))))),
                _ => false,
            },
        },
{
    let could_not = "Could not resolve athlete id from intervals.icu";
    if !(200 <= status && status < 300) {
        return Err(CoreError::UpstreamError { status, message: could_not.to_owned() });
    }
    let v = match parse_json(body) {
        Ok(v) => v,
        Err(diag) => {
            let mut msg: String = "athlete lookup response was not valid JSON: ".to_owned();
            msg.append(diag.as_str());
            return Err(CoreError::TransportError(msg));
        },
    };
    match value_get(&v, "id") {
        Some(idv) => match value_as_i64(idv) {
            Some(i) => Ok(i64_to_string(i)),
            None => Err(CoreError::UpstreamError { status, message: could_not.to_owned() }),
        },
        None => Err(CoreError::UpstreamError { status, message: could_not.to_owned() }),
    }
}

/// What the uploader is to do next.
#[derive(Debug)]
pub enum UploadStep {
    /// Everything known: submit the batch for this athlete with this header.
    Submit { athlete_id: String, auth: String },
    /// Resolve the athlete identifier first, with this header.
    Resolve { auth: String },
}

/// Decide the upload path. A platform credential is required outright; the
/// caller's override wins over the configured default, and only when
/// neither exists is a resolution step called for.
pub fn upload_step(cfg: &AppConfig, athlete_override: &Option<String>) -> (r: Result<
    UploadStep,
    CoreError,
>)
    ensures
        match r {
            Ok(UploadStep::Submit { athlete_id, auth }) => (cfg.intervals_api_key matches Some(
                k,
            ) && auth@ == spec_auth_header(k@)) && ((athlete_override matches Some(a)
                && athlete_id@ == a@) || (athlete_override is None && (
            cfg.default_athlete_id matches Some(d) && athlete_id@ == d@))),
            Ok(UploadStep::Resolve { auth }) => (cfg.intervals_api_key matches Some(k) && auth@
                == spec_auth_header(k@)) && athlete_override is None
                && cfg.default_athlete_id is None,
            Err(e) => e is ConfigError && cfg.intervals_api_key is None,
        },
{
    let key = match &cfg.intervals_api_key {
        Some(k) => k,
        None => {
            return Err(
                CoreError::ConfigError("INTERVALS_API_KEY is required for upload".to_owned()),
            );
        },
    };
    let auth = auth_header(key.as_str());
    match athlete_override {
        Some(a) => Ok(UploadStep::Submit { athlete_id: a.clone(), auth }),
        None => match &cfg.default_athlete_id {
            Some(d) => Ok(UploadStep::Submit { athlete_id: d.clone(), auth }),
            None => Ok(UploadStep::Resolve { auth }),
        },
    }
}

/// The platform's bulk-events endpoint for an athlete.
pub fn events_bulk_url(athlete_id: &str) -> (r: String)
    ensures
        r@ == "https://intervals.icu/api/v1/athlete/"@ + athlete_id@ + "/events/bulk"@,
{
    let mut r: String = "https://intervals.icu/api/v1/athlete/".to_owned();
    r.append(athlete_id);
    r.append("/events/bulk");
    proof {
        assert(r@ =~= "https://intervals.icu/api/v1/athlete/"@ + athlete_id@ + "/events/bulk"@);
    }
    r
}

/// The message an upload failure carries: the status code and the response
/// body text.
pub open spec fn spec_upload_message(status: u16, body: Seq<char>) -> Seq<char> {
    "upload failed ("@ + dec_str(status as nat) + "): "@ + body
}

/// Classify the platform's answer to a bulk upload: 200 and 201 are
/// success, every other status fails with the code and the body text. The
/// batch is all-or-nothing; there is no per-workout split.
pub fn classify_upload_response(status: u16, body: &str) -> (r: Result<(), CoreError>)
    ensures
        match r {
            Ok(_) => status == 200 || status == 201,
            Err(e) => !(status == 200 || status == 201) && (e matches CoreError::UpstreamError {
                status: st,
                message,
            } && st == status && message@ == spec_upload_message(status, body@)),
        },
{
    if status == 200 || status == 201 {
        Ok(())
    } else {
        let mut msg: String = "upload failed (".to_owned();
        append_u64(&mut msg, status as u64);
        msg.append("): ");
        msg.append(body);
        proof {
            assert(msg@ =~= spec_upload_message(status, body@));
        }
        Err(CoreError::UpstreamError { status, message: msg })
    }
}

/// The upload result reported for a submitted batch: "ok" for status 200
/// and 201, otherwise "error" with a message carrying the status code and
/// the body text.
pub fn upload_outcome(status: u16, body: &str) -> (r: UploadResult)
    ensures
        (status == 200 || status == 201) ==> r.status@ == "ok"@ && r.message is None,
        !(status == 200 || status == 201) ==> r.status@ == "error"@ && (r.message matches Some(m)
            && m@ == spec_upload_message(status, body@)),
{
    match classify_upload_response(status, body) {
        Ok(_) => UploadResult { status: "ok".to_owned(), message: None },
        Err(e) => UploadResult { status: "error".to_owned(), message: Some(e.message()) },
    }
}

} // verus!
