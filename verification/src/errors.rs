//! The uniform error taxonomy: every failure of the adapter layer is a
//! `(code, message)` pair whose `code` is drawn from a small closed set.

use vstd::prelude::*;
use vstd::string::*;
use crate::strings::{contains_seq, contains_str, dec_str, u16_to_string};
use crate::types::Provider;

verus! {

/// An error surfaced to the caller: a machine-readable code plus a
/// human-readable message.
#[derive(Debug)]
pub struct AppError {
    pub code: String,
    pub message: String,
}

impl AppError {
    /// Builds an error from a code and a message.
    pub fn new(code: &str, message: &str) -> (r: AppError)
        ensures
            r.code@ == code@,
            r.message@ == message@,
    {
        AppError { code: code.to_owned(), message: message.to_owned() }
    }
}

/// Maps a transport failure to the taxonomy: a timeout is `timeout`, a
/// connection failure is `unreachable`, anything else is a generic
/// `network_error`. The two flags are read off the transport error by
/// the caller.
pub fn transport_error(is_timeout: bool, is_connect: bool, message: &str) -> (r: AppError)
    ensures
        is_timeout ==> r.code@ == "timeout"@,
        !is_timeout && is_connect ==> r.code@ == "unreachable"@,
        !is_timeout && !is_connect ==> r.code@ == "network_error"@,
        r.message@ == message@,
{
    if is_timeout {
        AppError::new("timeout", message)
    } else if is_connect {
        AppError::new("unreachable", message)
    } else {
        AppError::new("network_error", message)
    }
}

/// Maps a non-success HTTP status to the taxonomy: 401 and 403 are
/// credential rejections, anything else keeps the operation's own
/// failure code.
pub fn http_status_error(status: u16, op_code: &str, message: &str) -> (r: AppError)
    ensures
        (status == 401 || status == 403) ==> r.code@ == "auth_failed"@,
        !(status == 401 || status == 403) ==> r.code@ == op_code@,
        r.message@ == message@,
{
    if status == 401 || status == 403 {
        AppError::new("auth_failed", message)
    } else {
        AppError::new(op_code, message)
    }
}

/// The `"HTTP {status}: {text}"` message reported for an HTTP-level
/// failure.
pub fn http_error_message(status: u16, text: &str) -> (r: String)
    ensures
        r@ == "HTTP "@ + dec_str(status as nat) + ": "@ + text@,
{
    let mut r = String::new();
    r.append("HTTP ");
    let st = u16_to_string(status);
    r.append(st.as_str());
    r.append(": ");
    r.append(text);
    r
}

/// The `"HTTP {status}: {reason} (response text: {text})"` message
/// reported for an HTTP-level failure, with the reason phrase.
pub fn http_reason_message(status: u16, reason: &str, text: &str) -> (r: String)
    ensures
        r@ == "HTTP "@ + dec_str(status as nat) + ": "@ + reason@ + " (response text: "@ + text@
            + ")"@,
{
    let mut r = String::new();
    r.append("HTTP ");
    let st = u16_to_string(status);
    r.append(st.as_str());
    r.append(": ");
    r.append(reason);
    r.append(" (response text: ");
    r.append(text);
    r.append(")");
    r
}

/// The error reported when a response body is not the expected JSON: the
/// decoder's message with the raw body kept for diagnosis.
pub fn json_decode_error(decode_msg: &str, text: &str) -> (r: AppError)
    ensures
        r.code@ == "json_decode_failed"@,
        r.message@ == "Failed to decode response: "@ + decode_msg@ + " (response text: "@ + text@
            + ")"@,
{
    let mut m = String::new();
    m.append("Failed to decode response: ");
    m.append(decode_msg);
    m.append(" (response text: ");
    m.append(text);
    m.append(")");
    AppError::new("json_decode_failed", m.as_str())
}

/// Whether a provider error code names a credential problem, by the
/// known auth-related fragments in the first query-signing provider's
/// error codes.
pub open spec fn aliyun_code_is_auth(code: Seq<char>) -> bool {
    contains_seq(code, "AccessKey"@) || contains_seq(code, "Signature"@)
}

/// Maps the error envelope of the query-signing provider: codes naming
/// the access key or the signature are `auth_failed`, the rest are
/// `fetch_failed`.
pub fn aliyun_envelope_error(code: &str, message: &str) -> (r: AppError)
    ensures
        aliyun_code_is_auth(code@) ==> r.code@ == "auth_failed"@,
        !aliyun_code_is_auth(code@) ==> r.code@ == "fetch_failed"@,
        r.message@ == message@,
{
    if contains_str(code, "AccessKey") || contains_str(code, "Signature") {
        AppError::new("auth_failed", message)
    } else {
        AppError::new("fetch_failed", message)
    }
}

/// Whether an error code of the derived-key-signing provider names a
/// credential problem.
pub open spec fn tencent_code_is_auth(code: Seq<char>) -> bool {
    contains_seq(code, "AuthFailure"@) || contains_seq(code, "UnauthorizedOperation"@)
}

/// Maps the error envelope of the derived-key-signing provider: codes
/// naming an authentication failure are `auth_failed`, the rest are
/// `fetch_failed`.
pub fn tencent_envelope_error(code: &str, message: &str) -> (r: AppError)
    ensures
        tencent_code_is_auth(code@) ==> r.code@ == "auth_failed"@,
        !tencent_code_is_auth(code@) ==> r.code@ == "fetch_failed"@,
        r.message@ == message@,
{
    if contains_str(code, "AuthFailure") || contains_str(code, "UnauthorizedOperation") {
        AppError::new("auth_failed", message)
    } else {
        AppError::new("fetch_failed", message)
    }
}

/// The display name used in "is not configured" errors.
pub open spec fn spec_provider_display(p: Provider) -> Seq<char> {
    match p {
        Provider::Cloudflare => "Cloudflare"@,
        Provider::Dnspod => "DNSPod"@,
        Provider::Aliyun => "Aliyun"@,
        Provider::Huawei => "Huawei Cloud"@,
        Provider::Baidu => "Baidu Cloud"@,
        Provider::Dnscom => "DNS.COM"@,
        Provider::Rainyun => "Rainyun"@,
        Provider::Tencentcloud => "Tencent Cloud"@,
    }
}

/// The error reported when an operation addresses a provider whose
/// credentials are absent from the vault.
pub fn not_configured_error(provider: Provider) -> (r: AppError)
    ensures
        r.code@ == "not_configured"@,
        r.message@ == spec_provider_display(provider) + " is not configured"@,
{
    let mut m = String::new();
    match provider {
        Provider::Cloudflare => m.append("Cloudflare"),
        Provider::Dnspod => m.append("DNSPod"),
        Provider::Aliyun => m.append("Aliyun"),
        Provider::Huawei => m.append("Huawei Cloud"),
        Provider::Baidu => m.append("Baidu Cloud"),
        Provider::Dnscom => m.append("DNS.COM"),
        Provider::Rainyun => m.append("Rainyun"),
        Provider::Tencentcloud => m.append("Tencent Cloud"),
    }
    m.append(" is not configured");
    AppError::new("not_configured", m.as_str())
}

} // verus!
