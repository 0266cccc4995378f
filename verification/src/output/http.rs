//! The HTTP output: request shaping and the bounded retry policy.
//!
//! The requests themselves are the embedding's work. Fixed here: which
//! method names are accepted and whether they carry a body, the exponential
//! backoff schedule (base 100 ms, factor 2), and the decision the send loop
//! takes after each attempt.

use crate::error::Error;
use crate::registry::Registries;
use crate::text::{ascii_eq_ignore_case, spec_eq_ignore_ascii_case};
use vstd::arithmetic::power2::pow2;
use vstd::prelude::*;
use vstd::string::StrSliceExecFns;
use vstd::string::StringExecFns;

verus! {

/// HTTP output configuration.
pub struct HttpOutputConfig {
    /// Destination URL.
    pub url: String,
    /// HTTP method name.
    pub method: String,
    /// Request timeout in milliseconds.
    pub timeout_ms: u64,
    /// How many retries follow a failed attempt.
    pub retry_count: u32,
    /// Extra request headers.
    pub headers: Option<Vec<(String, String)>>,
    /// The field the body is read from.
    pub body_field: Option<String>,
}

/// The request methods the output can send.
#[derive(Clone, Copy, Debug, PartialEq, Eq, Structural)]
pub enum HttpMethod {
    Get,
    Post,
    Put,
    Delete,
    Patch,
}

/// The method a configured name selects, compared ignoring ASCII case, and
/// whether requests of that method carry the payload as a body (`POST`,
/// `PUT` and `PATCH` do). Any other name is a `Config` error.
pub fn parse_method(method: &String) -> (r: Result<(HttpMethod, bool), Error>)
    ensures
        spec_eq_ignore_ascii_case(method@, "GET"@) ==> r == Ok::<(HttpMethod, bool), Error>(
            (HttpMethod::Get, false),
        ),
        spec_eq_ignore_ascii_case(method@, "POST"@) ==> r == Ok::<(HttpMethod, bool), Error>(
            (HttpMethod::Post, true),
        ),
        spec_eq_ignore_ascii_case(method@, "PUT"@) ==> r == Ok::<(HttpMethod, bool), Error>(
            (HttpMethod::Put, true),
        ),
        spec_eq_ignore_ascii_case(method@, "DELETE"@) ==> r == Ok::<(HttpMethod, bool), Error>(
            (HttpMethod::Delete, false),
        ),
        spec_eq_ignore_ascii_case(method@, "PATCH"@) ==> r == Ok::<(HttpMethod, bool), Error>(
            (HttpMethod::Patch, true),
        ),
        r is Err <==> !(spec_eq_ignore_ascii_case(method@, "GET"@) || spec_eq_ignore_ascii_case(
            method@,
            "POST"@,
        ) || spec_eq_ignore_ascii_case(method@, "PUT"@) || spec_eq_ignore_ascii_case(
            method@,
            "DELETE"@,
        ) || spec_eq_ignore_ascii_case(method@, "PATCH"@)),
        r matches Err(e) ==> e is Config,
{
    proof {
        reveal_strlit("GET");
        reveal_strlit("POST");
        reveal_strlit("PUT");
        reveal_strlit("DELETE");
        reveal_strlit("PATCH");
    }
    if ascii_eq_ignore_case(method.as_str(), "GET") {
        proof {
            crate::text::lemma_eq_ignore_distinct(method@, "GET"@, "PUT"@, 0);
        }
        Ok((HttpMethod::Get, false))
    } else if ascii_eq_ignore_case(method.as_str(), "POST") {
        Ok((HttpMethod::Post, true))
    } else if ascii_eq_ignore_case(method.as_str(), "PUT") {
        Ok((HttpMethod::Put, true))
    } else if ascii_eq_ignore_case(method.as_str(), "DELETE") {
        Ok((HttpMethod::Delete, false))
    } else if ascii_eq_ignore_case(method.as_str(), "PATCH") {
        Ok((HttpMethod::Patch, true))
    } else {
        Err(
            Error::Config(
                String::from_str("HTTP methods that are not supported: ").concat(method.as_str()),
            ),
        )
    }
}

/// The pause before retry number `retry` (counting from one): 100 ms doubled
/// for every earlier retry.
pub fn backoff_ms(retry: u32) -> (r: u64)
    requires
        1 <= retry <= 57,
    ensures
        r == 100 * pow2((retry - 1) as nat),
{
    proof {
        vstd::arithmetic::power2::lemma2_to64();
        vstd::arithmetic::power2::lemma2_to64_rest();
        assert(pow2((retry - 1) as nat) <= pow2(56)) by {
            vstd::arithmetic::power2::lemma_pow2_strictly_increases((retry - 1) as nat, 57nat);
            vstd::arithmetic::power2::lemma2_to64_rest();
        }
    }
    let shifted = 1u64 << (retry - 1);
    proof {
        assert(shifted == pow2((retry - 1) as nat)) by {
            vstd::bits::lemma_u64_shl_is_mul(1u64, (retry - 1) as u64);
        }
    }
    100u64 * shifted
}

/// What the send loop does after one attempt.
#[derive(Clone, Copy, Debug, PartialEq, Eq, Structural)]
pub enum SendAction {
    /// The request succeeded; the write is done.
    Done,
    /// Record the failure and retry after the given pause in milliseconds.
    RetryAfterMs(u64),
    /// Every allowed attempt failed; surface the last error.
    GiveUp,
}

/// The send loop's decision after attempt number `attempt` (counting from
/// zero): success finishes; a failure retries with exponential backoff while
/// retries remain, and gives up once `retry_count` retries are spent.
pub fn send_step(attempt: u32, retry_count: u32, success: bool) -> (r: SendAction)
    requires
        attempt <= 56,
    ensures
        success ==> r == SendAction::Done,
        !success && attempt < retry_count ==> (r matches SendAction::RetryAfterMs(ms) && ms == 100
            * pow2(attempt as nat)),
        !success && attempt >= retry_count ==> r == SendAction::GiveUp,
{
    if success {
        SendAction::Done
    } else if attempt < retry_count {
        SendAction::RetryAfterMs(backoff_ms(attempt + 1))
    } else {
        SendAction::GiveUp
    }
}

/// Register the HTTP output builder under its `http` tag.
pub fn init(registries: &mut Registries, builder: u64) -> (r: Result<(), Error>)
    requires
        old(registries).wf(),
    ensures
        final(registries).wf(),
        r is Ok <==> !old(registries).spec_output().spec_contains("http"@),
        r is Ok ==> final(registries).spec_output().spec_lookup("http"@) == Some(builder),
        r is Ok ==> final(registries).spec_output().tags() == old(
            registries,
        ).spec_output().tags().push("http"@),
        r matches Err(e) ==> e is Config,
{
    registries.register_output_builder(String::from_str("http"), builder)
}

} // verus!
