//! Building the outbound request and judging the orchestrator's answer: the
//! transport settings, the orchestrator URL, which client headers are passed
//! on, and the errors a request can end in.

use crate::config::OrchestratorConfig;
use crate::sse::chars_of;
use vstd::prelude::*;
use vstd::string::*;

verus! {

/// The decimal digit for `d`, which is below ten.
pub open spec fn digit_char(d: nat) -> char {
    if d == 0 {
        '0'
    } else if d == 1 {
        '1'
    } else if d == 2 {
        '2'
    } else if d == 3 {
        '3'
    } else if d == 4 {
        '4'
    } else if d == 5 {
        '5'
    } else if d == 6 {
        '6'
    } else if d == 7 {
        '7'
    } else if d == 8 {
        '8'
    } else {
        '9'
    }
}

/// The decimal notation of `n`, without leading zeros.
pub open spec fn decimal(n: nat) -> Seq<char>
    decreases n,
{
    if n < 10 {
        seq![digit_char(n)]
    } else {
        decimal(n / 10) + seq![digit_char(n % 10)]
    }
}

/// Appends the decimal notation of `n` to `s`.
pub fn append_decimal(s: &mut String, n: u64)
    ensures
        final(s)@ == old(s)@ + decimal(n as nat),
    decreases n,
{
    if n >= 10 {
        append_decimal(s, n / 10);
    }
    let d = (n % 10) as usize;
    let digits = "0123456789";
    proof {
        reveal_strlit("0123456789");
    }
    let piece = digits.substring_char(d, d + 1);
    assert(piece@ =~= seq![digit_char(d as nat)]);
    s.append(piece);
    assert(decimal(n as nat) == if n < 10 {
        seq![digit_char(n as nat)]
    } else {
        decimal((n / 10) as nat) + seq![digit_char((n % 10) as nat)]
    });
}

/// How the client that talks to the orchestrator is set up.
pub struct TransportPlan {
    /// Trust the cluster's certificate authority.
    pub trust_custom_ca: bool,
    /// Skip hostname verification (only for the loopback host, whose name the
    /// orchestrator's certificate does not carry).
    pub accept_invalid_hostnames: bool,
    /// Present the client certificate and key (mutual TLS).
    pub client_identity: bool,
    /// The scheme of every orchestrator URL.
    pub scheme: String,
}

/// Whether two character vectors are equal.
fn chars_equal(a: &Vec<char>, b: &Vec<char>) -> (r: bool)
    ensures
        r == (a@ == b@),
{
    if a.len() != b.len() {
        return false;
    }
    let mut i: usize = 0;
    while i < a.len()
        invariant
            0 <= i <= a@.len(),
            a@.len() == b@.len(),
            forall|k: int| 0 <= k < i ==> a@[k] == b@[k],
        decreases a@.len() - i,
    {
        if a[i] != b[i] {
            return false;
        }
        i += 1;
    }
    assert(a@ =~= b@);
    true
}

/// Decides the transport from which TLS files are present: a present CA
/// bundle is trusted, and for the loopback host hostname checks are skipped;
/// a present certificate and key together give a client identity and the
/// `https` scheme, and without them the scheme is `http`.
pub fn plan_transport(hostname: &str, ca_present: bool, cert_present: bool, key_present: bool) -> (r:
    TransportPlan)
    ensures
        r.trust_custom_ca == ca_present,
        r.accept_invalid_hostnames == (ca_present && hostname@ == "localhost"@),
        r.client_identity == (cert_present && key_present),
        r.scheme@ == if cert_present && key_present {
            "https"@
        } else {
            "http"@
        },
{
    let loopback = chars_equal(&chars_of(hostname), &chars_of("localhost"));
    let client_identity = cert_present && key_present;
    let scheme = if client_identity {
        String::from_str("https")
    } else {
        String::from_str("http")
    };
    TransportPlan {
        trust_custom_ca: ca_present,
        accept_invalid_hostnames: ca_present && loopback,
        client_identity,
        scheme,
    }
}

/// The path of the orchestrator's detection endpoint.
pub open spec fn detection_path() -> Seq<char> {
    "/api/v2/chat/completions-detection"@
}

/// `{scheme}://{host}[:{port}]/api/v2/chat/completions-detection`.
pub open spec fn url_spec(scheme: Seq<char>, host: Seq<char>, port: Option<u16>) -> Seq<char> {
    let authority = match port {
        Some(p) => host + seq![':'] + decimal(p as nat),
        None => host,
    };
    scheme + "://"@ + authority + detection_path()
}

/// The URL of the orchestrator's detection endpoint; the port is left out
/// when none is configured.
pub fn orchestrator_url(scheme: &str, orchestrator: &OrchestratorConfig) -> (r: String)
    ensures
        r@ == url_spec(scheme@, orchestrator.host@, orchestrator.port),
{
    let mut url = String::from_str(scheme);
    url.append("://");
    url.append(orchestrator.host.as_str());
    if let Some(port) = orchestrator.port {
        proof {
            reveal_strlit(":");
        }
        url.append(":");
        append_decimal(&mut url, port as u64);
    }
    url.append("/api/v2/chat/completions-detection");
    proof {
        match orchestrator.port {
            Some(p) => {
                assert(url@ =~= scheme@ + "://"@ + (orchestrator.host@ + seq![':'] + decimal(
                    p as nat,
                )) + detection_path());
            },
            None => {
                assert(url@ =~= scheme@ + "://"@ + orchestrator.host@ + detection_path());
            },
        }
    }
    url
}

/// The code of a character, with ASCII capitals folded to small letters.
pub open spec fn folded(c: char) -> u32 {
    if 'A' <= c && c <= 'Z' {
        (c as u32 + 32) as u32
    } else {
        c as u32
    }
}

/// Whether `s` begins with `p`, ignoring ASCII case.
pub open spec fn starts_with_ignore_case(s: Seq<char>, p: Seq<char>) -> bool {
    p.len() <= s.len() && forall|i: int| 0 <= i < p.len() ==> folded(#[trigger] s[i]) == folded(p[i])
}

/// Whether `s` equals `p`, ignoring ASCII case.
pub open spec fn equals_ignore_case(s: Seq<char>, p: Seq<char>) -> bool {
    s.len() == p.len() && starts_with_ignore_case(s, p)
}

/// Whether a client header is passed on to the orchestrator: `authorization`
/// and every `x-forwarded*` header, in any ASCII case.
pub open spec fn forwarded_header(name: Seq<char>) -> bool {
    equals_ignore_case(name, "authorization"@) || starts_with_ignore_case(name, "x-forwarded"@)
}

fn fold_char(c: char) -> (r: u32)
    ensures
        r == folded(c),
{
    if 'A' <= c && c <= 'Z' {
        c as u32 + 32
    } else {
        c as u32
    }
}

fn starts_with_folded(s: &Vec<char>, p: &Vec<char>) -> (r: bool)
    ensures
        r == starts_with_ignore_case(s@, p@),
{
    if p.len() > s.len() {
        return false;
    }
    let mut i: usize = 0;
    while i < p.len()
        invariant
            0 <= i <= p@.len() <= s@.len(),
            forall|k: int| 0 <= k < i ==> folded(#[trigger] s@[k]) == folded(p@[k]),
        decreases p@.len() - i,
    {
        if fold_char(s[i]) != fold_char(p[i]) {
            return false;
        }
        i += 1;
    }
    true
}

/// Whether the client header `name` is passed on to the orchestrator.
pub fn forward_header(name: &str) -> (r: bool)
    ensures
        r == forwarded_header(name@),
{
    let cs = chars_of(name);
    let authorization = chars_of("authorization");
    let forwarded = chars_of("x-forwarded");
    let exact = cs.len() == authorization.len() && starts_with_folded(&cs, &authorization);
    exact || starts_with_folded(&cs, &forwarded)
}

/// Whether a chat request asks for a streamed reply: its `stream` field,
/// when present and boolean, is true. Anything else means a complete reply.
pub fn is_streaming_request(stream_field: Option<bool>) -> (r: bool)
    ensures
        r == (stream_field == Some(true)),
{
    match stream_field {
        Some(b) => b,
        None => false,
    }
}

/// The ways a request to the orchestrator can fail.
#[derive(Clone, Debug)]
pub enum GatewayError {
    /// The request could not be sent or no answer came.
    Transport { message: String },
    /// The orchestrator answered with a status outside 200..=299.
    UpstreamStatus { status: u16, body: String },
    /// The orchestrator's answer does not have the expected shape.
    Decode { message: String },
}

/// Whether an HTTP status is a success.
pub open spec fn is_success(status: u16) -> bool {
    200 <= status <= 299
}

/// Accepts the body of a successful answer; any other status is an error
/// carrying the status and the body.
pub fn check_upstream_status(status: u16, body: String) -> (r: Result<String, GatewayError>)
    ensures
        is_success(status) ==> r == Ok::<String, GatewayError>(body),
        !is_success(status) ==> r == Err::<String, GatewayError>(
            GatewayError::UpstreamStatus { status, body },
        ),
{
    if 200 <= status && status <= 299 {
        Ok(body)
    } else {
        Err(GatewayError::UpstreamStatus { status, body })
    }
}

impl GatewayError {
    /// The status the client sees: 502 for an answer of the wrong shape, 500
    /// otherwise.
    pub fn status_code(&self) -> (r: u16)
        ensures
            r == match self {
                GatewayError::Decode { .. } => 502u16,
                _ => 500u16,
            },
    {
        match self {
            GatewayError::Decode { .. } => 502,
            _ => 500,
        }
    }

    /// The text the client sees.
    pub open spec fn message_spec(&self) -> Seq<char> {
        match self {
            GatewayError::Transport { message } => "Failed to send request or connect to orchestrator: "@
                + message@,
            GatewayError::UpstreamStatus { status, body } => "Orchestrator returned error status "@
                + decimal(*status as nat) + ": "@ + body@,
            GatewayError::Decode { message } => "Unexpected response from orchestrator: "@ + message@,
        }
    }

    /// The text the client sees.
    pub fn message(&self) -> (r: String)
        ensures
            r@ == self.message_spec(),
    {
        match self {
            GatewayError::Transport { message } => {
                let mut s = String::from_str("Failed to send request or connect to orchestrator: ");
                s.append(message.as_str());
                s
            },
            GatewayError::UpstreamStatus { status, body } => {
                let mut s = String::from_str("Orchestrator returned error status ");
                append_decimal(&mut s, *status as u64);
                s.append(": ");
                s.append(body.as_str());
                s
            },
            GatewayError::Decode { message } => {
                let mut s = String::from_str("Unexpected response from orchestrator: ");
                s.append(message.as_str());
                s
            },
        }
    }
}

} // verus!
