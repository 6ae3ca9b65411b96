//! The internal bulk import of questions: trusted networks, the API key, and
//! the tally of an import.
use vstd::prelude::*;
use crate::text::{chars_of, concat, push_decimal, push_str, string_from_chars, trim, trim_spec, decimal_spec, str_equal};

verus! {

/// An IP address, as its octets (IPv4) or 16-bit segments (IPv6).
#[derive(Debug, Clone, Copy, PartialEq, Eq, Structural)]
pub enum IpAddress {
    V4(u8, u8, u8, u8),
    V6(u16, u16, u16, u16, u16, u16, u16, u16),
}

/// Addresses of trusted internal networks: IPv4 loopback (127.0.0.0/8), the
/// private ranges 10.0.0.0/8, 172.16.0.0/12 and 192.168.0.0/16, the
/// carrier-grade range 100.64.0.0/10, and the IPv6 loopback `::1`.
pub open spec fn internal_ip(ip: IpAddress) -> bool {
    match ip {
        IpAddress::V4(a, b, _, _) => a == 127 || a == 10 || (a == 172 && 16 <= b <= 31) || (a == 192
            && b == 168) || (a == 100 && 64 <= b <= 127),
        IpAddress::V6(s0, s1, s2, s3, s4, s5, s6, s7) => s0 == 0 && s1 == 0 && s2 == 0 && s3 == 0
            && s4 == 0 && s5 == 0 && s6 == 0 && s7 == 1,
    }
}

/// Whether an address belongs to a trusted internal network.
pub fn is_internal_ip(ip: IpAddress) -> (r: bool)
    ensures
        r == internal_ip(ip),
{
    match ip {
        IpAddress::V4(a, b, _, _) => {
            let cgnat = a == 100 && (b & 0xC0) == 0x40;
            assert(cgnat == (a == 100 && 64 <= b <= 127)) by {
                assert((b & 0xC0u8) == 0x40u8 <==> (64 <= b && b <= 127)) by (bit_vector);
            }
            a == 127 || a == 10 || (a == 172 && 16 <= b && b <= 31) || (a == 192 && b == 168)
                || cgnat
        },
        IpAddress::V6(s0, s1, s2, s3, s4, s5, s6, s7) => s0 == 0 && s1 == 0 && s2 == 0 && s3 == 0
            && s4 == 0 && s5 == 0 && s6 == 0 && s7 == 1,
    }
}

/// Why an internal request is refused.
#[derive(Debug, Clone, Copy, PartialEq, Eq, Structural)]
pub enum InternalRejection {
    /// 403: the request does not come from a trusted network.
    Forbidden,
    /// 500: no API key is configured.
    NotConfigured,
    /// 401: the request lacks the API key or carries another.
    BadKey,
    /// 400: nothing to import.
    Empty,
}

impl InternalRejection {
    /// The HTTP status of the refusal.
    pub fn status(&self) -> (r: u16)
        ensures
            r == match self {
                InternalRejection::Forbidden => 403u16,
                InternalRejection::NotConfigured => 500u16,
                InternalRejection::BadKey => 401u16,
                InternalRejection::Empty => 400u16,
            },
    {
        match self {
            InternalRejection::Forbidden => 403,
            InternalRejection::NotConfigured => 500,
            InternalRejection::BadKey => 401,
            InternalRejection::Empty => 400,
        }
    }

    /// The `error` field of the refusal.
    pub fn message(&self) -> (r: &'static str)
        ensures
            r@ == match self {
                InternalRejection::Forbidden => "Forbidden: request origin not in allowed IP range"@,
                InternalRejection::NotConfigured =>
                    "Server misconfiguration: internal_api_key not configured"@,
                InternalRejection::BadKey => "Unauthorized: missing or invalid X-Internal-Api-Key"@,
                InternalRejection::Empty => "No questions provided for import"@,
            },
    {
        match self {
            InternalRejection::Forbidden => "Forbidden: request origin not in allowed IP range",
            InternalRejection::NotConfigured =>
                "Server misconfiguration: internal_api_key not configured",
            InternalRejection::BadKey => "Unauthorized: missing or invalid X-Internal-Api-Key",
            InternalRejection::Empty => "No questions provided for import",
        }
    }
}

/// The checks of an internal import, in order: the peer's address (none
/// when unknown) must be internal, an API key must be configured and
/// non-empty, the request's key must equal it, and there must be questions.
pub open spec fn internal_gate(
    peer: Option<IpAddress>,
    configured: Option<Seq<char>>,
    provided: Option<Seq<char>>,
    count: nat,
) -> Option<InternalRejection> {
    if !(peer matches Some(ip) && internal_ip(ip)) {
        Some(InternalRejection::Forbidden)
    } else if !(configured matches Some(k) && k.len() > 0) {
        Some(InternalRejection::NotConfigured)
    } else if provided != configured {
        Some(InternalRejection::BadKey)
    } else if count == 0 {
        Some(InternalRejection::Empty)
    } else {
        None
    }
}

/// Whether an internal import may proceed.
pub fn check_internal_request(
    peer: Option<IpAddress>,
    configured: &Option<String>,
    provided: &Option<String>,
    count: usize,
) -> (r: Option<InternalRejection>)
    ensures
        r == internal_gate(
            peer,
            match configured {
                Some(k) => Some(k@),
                None => None,
            },
            match provided {
                Some(k) => Some(k@),
                None => None,
            },
            count as nat,
        ),
{
    let ok_ip = match peer {
        Some(ip) => is_internal_ip(ip),
        None => false,
    };
    if !ok_ip {
        return Some(InternalRejection::Forbidden);
    }
    let key = match configured {
        Some(k) if chars_of(k.as_str()).len() > 0 => k,
        _ => return Some(InternalRejection::NotConfigured),
    };
    let same = match provided {
        Some(p) => str_equal(p.as_str(), key.as_str()),
        None => false,
    };
    if !same {
        return Some(InternalRejection::BadKey);
    }
    if count == 0 {
        return Some(InternalRejection::Empty);
    }
    None
}

/// The outcome of a bulk import so far.
#[derive(Debug)]
pub struct BulkImportResponse {
    pub success_count: i32,
    pub failed_count: i32,
    pub errors: Vec<String>,
}

/// A question is left out of an import when its text, trimmed, is empty.
pub open spec fn blank_question(text: Seq<char>) -> bool {
    trim_spec(text).len() == 0
}

/// Whether a question's text is blank.
pub fn is_blank_question(text: &str) -> (r: bool)
    ensures
        r == blank_question(text@),
{
    trim(chars_of(text).as_slice()).len() == 0
}

/// The message of a failed question, numbered from 1.
pub open spec fn import_error(index: nat, reason: Seq<char>) -> Seq<char> {
    "Question "@ + decimal_spec(index + 1) + ": "@ + reason
}

impl BulkImportResponse {
    /// Nothing imported yet.
    pub fn new() -> (r: Self)
        ensures
            r.success_count == 0 && r.failed_count == 0 && r.errors@.len() == 0,
    {
        BulkImportResponse { success_count: 0, failed_count: 0, errors: Vec::new() }
    }

    /// Records the question at `index` (from 0): stored (`Ok`), or failed
    /// with a reason: a blank question reads `question text cannot be empty`,
    /// a failed insert carries the error's text.
    pub fn record(&mut self, index: usize, outcome: Result<(), String>)
        requires
            old(self).success_count + old(self).failed_count < i32::MAX,
            old(self).success_count >= 0 && old(self).failed_count >= 0,
            index < u64::MAX,
        ensures
            outcome is Ok ==> final(self).success_count == old(self).success_count + 1,
            outcome is Ok ==> final(self).failed_count == old(self).failed_count,
            outcome is Ok ==> final(self).errors@ == old(self).errors@,
            outcome is Err ==> final(self).success_count == old(self).success_count,
            outcome is Err ==> final(self).failed_count == old(self).failed_count + 1,
            outcome is Err ==> final(self).errors@.len() == old(self).errors@.len() + 1,
            outcome is Err ==> final(self).errors@.take(old(self).errors@.len() as int)
                == old(self).errors@,
            outcome matches Err(e) ==> final(self).errors@.last()@ == import_error(index as nat, e@),
    {
        match outcome {
            Ok(_) => {
                self.success_count = self.success_count + 1;
            },
            Err(e) => {
                self.failed_count = self.failed_count + 1;
                let mut v = chars_of("Question ");
                push_decimal(&mut v, (index as u64) + 1);
                push_str(&mut v, ": ");
                push_str(&mut v, e.as_str());
                let ghost before = self.errors@;
                self.errors.push(string_from_chars(v.as_slice()));
                assert(self.errors@.take(before.len() as int) =~= before);
            },
        }
    }
}

/// The reason recorded for a blank question.
pub fn blank_reason() -> (r: String)
    ensures
        r@ == "question text cannot be empty"@,
{
    "question text cannot be empty".to_string()
}

} // verus!
