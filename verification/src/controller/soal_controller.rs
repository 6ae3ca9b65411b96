//! Questions and question packages: the cache key of a package, and who may
//! take a premium package.
use vstd::prelude::*;
use crate::text::{chars_of, hex_lower, hex_lower_spec, push_str, string_from_chars};

verus! {

/// The MD5 digest of a byte string.
pub uninterp spec fn md5_of(data: Seq<u8>) -> Seq<u8>;

/// `md5::compute`: the 16-byte MD5 digest. The bytes are named by `md5_of`;
/// the algorithm is left to the name.
#[verifier::external_body]
fn md5_digest(data: &[u8]) -> (r: Vec<u8>)
    ensures
        r@ == md5_of(data@),
        r@.len() == 16,
{
    md5::compute(data).0.to_vec()
}

/// The cache key of a package: `<category>:<package>`.
pub open spec fn package_cache_key(kategori: Seq<char>, paket: Seq<char>) -> Seq<char> {
    kategori + ":"@ + paket
}

/// The key under which a package's answer is cached: the lower-case
/// hexadecimal MD5 digest of `<category>:<package>`.
pub open spec fn package_cache_hash_spec(kategori: Seq<char>, paket: Seq<char>) -> Seq<char> {
    hex_lower_spec(md5_of(vstd::utf8::encode_utf8(package_cache_key(kategori, paket))))
}

/// The key under which a package's answer is cached.
pub fn package_cache_hash(kategori: &str, paket: &str) -> (r: String)
    ensures
        r@ == package_cache_hash_spec(kategori@, paket@),
        r@.len() == 32,
{
    let mut k = chars_of(kategori);
    push_str(&mut k, ":");
    push_str(&mut k, paket);
    let key = string_from_chars(k.as_slice());
    let digest = md5_digest(key.as_str().as_bytes());
    let h = hex_lower(digest.as_slice());
    proof {
        crate::text::lemma_hex_lower_len(digest@);
    }
    string_from_chars(h.as_slice())
}

/// The access of a caller to a package.
#[derive(Debug, Clone, Copy, PartialEq, Eq, Structural)]
pub struct PackageAccess {
    pub can_access: bool,
    pub subscription_required: bool,
    /// The premium plans are offered with the answer.
    pub offer_plans: bool,
}

/// The access of a caller to a package: a free package is open to all; a
/// premium one needs a subscription, and is open to a logged-in caller whose
/// access check succeeded with `true` (`access` is that check's outcome,
/// `None` when it failed or there is no caller). Plans are offered to whoever
/// is refused.
pub fn package_access(is_premium: bool, logged_in: bool, access: Option<bool>) -> (r: PackageAccess)
    ensures
        r.subscription_required == is_premium,
        r.can_access == (!is_premium || (logged_in && access == Some(true))),
        r.offer_plans == (r.subscription_required && !r.can_access),
{
    let can = if !is_premium {
        true
    } else if logged_in {
        match access {
            Some(a) => a,
            None => false,
        }
    } else {
        false
    };
    PackageAccess { can_access: can, subscription_required: is_premium, offer_plans: is_premium && !can }
}

/// Whether the premium plans are offered with a category's packages: to a
/// visitor, and to a logged-in user whose count of active subscriptions is 0
/// (not when that count failed).
pub fn offer_plans_for_category(logged_in: bool, active_subscriptions: Option<i64>) -> (r: bool)
    ensures
        r == (!logged_in || active_subscriptions == Some(0i64)),
{
    !logged_in || match active_subscriptions {
        Some(c) => c == 0,
        None => false,
    }
}

/// The answer to a quiz access check.
#[derive(Debug, Clone, Copy, PartialEq, Eq, Structural)]
pub enum QuizAccessReply {
    /// 200: a free package.
    Free,
    /// 200: a premium package the caller may take.
    Granted,
    /// 200: a premium package the caller may not take; plans are offered.
    SubscribeFirst,
    /// 404: no such package.
    NotFound,
    /// 500: the package's status could not be read.
    StatusFailed,
    /// 500: the caller's access could not be checked.
    AccessFailed,
}

/// The answer to a quiz access check, from the lookup of the package's
/// premium flag, whether a caller is logged in, and the outcome of their
/// access check (`None` when it failed).
pub fn quiz_access_reply(premium: Result<Option<bool>, ()>, logged_in: bool, access: Option<bool>) -> (r:
    QuizAccessReply)
    ensures
        premium is Err ==> r == QuizAccessReply::StatusFailed,
        premium == Ok::<Option<bool>, ()>(None) ==> r == QuizAccessReply::NotFound,
        premium == Ok::<Option<bool>, ()>(Some(false)) ==> r == QuizAccessReply::Free,
        premium == Ok::<Option<bool>, ()>(Some(true)) ==> r == if !logged_in {
            QuizAccessReply::SubscribeFirst
        } else {
            match access {
                Some(true) => QuizAccessReply::Granted,
                Some(false) => QuizAccessReply::SubscribeFirst,
                None => QuizAccessReply::AccessFailed,
            }
        },
{
    match premium {
        Err(_) => QuizAccessReply::StatusFailed,
        Ok(None) => QuizAccessReply::NotFound,
        Ok(Some(false)) => QuizAccessReply::Free,
        Ok(Some(true)) => {
            if !logged_in {
                QuizAccessReply::SubscribeFirst
            } else {
                match access {
                    Some(true) => QuizAccessReply::Granted,
                    Some(false) => QuizAccessReply::SubscribeFirst,
                    None => QuizAccessReply::AccessFailed,
                }
            }
        },
    }
}

} // verus!
