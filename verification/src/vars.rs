//! The settings of the service and their defaults.
//!
//! The environment is read by the caller; the functions here decide what a
//! variable that is set, or missing, means.

use crate::utils::text_eq;
use vstd::prelude::*;

verus! {

/// `unit` written `times` times in a row.
pub open spec fn repeated(unit: Seq<char>, times: nat) -> Seq<char>
    decreases times,
{
    if times == 0 {
        Seq::empty()
    } else {
        repeated(unit, (times - 1) as nat) + unit
    }
}

/// Writes `unit` `times` times in a row.
pub fn repeat(unit: &str, times: usize) -> (text: String)
    ensures
        text@ == repeated(unit@, times as nat),
{
    let mut text = String::new();
    let mut n: usize = 0;
    while n < times
        invariant
            n <= times,
            text@ == repeated(unit@, n as nat),
        decreases times - n,
    {
        text.append(unit);
        n = n + 1;
    }
    text
}

/// The address of the database. The variable has no default: it must be set.
pub fn database_url(configured: Option<String>) -> (url: String)
    requires
        configured is Some,
    ensures
        Some(url) == configured,
{
    match configured {
        Some(url) => url,
        None => String::new(),
    }
}

/// The service's secret: the configured one, else `0123` eight times over.
pub fn secret_key(configured: Option<String>) -> (key: String)
    ensures
        key@ == match configured {
            Some(k) => k@,
            None => repeated("0123"@, 8),
        },
{
    match configured {
        Some(key) => key,
        None => repeat("0123", 8),
    }
}

/// What a setting of the verification flag means: `true` and `false` are
/// themselves, a missing setting is `true`, anything else means nothing.
pub open spec fn flag_of(configured: Option<Seq<char>>) -> Option<bool> {
    match configured {
        None => Some(true),
        Some(text) => if text == "true"@ {
            Some(true)
        } else if text == "false"@ {
            Some(false)
        } else {
            None
        },
    }
}

/// The view of an optional setting.
pub open spec fn setting_view(configured: Option<String>) -> Option<Seq<char>> {
    match configured {
        Some(text) => Some(text@),
        None => None,
    }
}

/// Whether new accounts count as verified. `None` is a setting that is
/// neither `true` nor `false`.
pub fn verify_email(configured: Option<String>) -> (flag: Option<bool>)
    ensures
        flag == flag_of(setting_view(configured)),
{
    match configured {
        None => Some(true),
        Some(text) => {
            if text_eq(text.as_str(), "true") {
                Some(true)
            } else if text_eq(text.as_str(), "false") {
                Some(false)
            } else {
                None
            }
        },
    }
}

/// The port to listen on: the configured one, else `8080` eight times over.
pub fn port(configured: Option<String>) -> (port: String)
    ensures
        port@ == match configured {
            Some(p) => p@,
            None => repeated("8080"@, 8),
        },
{
    match configured {
        Some(port) => port,
        None => repeat("8080", 8),
    }
}

} // verus!
