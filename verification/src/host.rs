//! The host-redirect guard.
//!
//! Every inbound request is checked before routing: in a production build, a
//! request whose `Host` header is not exactly the canonical host name is
//! answered with a `307 Temporary Redirect` to the canonical HTTPS origin and
//! never reaches a handler; in a development build every request passes.

use vstd::prelude::*;
use vstd::string::StringExecFns;

verus! {

/// HTTP status of a temporary redirect.
pub const TEMPORARY_REDIRECT: u16 = 307;

/// A short-circuit response: a status code and a `Location` header value.
pub struct Redirect {
    pub status: u16,
    pub location: String,
}

/// The `Location` a mismatched host is sent to: the canonical HTTPS origin.
pub open spec fn redirect_location(canonical: Seq<char>) -> Seq<char> {
    "https://"@ + canonical
}

/// The canonical host name the service expects to be reached by.
pub fn canonical_host() -> (s: &'static str)
    ensures
        s@ == "shareboxx.lan"@,
{
    "shareboxx.lan"
}

/// Decide what the host guard does with a request.
///
/// In a production build a request whose declared host differs from the
/// canonical one is cut short with a `307` redirect to `https://<canonical>`;
/// a matching host, or any host at all in a development build, passes through.
pub fn host_decision(production: bool, canonical: &str, host: &str) -> (r: Option<Redirect>)
    ensures
        r is Some <==> (production && host@ != canonical@),
        r matches Some(rd) ==> rd.status == TEMPORARY_REDIRECT && rd.location@
            == redirect_location(canonical@),
{
    if !production {
        return None;
    }
    let h: String = host.to_owned();
    let c: String = canonical.to_owned();
    if h == c {
        None
    } else {
        let mut location: String = "https://".to_owned();
        location.append(canonical);
        Some(Redirect { status: TEMPORARY_REDIRECT, location })
    }
}

} // verus!
