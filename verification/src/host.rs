//! The host name that every record carries.

use vstd::prelude::*;

verus! {

/// What `hostname` holds when the system gives no host name.
pub const HOSTNAME_FALLBACK: &'static str = "n/a";

/// The host name to report for the outcome of a lookup: the name that was
/// found, or the fallback where the lookup failed.
pub open spec fn resolved_hostname(lookup: Option<Seq<char>>) -> Seq<char> {
    match lookup {
        Some(name) => name,
        None => HOSTNAME_FALLBACK@,
    }
}

/// Asks the system for the host name with `hostname::get`. `None` stands for
/// any error of the lookup, and for a name that is not valid Unicode.
/// Nothing is claimed about the name itself.
#[verifier::external_body]
fn lookup_hostname() -> Option<String> {
    match hostname::get() {
        Ok(name) => name.into_string().ok(),
        Err(_) => None,
    }
}

/// Turns the outcome of a lookup into the host name to report. A failed
/// lookup is absorbed here: the caller always gets a name.
pub fn hostname_or_fallback(lookup: Option<String>) -> (name: String)
    ensures
        name@ == resolved_hostname(lookup.deep_view()),
{
    match lookup {
        Some(name) => name,
        None => HOSTNAME_FALLBACK.to_owned(),
    }
}

/// The host name of this machine, or the fallback where it cannot be had:
/// where the lookup fails, or gives a name that is not valid Unicode. The
/// name depends on the machine, so it is known only as what
/// [`hostname_or_fallback`] makes of some outcome of the lookup.
pub fn get_hostname() -> (name: String)
    ensures
        exists|lookup: Option<Seq<char>>| name@ == #[trigger] resolved_hostname(lookup),
{
    hostname_or_fallback(lookup_hostname())
}

} // verus!
