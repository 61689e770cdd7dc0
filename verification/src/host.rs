//! Host policy: where a task's commands run, and how the policy is read
//! from a task definition's host string.

use vstd::prelude::*;

use crate::text::{lower, str_eq, to_lowercase_str};

verus! {

/// Where a task's commands are executed: on the local machine, or on a
/// named remote host reached over a secure shell session.
#[derive(Debug, Clone)]
pub enum Host {
    /// Run on the machine this process runs on.
    Local,
    /// Run on the remote machine with the given address.
    Remote(String),
}

/// The mathematical value of a [`Host`].
pub enum HostView {
    Local,
    Remote(Seq<char>),
}

impl View for Host {
    type V = HostView;

    open spec fn view(&self) -> HostView {
        match self {
            Host::Local => HostView::Local,
            Host::Remote(a) => HostView::Remote(a@),
        }
    }
}

impl Default for Host {
    /// A task definition that does not name a host runs locally.
    fn default() -> (r: Self)
        ensures
            r@ == HostView::Local,
    {
        Host::Local
    }
}

/// The spellings that, once lowered, name the local machine.
pub open spec fn is_local_name(t: Seq<char>) -> bool {
    t == "local"@ || t == "localhost"@ || t == "127.0.0.1"@ || t == "::1"@
}

/// What parsing a host string yields: the string is lowered; the local
/// spellings map to the local host, anything else names a remote host.
pub open spec fn spec_parse_host(s: Seq<char>) -> HostView {
    if is_local_name(lower(s)) {
        HostView::Local
    } else {
        HostView::Remote(lower(s))
    }
}

impl Host {
    /// Reads a host policy from its configured string.
    ///
    /// The literal spellings `local`, `localhost`, `127.0.0.1` and `::1`
    /// (in any letter case) select the local machine; any other string is
    /// the address of a remote host, kept in lower case.
    pub fn parse(s: &str) -> (r: Host)
        ensures
            r@ == spec_parse_host(s@),
    {
        let low = to_lowercase_str(s);
        let t = low.as_str();
        if str_eq(t, "local") || str_eq(t, "localhost") || str_eq(t, "127.0.0.1") || str_eq(
            t,
            "::1",
        ) {
            Host::Local
        } else {
            Host::Remote(low)
        }
    }
}

/// An omitted host and an explicit `local` behave identically: the default
/// host policy and the parse of the string `local` are the same value, so
/// everything decided by the host policy comes out the same.
pub proof fn lemma_host_default_matches_local()
    ensures
        spec_parse_host("local"@) == HostView::Local,
{
    reveal_strlit("local");
    assert(lower("local"@) =~= "local"@);
}

} // verus!
