//! Environment-variable entries of a task command, and the `KEY=value`
//! line format they are read from.

use vstd::prelude::*;
use vstd::string::{StrSliceExecFns, StringExecFns};

use crate::text::{find_char, first_index_of, is_ascii_lowercase, spec_is_ascii_lowercase,
    trim_end, trim_end_str, trim_start, trim_start_str};

verus! {

/// One `key = value` assignment handed to a command's environment.
/// Entries keep their configured order and are not deduplicated.
#[derive(Debug, Clone)]
pub struct EnvVar {
    pub key: String,
    pub value: String,
}

/// The mathematical value of an [`EnvVar`].
pub struct EnvVarView {
    pub key: Seq<char>,
    pub value: Seq<char>,
}

impl View for EnvVar {
    type V = EnvVarView;

    open spec fn view(&self) -> EnvVarView {
        EnvVarView { key: self.key@, value: self.value@ }
    }
}

/// What parsing a `KEY=value` line yields: the line is split at its first
/// `=`; the key loses trailing white space, the value leading white space.
/// A line without `=` does not parse.
pub open spec fn spec_parse_env_var(line: Seq<char>) -> Option<EnvVarView> {
    match first_index_of(line, '=') {
        Some(i) => Some(
            EnvVarView { key: trim_end(line.take(i)), value: trim_start(line.skip(i + 1)) },
        ),
        None => None,
    }
}

/// A key that holds an ASCII lower-case letter is accepted, but flagged so
/// the caller can warn about it.
pub open spec fn spec_key_flagged(key: Seq<char>) -> bool {
    exists|i: int| 0 <= i < key.len() && spec_is_ascii_lowercase(key[i])
}

/// Reads one environment-variable entry from a `KEY=value` line.
pub fn parse_env_var(line: &str) -> (r: Option<EnvVar>)
    ensures
        match r {
            Some(e) => spec_parse_env_var(line@) == Some(e@),
            None => spec_parse_env_var(line@) is None,
        },
{
    match find_char(line, '=') {
        Some(i) => {
            let n: usize = line.unicode_len();
            let key: String = trim_end_str(line.substring_char(0, i)).to_owned();
            let value: String = trim_start_str(line.substring_char(i + 1, n)).to_owned();
            proof {
                assert(line@.subrange(0, i as int) =~= line@.take(i as int));
                assert(line@.subrange(i + 1, n as int) =~= line@.skip(i + 1));
            }
            Some(EnvVar { key, value })
        },
        None => None,
    }
}

impl EnvVar {
    /// Whether the key holds an ASCII lower-case letter and deserves the
    /// non-fatal warning.
    pub fn key_flagged(&self) -> (r: bool)
        ensures
            r == spec_key_flagged(self@.key),
    {
        let n: usize = self.key.as_str().unicode_len();
        let mut i: usize = 0;
        while i < n
            invariant
                i <= n,
                n == self@.key.len(),
                forall|j: int| 0 <= j < i ==> !spec_is_ascii_lowercase(self@.key[j]),
            decreases n - i,
        {
            if is_ascii_lowercase(self.key.as_str().get_char(i)) {
                return true;
            }
            i = i + 1;
        }
        false
    }

    /// The `KEY=value` text of the assignment, as a shell export writes it.
    pub fn render(&self) -> (r: String)
        ensures
            r@ == spec_render_env_var(self@),
    {
        let mut out: String = self.key.clone();
        out.append("=");
        out.append(self.value.as_str());
        out
    }
}

/// The `KEY=value` text of an assignment.
pub open spec fn spec_render_env_var(e: EnvVarView) -> Seq<char> {
    e.key + "="@ + e.value
}

} // verus!
