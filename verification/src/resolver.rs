//! From raw configuration to the coordinate of a worker.
//!
//! A worker id is either written out as a number or, in a replica set whose
//! host names end in `-` and an ordinal, taken from the host name.

use vstd::prelude::*;
use crate::coordinate::{ConfigurationError, Coordinate};
use crate::decimal::{byte_of, chars_of, parse_byte, parse_byte_from};

verus! {

/// The worker id that asks for the id to be taken from the host name. Letter
/// case does not matter.
pub const FROM_HOSTNAME: &'static str = "FROM_HOSTNAME";

/// `c` with a lower-case ASCII letter turned into its upper-case letter.
pub open spec fn ascii_upper(c: char) -> u32 {
    if 'a' <= c <= 'z' {
        (c as u32 - 32) as u32
    } else {
        c as u32
    }
}

/// `text` reads `FROM_HOSTNAME`, in any mix of upper and lower case.
pub open spec fn is_sentinel(text: Seq<char>) -> bool {
    &&& text.len() == FROM_HOSTNAME@.len()
    &&& forall|i: int| 0 <= i < text.len() ==> ascii_upper(#[trigger] text[i]) == ascii_upper(FROM_HOSTNAME@[i])
}

/// `at` is the place of the last `-` in `host`.
pub open spec fn is_last_dash(host: Seq<char>, at: int) -> bool {
    &&& 0 <= at < host.len()
    &&& host[at] == '-'
    &&& forall|j: int| at < j < host.len() ==> host[j] != '-'
}

/// `host` holds a `-`.
pub open spec fn has_dash(host: Seq<char>) -> bool {
    exists|at: int| is_last_dash(host, at)
}

/// What follows the last `-` of `host`.
pub open spec fn after_last_dash(host: Seq<char>) -> Seq<char> {
    let at = choose|at: int| is_last_dash(host, at);
    host.subrange(at + 1, host.len() as int)
}

/// The worker id that the configuration stands for, not yet held against the
/// layout's limit.
pub open spec fn worker_id_of(worker_id: Seq<char>, hostname: Seq<char>) -> Result<u8, ConfigurationError> {
    if is_sentinel(worker_id) {
        if !has_dash(hostname) {
            Err(ConfigurationError::HostnameWithoutDash)
        } else {
            match byte_of(after_last_dash(hostname)) {
                Some(id) => Ok(id),
                None => Err(ConfigurationError::HostnameSuffixNotNumeric),
            }
        }
    } else {
        match byte_of(worker_id) {
            Some(id) => Ok(id),
            None => Err(ConfigurationError::WorkerIdNotNumeric),
        }
    }
}

/// The two ids that the configuration stands for, or the first thing that is
/// wrong with it: the datacenter id as text, then the worker id as text or
/// host name, then the datacenter id's size, then the worker id's size.
pub open spec fn coordinate_of(
    worker_id: Seq<char>,
    data_center_id: Seq<char>,
    hostname: Seq<char>,
) -> Result<(u8, u8), ConfigurationError> {
    match byte_of(data_center_id) {
        None => Err(ConfigurationError::DataCenterIdNotNumeric),
        Some(datacenter) => match worker_id_of(worker_id, hostname) {
            Err(e) => Err(e),
            Ok(worker) => match Coordinate::checked(datacenter, worker) {
                Some(e) => Err(e),
                None => Ok((datacenter, worker)),
            },
        },
    }
}

/// Tells whether `text` asks for the worker id to be taken from the host name.
pub fn is_from_hostname(text: &str) -> (r: bool)
    ensures
        r == is_sentinel(text@),
{
    let sentinel = chars_of(FROM_HOSTNAME);
    let chars = chars_of(text);
    let n = sentinel.len();
    if chars.len() != n {
        return false;
    }
    let mut i: usize = 0;
    while i < n
        invariant
            i <= n,
            n == chars@.len(),
            chars@ == text@,
            sentinel@ == FROM_HOSTNAME@,
            n == sentinel@.len(),
            forall|k: int| 0 <= k < i ==> ascii_upper(#[trigger] text@[k]) == ascii_upper(FROM_HOSTNAME@[k]),
        decreases n - i,
    {
        if fold(chars[i]) != fold(sentinel[i]) {
            return false;
        }
        i = i + 1;
    }
    true
}

/// Turns a lower-case ASCII letter into its upper-case letter, as a code point.
fn fold(c: char) -> (r: u32)
    ensures
        r == ascii_upper(c),
{
    if c >= 'a' && c <= 'z' {
        c as u32 - 32
    } else {
        c as u32
    }
}

/// Finds where the text after the last `-` of `host` begins.
pub fn suffix_start(host: &[char]) -> (r: Option<usize>)
    ensures
        r is Some <==> has_dash(host@),
        r matches Some(start) ==> start <= host@.len() && is_last_dash(host@, start - 1),
{
    let mut at: usize = host.len();
    while at > 0
        invariant
            at <= host@.len(),
            forall|j: int| at <= j < host@.len() ==> host@[j] != '-',
        decreases at,
    {
        if host[at - 1] == '-' {
            assert(is_last_dash(host@, at - 1));
            return Some(at);
        }
        at = at - 1;
    }
    None
}

/// Resolves the worker id: from the host name where `worker_id` is
/// `FROM_HOSTNAME`, from `worker_id` itself otherwise. The id may still be
/// larger than the layout allows.
pub fn resolve_worker_id(worker_id: &str, hostname: &str) -> (r: Result<u8, ConfigurationError>)
    ensures
        r == worker_id_of(worker_id@, hostname@),
{
    if is_from_hostname(worker_id) {
        let host = chars_of(hostname);
        match suffix_start(host.as_slice()) {
            None => Err(ConfigurationError::HostnameWithoutDash),
            Some(start) => {
                proof {
                    lemma_last_dash_is_unique(hostname@, start - 1);
                }
                match parse_byte_from(host.as_slice(), start) {
                    Some(id) => Ok(id),
                    None => Err(ConfigurationError::HostnameSuffixNotNumeric),
                }
            },
        }
    } else {
        match parse_byte(worker_id) {
            Some(id) => Ok(id),
            None => Err(ConfigurationError::WorkerIdNotNumeric),
        }
    }
}

/// Resolves the coordinate of a worker from its configuration.
pub fn resolve_coordinate(worker_id: &str, data_center_id: &str, hostname: &str) -> (r: Result<
    Coordinate,
    ConfigurationError,
>)
    ensures
        match r {
            Ok(c) => c.wf() && coordinate_of(worker_id@, data_center_id@, hostname@) == Ok::<
                (u8, u8),
                ConfigurationError,
            >((c.datacenter(), c.worker())),
            Err(e) => coordinate_of(worker_id@, data_center_id@, hostname@) == Err::<
                (u8, u8),
                ConfigurationError,
            >(e),
        },
{
    let datacenter = match parse_byte(data_center_id) {
        Some(id) => id,
        None => {
            return Err(ConfigurationError::DataCenterIdNotNumeric);
        },
    };
    let worker = match resolve_worker_id(worker_id, hostname) {
        Ok(id) => id,
        Err(e) => {
            return Err(e);
        },
    };
    Coordinate::new(datacenter, worker)
}

/// A text has at most one last `-`.
pub proof fn lemma_last_dash_is_unique(host: Seq<char>, at: int)
    requires
        is_last_dash(host, at),
    ensures
        has_dash(host),
        (choose|other: int| is_last_dash(host, other)) == at,
        after_last_dash(host) == host.subrange(at + 1, host.len() as int),
{
    let other = choose|other: int| is_last_dash(host, other);
    assert(is_last_dash(host, other));
    if other < at {
        assert(host[at] != '-');
    } else if at < other {
        assert(host[other] != '-');
    }
}

} // verus!
