//! Reader pool bootstrap: the decisions of the two-phase protocol that
//! accepts a host as a reader replica only when it reports read-only
//! transaction mode. The asynchronous connection and query work is the
//! caller's; every decision taken on what comes back is verified here.

use vstd::prelude::*;
use vstd::string::*;

verus! {

/// Why a reader bootstrap was rejected before any pool was opened.
pub enum BootstrapError {
    /// The probed host did not report read-only transaction mode.
    NotAReaderInstance,
}

/// Whether two string slices hold the same characters.
fn str_eq(a: &str, b: &str) -> (r: bool)
    ensures
        r == (a@ == b@),
{
    let a_len = a.unicode_len();
    let b_len = b.unicode_len();
    if a_len != b_len {
        return false;
    }
    let mut i: usize = 0;
    while i < a_len
        invariant
            i <= a_len,
            a_len == a@.len(),
            a_len == b@.len(),
            forall|j: int| 0 <= j < i ==> a@[j] == b@[j],
        decreases a_len - i,
    {
        if a.get_char(i) != b.get_char(i) {
            return false;
        }
        i = i + 1;
    }
    proof {
        assert(a@ =~= b@);
    }
    true
}

/// The introspection query the reader bootstrap issues on its diagnostic
/// connection to learn the host's transaction mode.
pub fn read_only_probe_query() -> (q: &'static str)
    ensures
        q@ == "show transaction_read_only"@,
{
    "show transaction_read_only"
}

/// The message carried by the configuration error when a host is rejected
/// as a reader.
pub fn not_a_reader_message() -> (m: &'static str)
    ensures
        m@ == "The host is not a reader instance; please check your configurations"@,
{
    "The host is not a reader instance; please check your configurations"
}

/// The decision of the reader bootstrap on the probed transaction mode:
/// exactly the report `"on"` confirms a reader; any other value rejects
/// the host, and no pool may be opened.
pub fn evaluate_read_only_probe(transaction_read_only: &str) -> (r: Result<(), BootstrapError>)
    ensures
        r is Ok <==> transaction_read_only@ == "on"@,
        r is Err ==> r == Err::<(), BootstrapError>(BootstrapError::NotAReaderInstance),
{
    if str_eq(transaction_read_only, "on") {
        Ok(())
    } else {
        Err(BootstrapError::NotAReaderInstance)
    }
}

/// Whether a database error code is the vendor's read-only-transaction
/// violation, the code a write attempt through a reader pool surfaces.
pub fn is_read_only_violation(code: &Option<String>) -> (r: bool)
    ensures
        r == (code matches Some(c) && c@ == "25006"@),
{
    match code {
        Some(c) => str_eq(c.as_str(), "25006"),
        None => false,
    }
}

} // verus!
