//! The buffer in which the firmware leaves its last account of physical
//! memory.
//!
//! The account is written while the firmware ends its boot-time services,
//! and ending them may itself change the account. The buffer is therefore
//! made larger than the account was when its size was asked for.

use vstd::prelude::*;
use crate::segment::spec_zero_filled;

verus! {

/// The number of further entries that the buffer has room for.
pub const SLACK_ENTRIES: usize = 10;

/// The length of the buffer for an account of `required_size` bytes with
/// entries of `entry_size` bytes.
pub open spec fn spec_snapshot_len(required_size: int, entry_size: int) -> int {
    required_size + entry_size * SLACK_ENTRIES
}

/// The length of the buffer for an account of `required_size` bytes with
/// entries of `entry_size` bytes: the account as it is, and room for
/// `SLACK_ENTRIES` entries more. There is none where that is more than the
/// machine can address.
pub fn snapshot_len(required_size: usize, entry_size: usize) -> (len: Option<usize>)
    ensures
        len is Some <==> spec_snapshot_len(required_size as int, entry_size as int) <= usize::MAX,
        len matches Some(n) ==> n == spec_snapshot_len(required_size as int, entry_size as int),
{
    match entry_size.checked_mul(SLACK_ENTRIES) {
        None => None,
        Some(slack) => required_size.checked_add(slack),
    }
}

/// A buffer of `len` zero bytes for the firmware to write its account into.
pub fn snapshot_buffer(len: usize) -> (buffer: Vec<u8>)
    ensures
        buffer@ == spec_zero_filled(len as nat),
{
    let mut buffer: Vec<u8> = Vec::new();
    buffer.resize(len, 0u8);
    buffer
}

/// The buffer is never shorter than the account was when its size was asked
/// for, and still holds the account after up to `SLACK_ENTRIES` entries have
/// been added to it.
pub proof fn snapshot_has_slack(required_size: nat, entry_size: nat, added: nat)
    requires
        added <= SLACK_ENTRIES,
    ensures
        spec_snapshot_len(required_size as int, entry_size as int) >= required_size,
        spec_snapshot_len(required_size as int, entry_size as int) >= required_size + added
            * entry_size,
{
    assert(added * entry_size <= SLACK_ENTRIES * entry_size) by (nonlinear_arith)
        requires
            added <= SLACK_ENTRIES,
    ;
}

} // verus!
