//! The epoch window of a keypair.

use vstd::prelude::*;

verus! {

/// Total number of epochs in the lifetime of the signature scheme: `2^32`.
pub const LIFETIME: u64 = 0x1_0000_0000;

/// Whether `[activation_epoch, activation_epoch + num_active_epochs)` is a
/// window that a secret key can be generated for: it holds at least one epoch
/// and ends within the scheme's lifetime.
pub open spec fn epoch_window_valid(activation_epoch: int, num_active_epochs: int) -> bool {
    &&& 0 <= activation_epoch
    &&& 1 <= num_active_epochs
    &&& activation_epoch + num_active_epochs <= LIFETIME
}

/// Decides [`epoch_window_valid`] without overflow, whatever the width of
/// `usize`.
pub fn is_valid_epoch_window(activation_epoch: usize, num_active_epochs: usize) -> (valid: bool)
    ensures
        valid == epoch_window_valid(activation_epoch as int, num_active_epochs as int),
{
    let first: u64 = activation_epoch as u64;
    let count: u64 = num_active_epochs as u64;
    1 <= count && count <= LIFETIME && first <= LIFETIME - count
}

} // verus!
