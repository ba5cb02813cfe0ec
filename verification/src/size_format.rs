//! Human-readable byte sizes, as the `humansize` crate formats them.
use vstd::prelude::*;

verus! {

/// The text that `humansize::format_size(bytes, humansize::DECIMAL)`
/// produces for `bytes`: the value in SI units (kB, MB, GB, ...), written
/// without decimals when it is a whole number ("1 MB") and with two decimals
/// otherwise ("1.50 MB"), or the plain byte count below one kilobyte.
pub uninterp spec fn decimal_size(bytes: u64) -> Seq<char>;

/// Calls `humansize::format_size` with the `DECIMAL` options. The contract
/// claims only that the result depends on `bytes` alone; what the text looks
/// like is left to the crate.
#[verifier::external_body]
pub(crate) fn format_size_decimal(bytes: u64) -> (s: String)
    ensures
        s@ == decimal_size(bytes),
{
    humansize::format_size(bytes, humansize::DECIMAL)
}

} // verus!
