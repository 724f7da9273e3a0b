//! The balance that keeps an account exempt from rent.

use vstd::prelude::*;

verus! {

/// Bytes that the ledger charges for on top of an account's data.
pub const ACCOUNT_STORAGE_OVERHEAD: u64 = 128;

/// Lamports charged for one byte over one year.
pub const LAMPORTS_PER_BYTE_YEAR: u64 = 3480;

/// Years of rent that an exempt account holds.
pub const EXEMPTION_YEARS: u64 = 2;

/// The minimum balance of a rent-exempt account with `data_len` bytes of data,
/// under the default rent configuration.
pub uninterp spec fn rent_exempt_minimum(data_len: nat) -> u64;

/// The rent of `data_len` bytes of data and the storage overhead, for the
/// years that an exempt account holds.
pub open spec fn exact_rent(data_len: nat) -> int {
    EXEMPTION_YEARS * ((ACCOUNT_STORAGE_OVERHEAD + data_len) * LAMPORTS_PER_BYTE_YEAR)
}

/// The data lengths whose yearly rent lies below 2^53, where whole numbers
/// are multiplied by the years without rounding.
pub open spec fn rent_exact(data_len: nat) -> bool {
    (ACCOUNT_STORAGE_OVERHEAD + data_len) * LAMPORTS_PER_BYTE_YEAR < 0x20_0000_0000_0000
}

/// The data lengths whose yearly rent fits an unsigned 64-bit integer: for
/// these the minimum balance can be computed.
pub open spec fn rent_computable(data_len: nat) -> bool {
    (ACCOUNT_STORAGE_OVERHEAD + data_len) * LAMPORTS_PER_BYTE_YEAR <= u64::MAX
}

/// Decides whether the minimum balance for `data_len` bytes can be computed.
pub fn can_compute_rent(data_len: usize) -> (ok: bool)
    ensures
        ok == rent_computable(data_len as nat),
{
    data_len as u128 <= (u64::MAX / LAMPORTS_PER_BYTE_YEAR - ACCOUNT_STORAGE_OVERHEAD) as u128
}

/// Calls `solana_program::rent::Rent::minimum_balance` on the default rent.
///
/// Trusted: the result is that function's value on `data_len`. The function
/// multiplies the data length plus the storage overhead by the yearly rate in
/// 64-bit integers, so lengths for which that product overflows are left out.
/// It then multiplies the product by the two years of the default rent in
/// floating point, which is exact while the product lies below 2^53: there
/// the result is twice the product.
#[verifier::external_body]
pub(crate) fn default_minimum_balance(data_len: usize) -> (lamports: u64)
    requires
        rent_computable(data_len as nat),
    ensures
        lamports == rent_exempt_minimum(data_len as nat),
        rent_exact(data_len as nat) ==> lamports == exact_rent(data_len as nat),
{
    solana_program::rent::Rent::default().minimum_balance(data_len)
}

/// The minimum balance that keeps an account with `data_len` bytes of data
/// exempt from rent: for every length that an account can have, the rent of
/// the data and the storage overhead for two years.
pub fn minimum_balance(data_len: usize) -> (lamports: u64)
    requires
        rent_computable(data_len as nat),
    ensures
        lamports == rent_exempt_minimum(data_len as nat),
        rent_exact(data_len as nat) ==> lamports == exact_rent(data_len as nat),
{
    default_minimum_balance(data_len)
}

} // verus!
