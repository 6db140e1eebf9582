//! Words of memory that the host controller reads and writes too.
//!
//! The descriptors, the queue heads and the frame list are made of
//! [`volatile::Volatile`] words, so that no access to them is optimised away. Everything
//! the library believes about that type without proof stands in this file.

use vstd::prelude::*;
use volatile::Volatile;

verus! {

/// The word type of the `volatile` crate, with nothing said about what is inside.
#[verifier::external_type_specification]
#[verifier::external_body]
#[verifier::reject_recursive_types(T)]
pub struct ExVolatile<T: Copy>(volatile::Volatile<T>);

/// The value that a word holds.
pub uninterp spec fn cell_value(cell: Volatile<u32>) -> u32;

/// `volatile::Volatile::read`: a copy of the value that the word holds.
///
/// The claim is about a word that nobody else writes while the borrow lasts. What the
/// host controller itself stores into a descriptor it works on is not described: to the
/// caller it is a change of the word between two calls.
#[verifier::external_body]
pub(crate) fn read_cell(cell: &Volatile<u32>) -> (value: u32)
    ensures
        value == cell_value(*cell),
{
    cell.read()
}

/// `volatile::Volatile::write`: afterwards the word holds `value`.
///
/// As with reading, what the host controller stores into the word later is not described.
#[verifier::external_body]
pub(crate) fn write_cell(cell: &mut Volatile<u32>, value: u32)
    ensures
        cell_value(*final(cell)) == value,
{
    cell.write(value)
}

} // verus!
