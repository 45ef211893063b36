//! A hardware-observed memory cell, through the `volatile` crate: reads and
//! writes that the compiler may neither reorder nor elide.

use vstd::prelude::*;
use volatile::Volatile;

verus! {

/// `volatile::Volatile`, a cell whose reads and writes are volatile.
#[verifier::external_type_specification]
#[verifier::external_body]
#[verifier::reject_recursive_types(T)]
pub struct ExVolatile<T: Copy>(Volatile<T>);

/// The word that a volatile cell holds.
pub uninterp spec fn held(v: Volatile<u16>) -> u16;

/// Relies on `Volatile::new`: the new cell holds `value`.
#[verifier::external_body]
pub(crate) fn new_cell(value: u16) -> (r: Volatile<u16>)
    ensures
        held(r) == value,
{
    Volatile::new(value)
}

/// Relies on `Volatile::read`: a volatile read returns the word held.
#[verifier::external_body]
pub(crate) fn read_cell(v: &Volatile<u16>) -> (r: u16)
    ensures
        r == held(*v),
{
    v.read()
}

/// Relies on `Volatile::write`: after a volatile write the cell holds `value`.
#[verifier::external_body]
pub(crate) fn write_cell(v: &mut Volatile<u16>, value: u16)
    ensures
        held(*final(v)) == value,
{
    v.write(value)
}

} // verus!
