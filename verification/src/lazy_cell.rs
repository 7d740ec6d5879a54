//! The lazily initialised cell of `lazyinit`, as the interrupt code uses it:
//! a slot that is written once and read after.

use lazyinit::LazyInit;
use vstd::prelude::*;

verus! {

#[verifier::external_type_specification]
#[verifier::external_body]
#[verifier::reject_recursive_types(T)]
pub struct ExLazyInit<T>(LazyInit<T>);

/// What a `LazyInit<usize>` holds: the empty sequence while it is
/// uninitialised, the one stored value after `init_once`.
pub uninterp spec fn lazy_slot(cell: LazyInit<usize>) -> Seq<usize>;

/// `LazyInit::new`: a new cell holds nothing.
#[verifier::external_body]
pub(crate) fn lazy_new() -> (cell: LazyInit<usize>)
    ensures
        lazy_slot(cell) == Seq::<usize>::empty(),
{
    LazyInit::new()
}

/// `LazyInit::is_inited`: whether the cell holds a value. The library owns
/// its cells and hands them out by `&mut` only, so no initialisation by
/// another thread can be under way while this is read.
#[verifier::external_body]
pub(crate) fn lazy_is_inited(cell: &LazyInit<usize>) -> (inited: bool)
    ensures
        inited == (lazy_slot(*cell).len() > 0),
{
    cell.is_inited()
}

/// `LazyInit::init_once`: stores `data` in an empty cell. It panics on a
/// cell that already holds a value, which `requires` leaves out.
#[verifier::external_body]
pub(crate) fn lazy_init_once(cell: &mut LazyInit<usize>, data: usize)
    requires
        lazy_slot(*old(cell)).len() == 0,
    ensures
        lazy_slot(*final(cell)) == seq![data],
{
    cell.init_once(data);
}

/// `Deref` of `LazyInit`: the stored value. It panics on an empty cell,
/// which `requires` leaves out.
#[verifier::external_body]
pub(crate) fn lazy_deref(cell: &LazyInit<usize>) -> (value: usize)
    requires
        lazy_slot(*cell).len() > 0,
    ensures
        value == lazy_slot(*cell)[0],
{
    **cell
}

} // verus!
