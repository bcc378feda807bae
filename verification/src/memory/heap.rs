use vstd::prelude::*;

verus! {

/// Moves `obj` into a fresh heap cell and hands out the owning handle.
pub fn malloc<T>(obj: T) -> (cell: Box<T>)
    ensures
        *cell == obj,
{
    Box::new(obj)
}

/// `std::mem::forget`: takes the value without running its destructor.
#[verifier::external_body]
fn forget<T>(value: T) {
    std::mem::forget(value);
}

/// Returns the memory of a heap cell obtained from `malloc`. The value it
/// held is not dropped: its destructor does not run.
pub fn free<T>(cell: Box<T>) {
    let value: T = *cell;
    forget(value);
}

/// Gives mutable access to the value held in a heap cell; what is written
/// through the reference is what the cell holds afterwards.
pub fn deref<T>(cell: &mut Box<T>) -> (r: &mut T)
    ensures
        *r == **old(cell),
        **final(cell) == *final(r),
{
    &mut **cell
}

} // verus!
