//! The set-once cells of the `once_cell` crate, as this library uses them.
//!
//! Each cell is modelled by a sequence that is empty while the cell is
//! unset and holds the stored value once it is set.  Every operation goes
//! through an exclusive borrow, so the model of a cell changes only where a
//! contract below says so.

use once_cell::sync::OnceCell;
use std::path::PathBuf;
use vstd::prelude::*;

verus! {

#[verifier::external_type_specification]
#[verifier::external_body]
pub struct ExPathBuf(PathBuf);

#[verifier::external_type_specification]
#[verifier::external_body]
#[verifier::reject_recursive_types(T)]
pub struct ExOnceCell<T>(OnceCell<T>);

/// What a cell that stores a library file name holds: nothing while it is
/// unset, the stored name once it is set.
pub uninterp spec fn name_cell_contents(cell: OnceCell<String>) -> Seq<Seq<char>>;

/// What a cell that stores a list of search directories holds: nothing while
/// it is unset, the stored list once it is set.
pub uninterp spec fn paths_cell_contents(cell: OnceCell<Vec<PathBuf>>) -> Seq<Seq<PathBuf>>;

/// `OnceCell::<String>::new`: the new cell is unset.
#[verifier::external_body]
pub(crate) fn name_cell_new() -> (r: OnceCell<String>)
    ensures
        name_cell_contents(r) == Seq::<Seq<char>>::empty(),
{
    OnceCell::new()
}

/// `OnceCell::<String>::set`: an unset cell takes the value and answers
/// `Ok(())`; a set cell keeps what it holds and hands the value back in `Err`.
#[verifier::external_body]
pub(crate) fn name_cell_set(cell: &mut OnceCell<String>, value: String) -> (r: Result<(), String>)
    ensures
        name_cell_contents(*old(cell)).len() == 0 ==> {
            &&& r is Ok
            &&& name_cell_contents(*final(cell)) == seq![value@]
        },
        name_cell_contents(*old(cell)).len() > 0 ==> {
            &&& r matches Err(v) && v@ == value@
            &&& name_cell_contents(*final(cell)) == name_cell_contents(*old(cell))
        },
{
    cell.set(value)
}

/// `OnceCell::<String>::get`: `None` while the cell is unset, else the
/// stored value.
#[verifier::external_body]
pub(crate) fn name_cell_get(cell: &OnceCell<String>) -> (r: Option<&String>)
    ensures
        r is None <==> name_cell_contents(*cell).len() == 0,
        r matches Some(v) ==> v@ == name_cell_contents(*cell)[0],
{
    cell.get()
}

/// `OnceCell::<Vec<PathBuf>>::new`: the new cell is unset.
#[verifier::external_body]
pub(crate) fn paths_cell_new() -> (r: OnceCell<Vec<PathBuf>>)
    ensures
        paths_cell_contents(r) == Seq::<Seq<PathBuf>>::empty(),
{
    OnceCell::new()
}

/// `OnceCell::<Vec<PathBuf>>::set`: an unset cell takes the value and
/// answers `Ok(())`; a set cell keeps what it holds and hands the value back
/// in `Err`.
#[verifier::external_body]
pub(crate) fn paths_cell_set(cell: &mut OnceCell<Vec<PathBuf>>, value: Vec<PathBuf>) -> (r: Result<(), Vec<PathBuf>>)
    ensures
        paths_cell_contents(*old(cell)).len() == 0 ==> {
            &&& r is Ok
            &&& paths_cell_contents(*final(cell)) == seq![value@]
        },
        paths_cell_contents(*old(cell)).len() > 0 ==> {
            &&& r matches Err(v) && v@ == value@
            &&& paths_cell_contents(*final(cell)) == paths_cell_contents(*old(cell))
        },
{
    cell.set(value)
}

/// `OnceCell::<Vec<PathBuf>>::get`: `None` while the cell is unset, else the
/// stored value.
#[verifier::external_body]
pub(crate) fn paths_cell_get(cell: &OnceCell<Vec<PathBuf>>) -> (r: Option<&Vec<PathBuf>>)
    ensures
        r is None <==> paths_cell_contents(*cell).len() == 0,
        r matches Some(v) ==> v@ == paths_cell_contents(*cell)[0],
{
    cell.get()
}

} // verus!
