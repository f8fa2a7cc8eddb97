//! The write-once boot-time record.
//!
//! The moment the system booted, in seconds, is recorded once during early
//! initialization and read-only for the rest of the process lifetime.  The
//! storage is `conquer_once`'s spin-based one-time cell, the initialization
//! primitive built for exactly this write-once-then-read pattern; its calls
//! are trusted against that crate's documented behaviour, and everything
//! around them is verified.  The cell's blocking-strategy marker type is
//! private to `conquer_once`, so the cell cannot be declared to the
//! verifier by name and is held in an opaque struct instead.

use vstd::prelude::*;

use conquer_once::spin::OnceCell;

verus! {

/// The write-once cell recording when the system booted, in seconds.
#[verifier::external_body]
pub struct BootTimeCell {
    cell: OnceCell<u64>,
}

/// What the one-time cell holds: empty before initialization, one value
/// after.
pub uninterp spec fn recorded_seconds(cell: BootTimeCell) -> Seq<u64>;

/// Relies on `conquer_once`'s `OnceCell::uninit`: a fresh cell holds
/// nothing.
#[verifier::external_body]
fn once_cell_uninit() -> (c: BootTimeCell)
    ensures
        recorded_seconds(c) == Seq::<u64>::empty(),
{
    BootTimeCell { cell: OnceCell::uninit() }
}

/// Relies on `conquer_once`'s `OnceCell::init_once`: on an uninitialized
/// cell the closure runs and its value becomes the cell's one value; on an
/// initialized cell the closure does not run and the cell keeps its value.
/// The closure handed over only returns `value`, so it never panics and
/// cannot poison the cell.
#[verifier::external_body]
fn once_cell_init_once(cell: &mut BootTimeCell, value: u64)
    ensures
        recorded_seconds(*final(cell)) == if recorded_seconds(*old(cell)).len() == 0 {
            seq![value]
        } else {
            recorded_seconds(*old(cell))
        },
{
    cell.cell.init_once(|| value)
}

/// Relies on `conquer_once`'s `OnceCell::get`: `None` on an uninitialized
/// cell, a reference to the one stored value after initialization.  The
/// cell is only ever written through `once_cell_init_once`, whose closure
/// never panics, so the cell cannot be poisoned and the call cannot panic.
#[verifier::external_body]
fn once_cell_get(cell: &BootTimeCell) -> (r: Option<u64>)
    ensures
        recorded_seconds(*cell).len() == 0 ==> r is None,
        recorded_seconds(*cell).len() == 1 ==> r == Some(recorded_seconds(*cell)[0]),
{
    cell.cell.get().copied()
}

impl BootTimeCell {
    /// The recorded value: empty before initialization, one value after.
    pub closed spec fn recorded(self) -> Seq<u64> {
        recorded_seconds(self)
    }

    /// An empty cell, as it is before early initialization runs.
    pub fn new() -> (c: Self)
        ensures
            c.recorded() == Seq::<u64>::empty(),
    {
        once_cell_uninit()
    }
}

/// Record the boot time.  The cell is write-once: recording twice is an
/// initialization-order bug, so a filled cell is excluded.
pub fn init_boot_time(cell: &mut BootTimeCell, seconds: u64)
    requires
        old(cell).recorded().len() == 0,
    ensures
        final(cell).recorded() == seq![seconds],
{
    once_cell_init_once(cell, seconds);
}

/// The recorded boot time in seconds, or `None` before initialization has
/// run.
pub fn boot_time_seconds(cell: &BootTimeCell) -> (r: Option<u64>)
    ensures
        cell.recorded().len() == 0 ==> r is None,
        cell.recorded().len() == 1 ==> r == Some(cell.recorded()[0]),
{
    once_cell_get(cell)
}

} // verus!
