use vstd::prelude::*;

verus! {

/// Canned task id returned by `tk_cre_tsk`.
pub const CANNED_TASK_ID: i32 = 1;

/// Canned success status returned by `tk_sta_tsk` and `tk_slp_tsk`.
pub const CANNED_OK: i32 = 0;

/// Task-creation packet of the placeholder real-time-kernel API. The entry
/// point and the extra-information pointer of the classic task ABI are
/// carried as opaque machine words; nothing ever dereferences or calls
/// them.
#[allow(non_camel_case_types)]
pub struct T_CTSK {
    pub task: usize,
    pub stksz: u32,
    pub itskpri: u32,
    pub exinf: usize,
}

/// Placeholder task creation: an ABI surface only. It touches no state and
/// returns the fixed task id whatever the packet holds; in particular it
/// never reaches the real dispatcher.
pub fn tk_cre_tsk(_p: &T_CTSK) -> (r: i32)
    ensures
        r == CANNED_TASK_ID,
{
    CANNED_TASK_ID
}

/// Placeholder task start: touches no state and returns the fixed success
/// status whatever the arguments are.
pub fn tk_sta_tsk(_id: i32, _st: i32) -> (r: i32)
    ensures
        r == CANNED_OK,
{
    CANNED_OK
}

/// Placeholder voluntary suspend: touches no state and returns the fixed
/// success status whatever the timeout is.
pub fn tk_slp_tsk(_t: i32) -> (r: i32)
    ensures
        r == CANNED_OK,
{
    CANNED_OK
}

} // verus!
