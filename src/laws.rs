//! Properties that relate the driver's operations to each other, proved
//! over their models.
use vstd::prelude::*;
use crate::driver::{
    begin_erase_model, complete_operation_model, end_erase_cleanup, finish_result, idle_mode,
    idle_result, lock_model, status_result, unlock_model, wait_model,
};
use crate::regs::{
    current_status, merge_errors, no_errors, BusEvent, ControlReg, ErrorFlags, HwState, StatusReg,
    KEY1, KEY2,
};
use crate::types::{Error, FlashBank, FlashSector};

verus! {

/// Position of an error in the decoding order; -1 for errors that no
/// status flag reports.
pub open spec fn error_rank(e: Error) -> int {
    match e {
        Error::Sequence => 0,
        Error::Size => 1,
        Error::Unaligned => 2,
        Error::Protected => 3,
        Error::Prog => 4,
        _ => -1,
    }
}

/// The flag of rank `k` in the decoding order.
pub open spec fn flag_at(f: ErrorFlags, k: int) -> bool {
    if k == 0 {
        f.pgserr
    } else if k == 1 {
        f.sizerr
    } else if k == 2 {
        f.pgaerr
    } else if k == 3 {
        f.wrperr
    } else if k == 4 {
        f.progerr
    } else {
        false
    }
}

/// Unlocking a locked controller and locking it again restores its control
/// register; the unlock writes the two keys and the lock writes no key,
/// only one control value.
pub proof fn unlock_then_lock(h: HwState)
    requires
        h.cr.lock,
    ensures
        unlock_model(h).bus == h.bus.push(BusEvent::Key(KEY1)).push(BusEvent::Key(KEY2)),
        lock_model(unlock_model(h)).cr == h.cr,
        lock_model(unlock_model(h)).bus == unlock_model(h).bus.push(BusEvent::Control(h.cr)),
{
    let b = h.bus.push(BusEvent::Key(KEY1));
    assert(!crate::regs::ends_with_unlock(b));
    assert(crate::regs::ends_with_unlock(b.push(BusEvent::Key(KEY2))));
}

/// A second unlock changes nothing: the key words are written at most once.
pub proof fn unlock_idempotent(h: HwState)
    ensures
        unlock_model(unlock_model(h)) == unlock_model(h),
        !unlock_model(h).cr.lock,
{
    let b = h.bus.push(BusEvent::Key(KEY1));
    assert(!crate::regs::ends_with_unlock(b));
    assert(crate::regs::ends_with_unlock(b.push(BusEvent::Key(KEY2))));
}

/// When the controller is idle, the reported error is the one of lowest
/// rank among the flags set; no error is reported only when no flag is
/// set; and the report does not depend on the order in which flags were
/// raised.
pub proof fn status_priority(e: ErrorFlags, a: ErrorFlags, b: ErrorFlags)
    ensures
        ({
            let r = status_result(StatusReg { bsy: false, errors: e });
            &&& r matches Err(x) ==> 0 <= error_rank(x) && flag_at(e, error_rank(x)) && forall|k: int|
                0 <= k < error_rank(x) ==> !flag_at(e, k)
            &&& r == Ok::<bool, Error>(false) <==> forall|k: int| 0 <= k < 5 ==> !flag_at(e, k)
            &&& r != Ok::<bool, Error>(true)
        }),
        status_result(StatusReg { bsy: false, errors: merge_errors(merge_errors(e, a), b) })
            == status_result(StatusReg { bsy: false, errors: merge_errors(merge_errors(e, b), a) }),
        status_result(StatusReg { bsy: true, errors: e }) == Ok::<bool, Error>(true),
{
    if !e.pgserr && !e.sizerr && !e.pgaerr && !e.wrperr && !e.progerr {
        assert forall|k: int| 0 <= k < 5 implies !flag_at(e, k) by {}
    } else {
        assert(!(forall|k: int| 0 <= k < 5 ==> !flag_at(e, k))) by {
            if e.pgserr {
                assert(flag_at(e, 0));
            } else if e.sizerr {
                assert(flag_at(e, 1));
            } else if e.pgaerr {
                assert(flag_at(e, 2));
            } else if e.wrperr {
                assert(flag_at(e, 3));
            } else {
                assert(flag_at(e, 4));
            }
        }
    }
}

/// Waiting reads the status register once for each busy report and once
/// more for the idle one, and only the last value read is idle.
pub proof fn wait_reads_busy_then_idle(h: HwState)
    ensures
        wait_model(h).reads.len() == h.reads.len() + h.busy + 1,
        forall|i: int| h.reads.len() <= i < h.reads.len() + h.busy ==> wait_model(h).reads[i].bsy,
        !wait_model(h).reads.last().bsy,
        wait_model(h).busy == 0,
{
}

/// An erase whose operation raises a protection error, and no error of
/// lower rank, reports `Protected` and leaves the controller locked with
/// erase disabled.
pub proof fn erase_protection_error(h: HwState, sector: FlashSector)
    requires
        !h.cr.lock,
        sector.bank != FlashBank::Otp,
        h.errors == no_errors(),
        h.outcome.wrperr,
        !h.outcome.pgserr && !h.outcome.sizerr && !h.outcome.pgaerr,
    ensures
        idle_result(merge_errors(h.errors, h.outcome)) == Err::<(), Error>(Error::Protected),
        end_erase_cleanup(wait_model(begin_erase_model(h, sector))).cr.lock,
        !end_erase_cleanup(wait_model(begin_erase_model(h, sector))).cr.per,
        end_erase_cleanup(wait_model(begin_erase_model(h, sector))).errors == no_errors(),
{
}

/// Completing an idle program operation without error succeeds, disables
/// programming through the cleared control value, and locks.
pub proof fn complete_program_operation(h: HwState)
    requires
        h.busy == 0,
        !h.cr.lock,
        h.cr.pg,
        h.errors == no_errors(),
    ensures
        finish_result(h) == Ok::<(), Error>(()),
        complete_operation_model(h).cr == (ControlReg { lock: true, ..idle_mode() }),
        complete_operation_model(h).bus == h.bus.push(BusEvent::Status(current_status(h))).push(
            BusEvent::Control(idle_mode()),
        ).push(BusEvent::Control(ControlReg { lock: true, ..idle_mode() })),
{
}

} // verus!
