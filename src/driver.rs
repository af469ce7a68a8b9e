//! The flash operations: locking, programming, erasing and status decoding.
//!
//! Each operation is written once against [`FlashRegs`], whichever register
//! alias implements it, and is specified as an exact change of [`HwState`].
use vstd::prelude::*;
use crate::regs::{
    after_cr_write, after_key_write, after_sr_read, after_sr_write, begin_operation,
    current_status, merge_errors, no_errors, BusEvent, ControlReg, ErrorFlags, FlashRegs, HwState,
    StatusReg, KEY1, KEY2,
};
use crate::types::{Error, FlashBank, FlashSector, WRITE_SIZE};

verus! {

/// Decoding of a status value: `Ok(true)` while busy; otherwise the first
/// error flag set in the order sequence, size, alignment, protection,
/// programming; `Ok(false)` when idle without error.
pub open spec fn status_result(s: StatusReg) -> Result<bool, Error> {
    if s.bsy {
        Ok(true)
    } else if s.errors.pgserr {
        Err(Error::Sequence)
    } else if s.errors.sizerr {
        Err(Error::Size)
    } else if s.errors.pgaerr {
        Err(Error::Unaligned)
    } else if s.errors.wrperr {
        Err(Error::Protected)
    } else if s.errors.progerr {
        Err(Error::Prog)
    } else {
        Ok(false)
    }
}

/// The result of an operation that completed with `errors` set.
pub open spec fn idle_result(errors: ErrorFlags) -> Result<(), Error> {
    match status_result(StatusReg { bsy: false, errors }) {
        Ok(_) => Ok(()),
        Err(e) => Err(e),
    }
}

pub open spec fn lock_model(h: HwState) -> HwState {
    after_cr_write(h, ControlReg { lock: true, ..h.cr })
}

pub open spec fn unlock_model(h: HwState) -> HwState {
    if h.cr.lock {
        after_key_write(after_key_write(h, KEY1), KEY2)
    } else {
        h
    }
}

/// Control value with only programming enabled.
pub open spec fn program_mode() -> ControlReg {
    ControlReg { lock: false, pg: true, per: false, pnb: 0, bker: false }
}

/// Control value with every field cleared.
pub open spec fn idle_mode() -> ControlReg {
    ControlReg { lock: false, pg: false, per: false, pnb: 0, bker: false }
}

pub open spec fn clear_all_err_model(h: HwState) -> HwState {
    after_sr_write(after_sr_read(h), current_status(h))
}

/// Sets the lock bit of the control register; nothing else changes.
pub fn lock<R: FlashRegs>(regs: &mut R)
    ensures
        final(regs).hw() == lock_model(old(regs).hw()),
        final(regs).hw().cr == (ControlReg { lock: true, ..old(regs).hw().cr }),
{
    let mut cr = regs.read_cr();
    cr.lock = true;
    regs.write_cr(cr);
}

/// Writes the two key words, in order, if and only if the control register
/// is locked, which releases the lock.
pub fn unlock<R: FlashRegs>(regs: &mut R)
    ensures
        final(regs).hw() == unlock_model(old(regs).hw()),
        !final(regs).hw().cr.lock,
        old(regs).hw().cr.lock ==> final(regs).hw().bus == old(regs).hw().bus.push(
            BusEvent::Key(KEY1),
        ).push(BusEvent::Key(KEY2)),
        old(regs).hw().cr.lock ==> final(regs).hw().cr == (ControlReg { lock: false, ..old(regs).hw().cr }),
{
    if regs.read_cr().lock {
        regs.write_key(KEY1);
        regs.write_key(KEY2);
        proof {
            let h = old(regs).hw();
            let b = h.bus.push(BusEvent::Key(KEY1));
            assert(!crate::regs::ends_with_unlock(b));
            assert(crate::regs::ends_with_unlock(b.push(BusEvent::Key(KEY2))));
        }
    }
}

/// Writes a control value with programming enabled and every other field
/// cleared. The programming unit must be a whole number of words.
pub fn enable_write<R: FlashRegs>(regs: &mut R)
    requires
        WRITE_SIZE % 4 == 0,
    ensures
        final(regs).hw() == after_cr_write(old(regs).hw(), program_mode()),
        !old(regs).hw().cr.lock ==> final(regs).hw().cr == program_mode(),
{
    regs.write_cr(ControlReg { lock: false, pg: true, per: false, pnb: 0, bker: false });
}

/// Writes a control value with programming disabled and every other field
/// cleared.
pub fn disable_write<R: FlashRegs>(regs: &mut R)
    ensures
        final(regs).hw() == after_cr_write(old(regs).hw(), idle_mode()),
        !old(regs).hw().cr.lock ==> final(regs).hw().cr == idle_mode(),
{
    regs.write_cr(ControlReg { lock: false, pg: false, per: false, pnb: 0, bker: false });
}

/// Reads the status register once and decodes it.
pub fn status<R: FlashRegs>(regs: &mut R) -> (r: Result<bool, Error>)
    ensures
        r == status_result(current_status(old(regs).hw())),
        final(regs).hw() == after_sr_read(old(regs).hw()),
{
    let sr = regs.read_sr();
    if sr.bsy {
        Ok(true)
    } else if sr.errors.pgserr {
        Err(Error::Sequence)
    } else if sr.errors.sizerr {
        Err(Error::Size)
    } else if sr.errors.pgaerr {
        Err(Error::Unaligned)
    } else if sr.errors.wrperr {
        Err(Error::Protected)
    } else if sr.errors.progerr {
        Err(Error::Prog)
    } else {
        Ok(false)
    }
}

/// Writes the status register back with the value just read, which clears
/// every sticky error flag.
pub fn clear_all_err<R: FlashRegs>(regs: &mut R)
    ensures
        final(regs).hw() == clear_all_err_model(old(regs).hw()),
        final(regs).hw().errors == no_errors(),
{
    let sr = regs.read_sr();
    regs.write_sr(sr);
}

/// Control value that selects `sector` for erase, keeping the other fields
/// of `cr`.
pub open spec fn erase_mode(cr: ControlReg, sector: FlashSector) -> ControlReg {
    ControlReg { per: true, pnb: sector.index_in_bank, bker: sector.bank == FlashBank::Bank2, ..cr }
}

pub open spec fn begin_erase_model(h: HwState, sector: FlashSector) -> HwState {
    begin_operation(after_cr_write(h, erase_mode(h.cr, sector)), BusEvent::Start)
}

/// Cleanup once an erase is no longer busy: erase disabled, errors
/// cleared, lock set.
pub open spec fn end_erase_cleanup(h: HwState) -> HwState {
    let h1 = after_sr_read(h);
    lock_model(clear_all_err_model(after_cr_write(h1, ControlReg { per: false, ..h1.cr })))
}

pub open spec fn end_erase_model(h: HwState) -> HwState {
    if h.busy > 0 {
        after_sr_read(h)
    } else {
        end_erase_cleanup(h)
    }
}

/// Result of `end_erase` and `complete_operation`.
pub open spec fn finish_result(h: HwState) -> Result<(), Error> {
    if h.busy > 0 {
        Err(Error::Busy)
    } else {
        idle_result(h.errors)
    }
}

pub open spec fn complete_cleanup(h: HwState) -> HwState {
    let h2 = clear_all_err_model(after_sr_read(h));
    lock_model(
        if h2.cr.pg {
            after_cr_write(h2, idle_mode())
        } else {
            after_cr_write(h2, ControlReg { per: false, ..h2.cr })
        },
    )
}

pub open spec fn complete_operation_model(h: HwState) -> HwState {
    if h.busy > 0 {
        after_sr_read(h)
    } else {
        complete_cleanup(h)
    }
}

/// The values read while waiting: busy `h.busy` times, then idle.
pub open spec fn wait_reads(h: HwState) -> Seq<StatusReg> {
    Seq::new((h.busy + 1) as nat, |i: int| StatusReg { bsy: i < h.busy, errors: h.errors })
}

pub open spec fn wait_model(h: HwState) -> HwState {
    HwState { busy: 0, reads: h.reads + wait_reads(h), ..h }
}

/// Selects the sector's bank and index with erase enabled in one control
/// write, then sets the start bit in a second one. A sector outside the two
/// main banks is refused before any register is touched.
pub fn begin_erase_sector<R: FlashRegs>(regs: &mut R, sector: &FlashSector) -> (r: Result<(), Error>)
    ensures
        sector.bank == FlashBank::Otp ==> r == Err::<(), Error>(Error::UnsupportedBank) && final(regs).hw() == old(regs).hw(),
        sector.bank != FlashBank::Otp ==> r == Ok::<(), Error>(()) && final(regs).hw() == begin_erase_model(old(regs).hw(), *sector),
        sector.bank != FlashBank::Otp ==> final(regs).hw().bus == old(regs).hw().bus.push(
            BusEvent::Control(erase_mode(old(regs).hw().cr, *sector)),
        ).push(BusEvent::Start),
        sector.bank != FlashBank::Otp && !old(regs).hw().cr.lock ==> final(regs).hw().cr == erase_mode(old(regs).hw().cr, *sector),
{
    let bker = match sector.bank {
        FlashBank::Bank1 => false,
        FlashBank::Bank2 => true,
        FlashBank::Otp => {
            return Err(Error::UnsupportedBank);
        },
    };
    let mut cr = regs.read_cr();
    cr.per = true;
    cr.pnb = sector.index_in_bank;
    cr.bker = bker;
    regs.write_cr(cr);
    regs.start();
    Ok(())
}

/// Finishes an erase. While the controller is still busy this reports
/// `Busy` after the one status read, and changes nothing else; otherwise it
/// disables erase, clears the error flags, locks, and reports the decoded
/// status.
pub fn end_erase<R: FlashRegs>(regs: &mut R) -> (r: Result<(), Error>)
    ensures
        r == finish_result(old(regs).hw()),
        final(regs).hw() == end_erase_model(old(regs).hw()),
        old(regs).hw().busy > 0 ==> final(regs).hw().cr == old(regs).hw().cr && final(regs).hw().bus == old(regs).hw().bus,
        old(regs).hw().busy == 0 ==> final(regs).hw().cr.lock && final(regs).hw().errors == no_errors(),
        old(regs).hw().busy == 0 && !old(regs).hw().cr.lock ==> !final(regs).hw().cr.per,
{
    let result = status(regs);
    match result {
        Ok(true) => {
            return Err(Error::Busy);
        },
        _ => {},
    }
    let mut cr = regs.read_cr();
    cr.per = false;
    regs.write_cr(cr);
    clear_all_err(regs);
    lock(regs);
    match result {
        Ok(_) => Ok(()),
        Err(e) => Err(e),
    }
}

/// Finishes a program or an erase. While the controller is still busy this
/// reports `Busy` after the one status read; otherwise it clears the error
/// flags, disables whichever mode was enabled, locks, and reports the
/// decoded status.
pub fn complete_operation<R: FlashRegs>(regs: &mut R) -> (r: Result<(), Error>)
    ensures
        r == finish_result(old(regs).hw()),
        final(regs).hw() == complete_operation_model(old(regs).hw()),
        old(regs).hw().busy > 0 ==> final(regs).hw().cr == old(regs).hw().cr && final(regs).hw().bus == old(regs).hw().bus,
        old(regs).hw().busy == 0 ==> final(regs).hw().cr.lock && final(regs).hw().errors == no_errors(),
        old(regs).hw().busy == 0 && !old(regs).hw().cr.lock ==> !final(regs).hw().cr.pg && !final(regs).hw().cr.per,
{
    let result = status(regs);
    match result {
        Ok(true) => {
            return Err(Error::Busy);
        },
        _ => {},
    }
    clear_all_err(regs);
    let cr = regs.read_cr();
    if cr.pg {
        disable_write(regs);
    } else {
        let mut off = cr;
        off.per = false;
        regs.write_cr(off);
    }
    lock(regs);
    match result {
        Ok(_) => Ok(()),
        Err(e) => Err(e),
    }
}

/// Polls the status register until it no longer reports busy, and reports
/// the decoded status of that last read.
pub fn blocking_wait_ready<R: FlashRegs>(regs: &mut R) -> (r: Result<(), Error>)
    ensures
        r == idle_result(old(regs).hw().errors),
        final(regs).hw() == wait_model(old(regs).hw()),
{
    let ghost h0 = regs.hw();
    loop
        invariant
            h0 == old(regs).hw(),
            regs.hw().busy <= h0.busy,
            regs.hw() == (HwState {
                busy: regs.hw().busy,
                reads: h0.reads + wait_reads(h0).take(h0.busy - regs.hw().busy),
                ..h0
            }),
        decreases regs.hw().busy,
    {
        let ghost before = regs.hw();
        let res = status(regs);
        proof {
            let k = h0.busy - before.busy;
            assert(wait_reads(h0).take(k + 1) =~= wait_reads(h0).take(k).push(current_status(before)));
            assert(regs.hw().reads =~= h0.reads + wait_reads(h0).take(k + 1));
            if before.busy == 0 {
                assert(wait_reads(h0).take(k + 1) =~= wait_reads(h0));
                assert(regs.hw() == wait_model(h0));
            }
        }
        match res {
            Ok(true) => {},
            Ok(false) => {
                return Ok(());
            },
            Err(e) => {
                return Err(e);
            },
        }
    }
}

/// Starts erasing `sector`, waits until the controller is idle, then
/// finishes the erase and reports its result.
pub fn blocking_erase_sector<R: FlashRegs>(regs: &mut R, sector: &FlashSector) -> (r: Result<(), Error>)
    ensures
        sector.bank == FlashBank::Otp ==> r == Err::<(), Error>(Error::UnsupportedBank) && final(regs).hw() == old(regs).hw(),
        sector.bank != FlashBank::Otp ==> r == idle_result(merge_errors(old(regs).hw().errors, old(regs).hw().outcome))
            && final(regs).hw() == end_erase_cleanup(wait_model(begin_erase_model(old(regs).hw(), *sector))),
        final(regs).hw().cr.lock || sector.bank == FlashBank::Otp,
        !old(regs).hw().cr.lock && sector.bank != FlashBank::Otp ==> !final(regs).hw().cr.per,
{
    begin_erase_sector(regs, sector)?;
    let _ = blocking_wait_ready(regs);
    end_erase(regs)
}

/// The little-endian word held by `bytes[k..k + 4]`.
pub open spec fn le_word(bytes: Seq<u8>, k: int) -> u32 {
    (bytes[k] as int + 256 * bytes[k + 1] as int + 65536 * bytes[k + 2] as int + 16777216
        * bytes[k + 3] as int) as u32
}

/// The writes that program `bytes` from `start`: each word at its address,
/// followed by a barrier.
pub open spec fn program_events(start: u32, bytes: Seq<u8>) -> Seq<BusEvent> {
    Seq::new(
        (bytes.len() / 4 * 2) as nat,
        |i: int|
            if i % 2 == 0 {
                BusEvent::Word((start + 4 * (i / 2)) as u32, le_word(bytes, 4 * (i / 2)))
            } else {
                BusEvent::Fence
            },
    )
}

/// State after programming `bytes` (at least one word) from `start`.
pub open spec fn write_model(h: HwState, start: u32, bytes: Seq<u8>) -> HwState {
    HwState {
        busy: h.latency,
        errors: merge_errors(h.errors, h.outcome),
        bus: h.bus + program_events(start, bytes),
        ..h
    }
}

fn word_from_le(b0: u8, b1: u8, b2: u8, b3: u8) -> (r: u32)
    ensures
        r as int == b0 as int + 256 * b1 as int + 65536 * b2 as int + 16777216 * b3 as int,
{
    b0 as u32 + 256 * (b1 as u32) + 65536 * (b2 as u32) + 16777216 * (b3 as u32)
}

/// Programs `buf` as little-endian words at consecutive addresses from
/// `start_address`, with a full memory barrier after each word. The caller
/// guarantees that the range lies in erased flash and that programming is
/// enabled; the words' addresses must fit in 32 bits.
pub fn write<R: FlashRegs>(regs: &mut R, start_address: u32, buf: &[u8; WRITE_SIZE]) -> (r: Result<(), Error>)
    requires
        start_address + WRITE_SIZE <= 0x1_0000_0000,
    ensures
        r == Ok::<(), Error>(()),
        final(regs).hw() == write_model(old(regs).hw(), start_address, buf@),
{
    let ghost h0 = regs.hw();
    let ghost events = program_events(start_address, buf@);
    let mut k: usize = 0;
    while k < WRITE_SIZE / 4
        invariant
            k <= WRITE_SIZE / 4,
            buf@.len() == WRITE_SIZE,
            events == program_events(start_address, buf@),
            start_address + WRITE_SIZE <= 0x1_0000_0000,
            regs.hw() == (HwState {
                busy: if k == 0 { h0.busy } else { h0.latency },
                errors: if k == 0 { h0.errors } else { merge_errors(h0.errors, h0.outcome) },
                bus: h0.bus + events.take(2 * k),
                ..h0
            }),
        decreases WRITE_SIZE / 4 - k,
    {
        let i = 4 * k;
        let word = word_from_le(buf[i], buf[i + 1], buf[i + 2], buf[i + 3]);
        let addr = start_address + i as u32;
        regs.write_word(addr, word);
        regs.fence();
        proof {
            let j = 2 * k as int;
            assert(j % 2 == 0 && j / 2 == k);
            assert((j + 1) % 2 == 1);
            assert(events[j] == BusEvent::Word(addr, word));
            assert(events[j + 1] == BusEvent::Fence);
            assert(events.take(j + 2) =~= events.take(j).push(events[j]).push(events[j + 1]));
            assert(merge_errors(merge_errors(h0.errors, h0.outcome), h0.outcome) == merge_errors(h0.errors, h0.outcome));
        }
        k = k + 1;
    }
    assert(events.take(2 * k) =~= events);
    Ok(())
}

/// Programs `buf` from `start_address`, then polls until the controller is
/// idle and reports the decoded status.
pub fn blocking_write<R: FlashRegs>(regs: &mut R, start_address: u32, buf: &[u8; WRITE_SIZE]) -> (r: Result<(), Error>)
    requires
        start_address + WRITE_SIZE <= 0x1_0000_0000,
    ensures
        r == idle_result(merge_errors(old(regs).hw().errors, old(regs).hw().outcome)),
        final(regs).hw() == wait_model(write_model(old(regs).hw(), start_address, buf@)),
        final(regs).hw().reads.len() == old(regs).hw().reads.len() + old(regs).hw().latency + 1,
{
    write(regs, start_address, buf)?;
    blocking_wait_ready(regs)
}

} // verus!
