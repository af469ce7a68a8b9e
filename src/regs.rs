//! The controller's registers as the driver sees them, and the interface
//! through which it reaches them.
//!
//! The register file is modelled by [`HwState`]. Timing and failures of the
//! hardware are part of that state: `latency` is the number of status reads
//! for which a started operation reports busy, and `outcome` holds the error
//! flags it raises when done.
use vstd::prelude::*;

verus! {

/// First word of the unlock sequence.
pub const KEY1: u32 = 0x4567_0123;

/// Second word of the unlock sequence.
pub const KEY2: u32 = 0xCDEF_89AB;

/// Which register alias of the controller is bound.
#[derive(Clone, Copy, Debug, PartialEq, Eq, Structural)]
pub enum Alias {
    Secure,
    NonSecure,
}

/// The fields of the control register that the driver uses.
#[derive(Clone, Copy, Debug, PartialEq, Eq, Structural)]
pub struct ControlReg {
    /// Write protection of the control register itself.
    pub lock: bool,
    /// Programming enabled.
    pub pg: bool,
    /// Sector erase enabled.
    pub per: bool,
    /// Sector number to erase, within its bank.
    pub pnb: u8,
    /// Bank to erase in: `false` for the first, `true` for the second.
    pub bker: bool,
}

/// The sticky error flags of the status register.
#[derive(Clone, Copy, Debug, PartialEq, Eq, Structural)]
pub struct ErrorFlags {
    /// Programming sequence error.
    pub pgserr: bool,
    /// Size error.
    pub sizerr: bool,
    /// Alignment error.
    pub pgaerr: bool,
    /// Write protection error.
    pub wrperr: bool,
    /// Programming error.
    pub progerr: bool,
}

/// A value of the status register.
#[derive(Clone, Copy, Debug, PartialEq, Eq, Structural)]
pub struct StatusReg {
    pub bsy: bool,
    pub errors: ErrorFlags,
}

/// A write that reaches the controller or the flash array.
#[derive(Clone, Copy, Debug, PartialEq, Eq, Structural)]
pub enum BusEvent {
    /// A word written to the key register.
    Key(u32),
    /// A value written to the control register.
    Control(ControlReg),
    /// The start bit set in the control register.
    Start,
    /// A value written back to the status register.
    Status(StatusReg),
    /// A word programmed at an address.
    Word(u32, u32),
    /// A full memory barrier.
    Fence,
}

/// Abstract state of the controller.
pub struct HwState {
    pub cr: ControlReg,
    /// Status reads that will still report busy.
    pub busy: nat,
    /// Sticky error flags currently set.
    pub errors: ErrorFlags,
    /// Status reads for which each started operation reports busy.
    pub latency: nat,
    /// Error flags that each started operation raises.
    pub outcome: ErrorFlags,
    /// Every write received, in order.
    pub bus: Seq<BusEvent>,
    /// Every status value read, in order.
    pub reads: Seq<StatusReg>,
}

pub open spec fn no_errors() -> ErrorFlags {
    ErrorFlags { pgserr: false, sizerr: false, pgaerr: false, wrperr: false, progerr: false }
}

pub open spec fn merge_errors(a: ErrorFlags, b: ErrorFlags) -> ErrorFlags {
    ErrorFlags {
        pgserr: a.pgserr || b.pgserr,
        sizerr: a.sizerr || b.sizerr,
        pgaerr: a.pgaerr || b.pgaerr,
        wrperr: a.wrperr || b.wrperr,
        progerr: a.progerr || b.progerr,
    }
}

/// Write-one-to-clear: each flag set in `w` is cleared in `a`.
pub open spec fn clear_errors(a: ErrorFlags, w: ErrorFlags) -> ErrorFlags {
    ErrorFlags {
        pgserr: a.pgserr && !w.pgserr,
        sizerr: a.sizerr && !w.sizerr,
        pgaerr: a.pgaerr && !w.pgaerr,
        wrperr: a.wrperr && !w.wrperr,
        progerr: a.progerr && !w.progerr,
    }
}

/// The value a read of the status register returns in state `h`.
pub open spec fn current_status(h: HwState) -> StatusReg {
    StatusReg { bsy: h.busy > 0, errors: h.errors }
}

/// A control register write; a locked register ignores it.
pub open spec fn after_cr_write(h: HwState, v: ControlReg) -> HwState {
    HwState {
        cr: if h.cr.lock { h.cr } else { v },
        bus: h.bus.push(BusEvent::Control(v)),
        ..h
    }
}

/// Whether `bus` ends with the two words of the unlock sequence.
pub open spec fn ends_with_unlock(bus: Seq<BusEvent>) -> bool {
    bus.len() >= 2 && bus[bus.len() - 2] == BusEvent::Key(KEY1) && bus.last() == BusEvent::Key(KEY2)
}

/// A key register write; the second word of the sequence releases the lock.
pub open spec fn after_key_write(h: HwState, k: u32) -> HwState {
    let bus = h.bus.push(BusEvent::Key(k));
    HwState {
        cr: if ends_with_unlock(bus) { ControlReg { lock: false, ..h.cr } } else { h.cr },
        bus,
        ..h
    }
}

/// An operation begins: busy for `latency` reads, then its flags are set.
pub open spec fn begin_operation(h: HwState, e: BusEvent) -> HwState {
    HwState {
        busy: h.latency,
        errors: merge_errors(h.errors, h.outcome),
        bus: h.bus.push(e),
        ..h
    }
}

/// A read of the status register.
pub open spec fn after_sr_read(h: HwState) -> HwState {
    HwState {
        busy: if h.busy > 0 { (h.busy - 1) as nat } else { 0 },
        reads: h.reads.push(current_status(h)),
        ..h
    }
}

/// A write to the status register.
pub open spec fn after_sr_write(h: HwState, v: StatusReg) -> HwState {
    HwState { errors: clear_errors(h.errors, v.errors), bus: h.bus.push(BusEvent::Status(v)), ..h }
}

/// A memory barrier: ordered after every earlier write.
pub open spec fn after_fence(h: HwState) -> HwState {
    HwState { bus: h.bus.push(BusEvent::Fence), ..h }
}

/// Access to the control, key and status registers of one register alias,
/// and to the flash array.
pub trait FlashRegs {
    /// Abstract state of the controller.
    spec fn hw(&self) -> HwState;

    fn read_cr(&self) -> (r: ControlReg)
        ensures
            r == self.hw().cr,
    ;

    fn write_cr(&mut self, v: ControlReg)
        ensures
            final(self).hw() == after_cr_write(old(self).hw(), v),
    ;

    fn write_key(&mut self, k: u32)
        ensures
            final(self).hw() == after_key_write(old(self).hw(), k),
    ;

    /// Sets the start bit of the control register.
    fn start(&mut self)
        ensures
            final(self).hw() == begin_operation(old(self).hw(), BusEvent::Start),
    ;

    fn read_sr(&mut self) -> (r: StatusReg)
        ensures
            r == current_status(old(self).hw()),
            final(self).hw() == after_sr_read(old(self).hw()),
    ;

    fn write_sr(&mut self, v: StatusReg)
        ensures
            final(self).hw() == after_sr_write(old(self).hw(), v),
    ;

    /// Programs one word of flash at `addr`.
    fn write_word(&mut self, addr: u32, word: u32)
        ensures
            final(self).hw() == begin_operation(old(self).hw(), BusEvent::Word(addr, word)),
    ;

    /// Issues a sequentially consistent memory barrier.
    fn fence(&mut self)
        ensures
            final(self).hw() == after_fence(old(self).hw()),
    ;
}

} // verus!
