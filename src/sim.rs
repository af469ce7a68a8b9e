//! A register file kept in memory, behaving as the controller does.
//!
//! Each started operation reports busy for a configured number of status
//! reads and then raises a configured set of error flags, so every path of
//! the driver can be driven without hardware.
use vstd::prelude::*;
use crate::regs::{
    Alias, BusEvent, ControlReg, ErrorFlags, FlashRegs, HwState, StatusReg, KEY1, KEY2,
};

verus! {

/// An in-memory controller, bound through one of its two aliases.
pub struct SimController {
    alias: Alias,
    cr: ControlReg,
    busy: u32,
    errors: ErrorFlags,
    latency: u32,
    outcome: ErrorFlags,
    bus: Vec<BusEvent>,
    reads: Vec<StatusReg>,
}

impl SimController {
    /// A controller whose control register holds `cr` and whose status
    /// register is idle with `errors` set. Each operation started later is
    /// busy for `latency` status reads and then raises `outcome`.
    pub fn new(alias: Alias, cr: ControlReg, errors: ErrorFlags, latency: u32, outcome: ErrorFlags) -> (r: SimController)
        ensures
            r.alias() == alias,
            r.hw().cr == cr,
            r.hw().busy == 0,
            r.hw().errors == errors,
            r.hw().latency == latency,
            r.hw().outcome == outcome,
            r.hw().bus.len() == 0,
            r.hw().reads.len() == 0,
    {
        SimController { alias, cr, busy: 0, errors, latency, outcome, bus: Vec::new(), reads: Vec::new() }
    }

    pub closed spec fn alias_spec(&self) -> Alias {
        self.alias
    }

    /// The alias through which the controller is reached.
    #[verifier::when_used_as_spec(alias_spec)]
    pub fn alias(&self) -> (r: Alias)
        ensures
            r == self.alias_spec(),
    {
        self.alias
    }

    /// Current value of the control register.
    pub fn control(&self) -> (r: ControlReg)
        ensures
            r == self.hw().cr,
    {
        self.cr
    }

    /// Sticky error flags currently set.
    pub fn errors(&self) -> (r: ErrorFlags)
        ensures
            r == self.hw().errors,
    {
        self.errors
    }

    /// Status reads that will still report busy.
    pub fn busy_reads_left(&self) -> (r: u32)
        ensures
            r == self.hw().busy,
    {
        self.busy
    }

    /// Every write received so far, in order.
    pub fn bus_events(&self) -> (r: &Vec<BusEvent>)
        ensures
            r@ == self.hw().bus,
    {
        &self.bus
    }

    /// Every status value read so far, in order.
    pub fn status_reads(&self) -> (r: &Vec<StatusReg>)
        ensures
            r@ == self.hw().reads,
    {
        &self.reads
    }
}

impl FlashRegs for SimController {
    closed spec fn hw(&self) -> HwState {
        HwState {
            cr: self.cr,
            busy: self.busy as nat,
            errors: self.errors,
            latency: self.latency as nat,
            outcome: self.outcome,
            bus: self.bus@,
            reads: self.reads@,
        }
    }

    fn read_cr(&self) -> (r: ControlReg) {
        self.cr
    }

    fn write_cr(&mut self, v: ControlReg) {
        if !self.cr.lock {
            self.cr = v;
        }
        self.bus.push(BusEvent::Control(v));
    }

    fn write_key(&mut self, k: u32) {
        let n = self.bus.len();
        let completes = k == KEY2 && n > 0 && self.bus[n - 1] == BusEvent::Key(KEY1);
        self.bus.push(BusEvent::Key(k));
        if completes {
            self.cr = ControlReg { lock: false, ..self.cr };
        }
        proof {
            let ghost b = self.bus@;
            assert(b[b.len() - 1] == BusEvent::Key(k));
            assert(n > 0 ==> b[b.len() - 2] == old(self).bus@[n - 1]);
        }
    }

    fn start(&mut self) {
        self.busy = self.latency;
        self.errors = merge(self.errors, self.outcome);
        self.bus.push(BusEvent::Start);
    }

    fn read_sr(&mut self) -> (r: StatusReg) {
        let r = StatusReg { bsy: self.busy > 0, errors: self.errors };
        if self.busy > 0 {
            self.busy = self.busy - 1;
        }
        self.reads.push(r);
        r
    }

    fn write_sr(&mut self, v: StatusReg) {
        self.errors = clear(self.errors, v.errors);
        self.bus.push(BusEvent::Status(v));
    }

    fn write_word(&mut self, addr: u32, word: u32) {
        self.busy = self.latency;
        self.errors = merge(self.errors, self.outcome);
        self.bus.push(BusEvent::Word(addr, word));
    }

    fn fence(&mut self) {
        self.bus.push(BusEvent::Fence);
    }
}

fn merge(a: ErrorFlags, b: ErrorFlags) -> (r: ErrorFlags)
    ensures
        r == crate::regs::merge_errors(a, b),
{
    ErrorFlags {
        pgserr: a.pgserr || b.pgserr,
        sizerr: a.sizerr || b.sizerr,
        pgaerr: a.pgaerr || b.pgaerr,
        wrperr: a.wrperr || b.wrperr,
        progerr: a.progerr || b.progerr,
    }
}

fn clear(a: ErrorFlags, w: ErrorFlags) -> (r: ErrorFlags)
    ensures
        r == crate::regs::clear_errors(a, w),
{
    ErrorFlags {
        pgserr: a.pgserr && !w.pgserr,
        sizerr: a.sizerr && !w.sizerr,
        pgaerr: a.pgaerr && !w.pgaerr,
        wrperr: a.wrperr && !w.wrperr,
        progerr: a.progerr && !w.progerr,
    }
}

} // verus!
