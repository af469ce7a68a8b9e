use stm32_flash::driver::{
    begin_erase_sector, blocking_erase_sector, blocking_wait_ready, blocking_write,
    clear_all_err, complete_operation, disable_write, enable_write, end_erase, lock, status,
    unlock,
};
use stm32_flash::regs::{Alias, BusEvent, ControlReg, ErrorFlags, StatusReg, KEY1, KEY2};
use stm32_flash::sim::SimController;
use stm32_flash::types::{Error, FlashBank, FlashSector, WRITE_SIZE};

fn none() -> ErrorFlags {
    ErrorFlags { pgserr: false, sizerr: false, pgaerr: false, wrperr: false, progerr: false }
}

fn locked() -> ControlReg {
    ControlReg { lock: true, pg: false, per: false, pnb: 0, bker: false }
}

fn unlocked() -> ControlReg {
    ControlReg { lock: false, ..locked() }
}

fn idle_with(errors: ErrorFlags) -> SimController {
    SimController::new(Alias::NonSecure, unlocked(), errors, 0, none())
}

fn key_writes(sim: &SimController) -> usize {
    sim.bus_events().iter().filter(|e| matches!(e, BusEvent::Key(_))).count()
}

#[test]
fn unlock_then_lock_relocks_without_key_writes() {
    let mut sim = SimController::new(Alias::Secure, locked(), none(), 0, none());
    unlock(&mut sim);
    assert!(!sim.control().lock);
    assert_eq!(sim.bus_events().clone(), vec![BusEvent::Key(KEY1), BusEvent::Key(KEY2)]);
    lock(&mut sim);
    assert!(sim.control().lock);
    assert_eq!(sim.control(), locked());
    assert_eq!(sim.bus_events().len(), 3);
    assert_eq!(sim.bus_events()[2], BusEvent::Control(locked()));
    assert_eq!(key_writes(&sim), 2);
}

#[test]
fn unlock_twice_writes_keys_once() {
    let mut sim = SimController::new(Alias::NonSecure, locked(), none(), 0, none());
    unlock(&mut sim);
    unlock(&mut sim);
    assert!(!sim.control().lock);
    assert_eq!(sim.bus_events().clone(), vec![BusEvent::Key(0x4567_0123), BusEvent::Key(0xCDEF_89AB)]);
}

#[test]
fn unlock_on_unlocked_controller_does_nothing() {
    let mut sim = idle_with(none());
    unlock(&mut sim);
    assert!(sim.bus_events().is_empty());
    assert_eq!(sim.control(), unlocked());
}

#[test]
fn lock_is_idempotent() {
    let mut sim = SimController::new(Alias::NonSecure, locked(), none(), 0, none());
    lock(&mut sim);
    lock(&mut sim);
    assert_eq!(sim.control(), locked());
    assert_eq!(key_writes(&sim), 0);
}

#[test]
fn status_reports_highest_priority_error() {
    let all = ErrorFlags { pgserr: true, sizerr: true, pgaerr: true, wrperr: true, progerr: true };
    assert_eq!(status(&mut idle_with(all)), Err(Error::Sequence));
    assert_eq!(status(&mut idle_with(ErrorFlags { pgserr: false, ..all })), Err(Error::Size));
    assert_eq!(
        status(&mut idle_with(ErrorFlags { pgserr: false, sizerr: false, ..all })),
        Err(Error::Unaligned)
    );
    assert_eq!(
        status(&mut idle_with(ErrorFlags { wrperr: true, progerr: true, ..none() })),
        Err(Error::Protected)
    );
    assert_eq!(status(&mut idle_with(ErrorFlags { progerr: true, ..none() })), Err(Error::Prog));
    assert_eq!(
        status(&mut idle_with(ErrorFlags { sizerr: true, progerr: true, ..none() })),
        Err(Error::Size)
    );
}

#[test]
fn status_priority_does_not_depend_on_order_flags_were_raised() {
    // Protection raised by the operation on top of a stale size error.
    let mut a = SimController::new(
        Alias::NonSecure,
        unlocked(),
        ErrorFlags { sizerr: true, ..none() },
        0,
        ErrorFlags { wrperr: true, ..none() },
    );
    // The same flags, raised the other way round.
    let mut b = SimController::new(
        Alias::NonSecure,
        unlocked(),
        ErrorFlags { wrperr: true, ..none() },
        0,
        ErrorFlags { sizerr: true, ..none() },
    );
    let sector = FlashSector::new(FlashBank::Bank1, 0);
    begin_erase_sector(&mut a, &sector).unwrap();
    begin_erase_sector(&mut b, &sector).unwrap();
    assert_eq!(status(&mut a), Err(Error::Size));
    assert_eq!(status(&mut b), Err(Error::Size));
}

#[test]
fn status_busy_and_idle() {
    let mut sim = SimController::new(Alias::NonSecure, unlocked(), none(), 1, none());
    assert_eq!(status(&mut sim), Ok(false));
    begin_erase_sector(&mut sim, &FlashSector::new(FlashBank::Bank1, 3)).unwrap();
    assert_eq!(status(&mut sim), Ok(true));
    assert_eq!(status(&mut sim), Ok(false));
    assert_eq!(sim.status_reads().len(), 3);
}

#[test]
fn status_ignores_error_flags_while_busy() {
    let mut sim = SimController::new(
        Alias::NonSecure,
        unlocked(),
        none(),
        2,
        ErrorFlags { pgserr: true, ..none() },
    );
    begin_erase_sector(&mut sim, &FlashSector::new(FlashBank::Bank1, 0)).unwrap();
    assert_eq!(status(&mut sim), Ok(true));
    assert_eq!(status(&mut sim), Ok(true));
    assert_eq!(status(&mut sim), Err(Error::Sequence));
}

#[test]
fn write_size_is_whole_words() {
    assert_eq!(WRITE_SIZE % 4, 0);
}

#[test]
fn enable_and_disable_write_set_program_bit() {
    let mut sim = idle_with(none());
    enable_write(&mut sim);
    assert_eq!(sim.control(), ControlReg { pg: true, ..unlocked() });
    disable_write(&mut sim);
    assert_eq!(sim.control(), unlocked());
}

#[test]
fn enable_write_is_ignored_while_locked() {
    let mut sim = SimController::new(Alias::NonSecure, locked(), none(), 0, none());
    enable_write(&mut sim);
    assert_eq!(sim.control(), locked());
}

#[test]
fn write_programs_little_endian_words_with_barriers() {
    let mut sim = idle_with(none());
    let mut buf = [0u8; WRITE_SIZE];
    for (i, b) in buf.iter_mut().enumerate() {
        *b = i as u8 + 1;
    }
    assert_eq!(stm32_flash::driver::write(&mut sim, 0x0800_0000, &buf), Ok(()));
    let expected = vec![
        BusEvent::Word(0x0800_0000, 0x0403_0201),
        BusEvent::Fence,
        BusEvent::Word(0x0800_0004, 0x0807_0605),
        BusEvent::Fence,
        BusEvent::Word(0x0800_0008, 0x0C0B_0A09),
        BusEvent::Fence,
        BusEvent::Word(0x0800_000C, 0x100F_0E0D),
        BusEvent::Fence,
    ];
    assert_eq!(sim.bus_events().clone(), expected);
}

#[test]
fn write_at_top_of_address_space() {
    let mut sim = idle_with(none());
    let buf = [0xFFu8; WRITE_SIZE];
    assert_eq!(stm32_flash::driver::write(&mut sim, 0xFFFF_FFF0, &buf), Ok(()));
    assert_eq!(sim.bus_events()[6], BusEvent::Word(0xFFFF_FFFC, 0xFFFF_FFFF));
}

#[test]
fn blocking_write_reads_status_busy_count_plus_one() {
    let n: u32 = 5;
    let mut sim = SimController::new(Alias::NonSecure, unlocked(), none(), n, none());
    enable_write(&mut sim);
    let buf = [0xA5u8; WRITE_SIZE];
    assert_eq!(blocking_write(&mut sim, 0x0800_1000, &buf), Ok(()));
    let reads = sim.status_reads();
    assert_eq!(reads.len(), n as usize + 1);
    assert!(reads[..n as usize].iter().all(|s| s.bsy));
    assert!(!reads[n as usize].bsy);
}

#[test]
fn blocking_write_reports_programming_error() {
    let mut sim = SimController::new(
        Alias::NonSecure,
        unlocked(),
        none(),
        1,
        ErrorFlags { pgaerr: true, ..none() },
    );
    let buf = [0u8; WRITE_SIZE];
    assert_eq!(blocking_write(&mut sim, 0x0800_0002, &buf), Err(Error::Unaligned));
    assert_eq!(sim.status_reads().len(), 2);
}

#[test]
fn blocking_wait_ready_on_idle_controller_reads_once() {
    let mut sim = idle_with(none());
    assert_eq!(blocking_wait_ready(&mut sim), Ok(()));
    assert_eq!(sim.status_reads().len(), 1);
}

#[test]
fn blocking_erase_sector_reports_protection_and_relocks() {
    let mut sim = SimController::new(
        Alias::Secure,
        locked(),
        none(),
        4,
        ErrorFlags { wrperr: true, ..none() },
    );
    unlock(&mut sim);
    let sector = FlashSector::new(FlashBank::Bank2, 7);
    assert_eq!(blocking_erase_sector(&mut sim, &sector), Err(Error::Protected));
    assert!(sim.control().lock);
    assert!(!sim.control().per);
    assert_eq!(sim.errors(), none());
}

#[test]
fn blocking_erase_sector_success() {
    let mut sim = SimController::new(Alias::NonSecure, locked(), none(), 2, none());
    unlock(&mut sim);
    let sector = FlashSector::new(FlashBank::Bank1, 9);
    assert_eq!(blocking_erase_sector(&mut sim, &sector), Ok(()));
    assert!(sim.control().lock);
    assert!(!sim.control().per);
    assert_eq!(sim.control().pnb, 9);
    assert!(!sim.control().bker);
}

#[test]
fn begin_erase_sector_latches_target_before_start() {
    let mut sim = idle_with(none());
    let sector = FlashSector::new(FlashBank::Bank2, 42);
    assert_eq!(begin_erase_sector(&mut sim, &sector), Ok(()));
    let target = ControlReg { per: true, pnb: 42, bker: true, ..unlocked() };
    assert_eq!(sim.bus_events().clone(), vec![BusEvent::Control(target), BusEvent::Start]);
    assert_eq!(sim.control(), target);
}

#[test]
fn begin_erase_sector_refuses_otp_bank() {
    let mut sim = idle_with(none());
    let sector = FlashSector::new(FlashBank::Otp, 0);
    assert_eq!(begin_erase_sector(&mut sim, &sector), Err(Error::UnsupportedBank));
    assert_eq!(blocking_erase_sector(&mut sim, &sector), Err(Error::UnsupportedBank));
    assert!(sim.bus_events().is_empty());
    assert!(sim.status_reads().is_empty());
}

#[test]
fn end_erase_without_waiting_reports_busy() {
    let mut sim = SimController::new(Alias::NonSecure, unlocked(), none(), 3, none());
    begin_erase_sector(&mut sim, &FlashSector::new(FlashBank::Bank1, 1)).unwrap();
    assert_eq!(end_erase(&mut sim), Err(Error::Busy));
    assert!(sim.control().per);
    assert!(!sim.control().lock);
    assert_eq!(sim.busy_reads_left(), 2);
}

#[test]
fn end_erase_after_wait_cleans_up() {
    let mut sim = SimController::new(
        Alias::NonSecure,
        unlocked(),
        none(),
        1,
        ErrorFlags { progerr: true, ..none() },
    );
    begin_erase_sector(&mut sim, &FlashSector::new(FlashBank::Bank1, 1)).unwrap();
    assert_eq!(blocking_wait_ready(&mut sim), Err(Error::Prog));
    assert_eq!(end_erase(&mut sim), Err(Error::Prog));
    assert!(!sim.control().per);
    assert!(sim.control().lock);
    assert_eq!(sim.errors(), none());
}

#[test]
fn complete_operation_in_program_mode_disables_programming_and_locks() {
    let mut sim = idle_with(none());
    enable_write(&mut sim);
    assert_eq!(complete_operation(&mut sim), Ok(()));
    assert_eq!(sim.control(), locked());
    let events = sim.bus_events();
    let n = events.len();
    assert_eq!(events[n - 2], BusEvent::Control(unlocked()));
    assert_eq!(events[n - 1], BusEvent::Control(locked()));
}

#[test]
fn complete_operation_in_erase_mode_clears_erase_enable() {
    let mut sim = SimController::new(Alias::NonSecure, unlocked(), none(), 0, none());
    begin_erase_sector(&mut sim, &FlashSector::new(FlashBank::Bank2, 5)).unwrap();
    assert_eq!(complete_operation(&mut sim), Ok(()));
    assert_eq!(sim.control(), ControlReg { lock: true, pg: false, per: false, pnb: 5, bker: true });
}

#[test]
fn complete_operation_while_busy_reports_busy() {
    let mut sim = SimController::new(Alias::NonSecure, unlocked(), none(), 1, none());
    enable_write(&mut sim);
    stm32_flash::driver::write(&mut sim, 0x0800_0000, &[0u8; WRITE_SIZE]).unwrap();
    assert_eq!(complete_operation(&mut sim), Err(Error::Busy));
    assert!(sim.control().pg);
    assert_eq!(complete_operation(&mut sim), Ok(()));
    assert!(!sim.control().pg);
    assert!(sim.control().lock);
}

#[test]
fn clear_all_err_writes_back_read_value() {
    let flags = ErrorFlags { sizerr: true, wrperr: true, ..none() };
    let mut sim = idle_with(flags);
    clear_all_err(&mut sim);
    assert_eq!(sim.errors(), none());
    assert_eq!(
        sim.bus_events().clone(),
        vec![BusEvent::Status(StatusReg { bsy: false, errors: flags })]
    );
    assert_eq!(status(&mut sim), Ok(false));
}

#[test]
fn controller_keeps_its_alias() {
    assert_eq!(idle_with(none()).alias(), Alias::NonSecure);
    let sim = SimController::new(Alias::Secure, locked(), none(), 0, none());
    assert_eq!(sim.alias(), Alias::Secure);
}
