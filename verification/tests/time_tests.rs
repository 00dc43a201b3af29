use ch58x_hal::critical::Cpu;
use ch58x_hal::pfic::{Pfic, PficExt};
use ch58x_hal::sys::{Clock32KSrc, ClockSysSrc, Config, Sys, SysExt};
use ch58x_hal::sysclk::{Driver, Systick, SYS_TICK_LINE};

fn pll_80mhz() -> Sys {
    Sys::new().set(Config {
        clock32ksrc: Clock32KSrc::LSI,
        clocksyssrc: ClockSysSrc::PLL(6),
    })
}

#[test]
fn init_computes_the_tick_ratio_and_starts_the_counter() {
    let sys = pll_80mhz();
    let mut driver = Driver::new();
    let mut systick = Systick::new();
    driver.init(&mut systick, &sys, 1_000);
    // 80 MHz / 8 = 10 MHz counter; 1000 ticks per second.
    assert_eq!(driver.cnt_per_tick, 10_000);
    assert!(systick.ctl_init);
    assert!(systick.ctl_ste);
    assert!(!systick.ctl_stie);
    assert!(!systick.s_cntif);
    assert_eq!(systick.cmp, 0);
}

#[test]
fn module_init_also_enables_the_compare_interrupt_line() {
    let sys = pll_80mhz();
    let mut driver = Driver::new();
    let mut systick = Systick::new();
    let mut pfic = Pfic::new();
    ch58x_hal::sysclk::init(&mut driver, &mut systick, &sys, &mut pfic, 1_000);
    assert_eq!(driver.cnt_per_tick, 10_000);
    assert!(pfic.is_enabled(SYS_TICK_LINE));
    assert_eq!(pfic.priorities[SYS_TICK_LINE as usize], 15);
}

#[test]
fn now_truncates_toward_zero() {
    let driver = Driver { cnt_per_tick: 3, queue: Vec::new() };
    let mut systick = Systick::new();
    systick.cnt = 8;
    assert_eq!(driver.now(&systick), 2);
    systick.cnt = 9;
    assert_eq!(driver.now(&systick), 3);
    assert_eq!(driver.now_cnt(&systick), 9);
}

#[test]
fn now_is_monotone_across_the_raw_32_bit_boundary() {
    let driver = Driver { cnt_per_tick: 3, queue: Vec::new() };
    let mut systick = Systick::new();
    let counters: [u64; 6] = [0, 5, 0xffff_fffe, 0xffff_ffff, 0x1_0000_0000, 0x1_0000_0005];
    let mut last: u64 = 0;
    for c in counters {
        systick.cnt = c;
        let t = driver.now(&systick);
        assert!(t >= last);
        last = t;
    }
}

#[test]
fn set_fails_once_the_counter_has_passed_the_target() {
    let driver = Driver { cnt_per_tick: 1, queue: Vec::new() };
    let cpu = Cpu { interrupts_enabled: false };
    let mut systick = Systick::new();
    systick.cnt = 100;
    assert!(!driver.set(&cpu, &mut systick, 50));
    assert!(!driver.set(&cpu, &mut systick, 100));
    assert!(!systick.ctl_stie);
    assert!(driver.set(&cpu, &mut systick, 150));
    assert!(systick.ctl_stie);
    assert_eq!(systick.cmp, 150);
    assert!(!systick.s_cntif);
}

#[test]
fn deadlines_resume_in_increasing_tick_order() {
    let sys = pll_80mhz();
    let mut driver = Driver::new();
    let mut systick = Systick::new();
    let mut cpu = Cpu { interrupts_enabled: true };
    // 10 MHz counter at 10 M ticks per second: one counter step per tick.
    driver.init(&mut systick, &sys, 10_000_000);
    assert_eq!(driver.cnt_per_tick, 1);

    assert!(driver.schedule_wake(&mut cpu, &mut systick, 10, 100).is_empty());
    assert_eq!(systick.cmp, 10);
    assert!(systick.ctl_stie);
    assert!(driver.schedule_wake(&mut cpu, &mut systick, 30, 101).is_empty());
    assert_eq!(systick.cmp, 10);
    assert!(driver.schedule_wake(&mut cpu, &mut systick, 20, 102).is_empty());
    assert_eq!(systick.cmp, 10);
    assert!(cpu.interrupts_enabled);

    systick.cnt = 15;
    assert_eq!(driver.wake(&mut cpu, &mut systick), vec![100]);
    assert_eq!(systick.cmp, 20);
    systick.cnt = 25;
    assert_eq!(driver.wake(&mut cpu, &mut systick), vec![102]);
    assert_eq!(systick.cmp, 30);
    systick.cnt = 35;
    assert_eq!(driver.wake(&mut cpu, &mut systick), vec![101]);
    // Nothing remains: the compare interrupt is disarmed.
    assert!(!systick.ctl_stie);
    assert!(driver.queue.is_empty());
}

#[test]
fn scheduling_a_past_tick_resumes_it_synchronously() {
    let sys = pll_80mhz();
    let mut driver = Driver::new();
    let mut systick = Systick::new();
    let mut cpu = Cpu { interrupts_enabled: true };
    driver.init(&mut systick, &sys, 10_000_000);
    systick.cnt = 50;
    let woken = driver.schedule_wake(&mut cpu, &mut systick, 40, 7);
    assert_eq!(woken, vec![7]);
    assert!(driver.queue.is_empty());
    assert!(!systick.ctl_stie);
    assert!(cpu.interrupts_enabled);
}

#[test]
fn equal_deadlines_are_both_resumed() {
    let sys = pll_80mhz();
    let mut driver = Driver::new();
    let mut systick = Systick::new();
    let mut cpu = Cpu { interrupts_enabled: true };
    driver.init(&mut systick, &sys, 10_000_000);
    assert!(driver.schedule_wake(&mut cpu, &mut systick, 10, 1).is_empty());
    assert!(driver.schedule_wake(&mut cpu, &mut systick, 10, 2).is_empty());
    systick.cnt = 10;
    assert_eq!(driver.wake(&mut cpu, &mut systick), vec![1, 2]);
    assert!(!systick.ctl_stie);
}

#[test]
fn an_abandoned_deadline_still_fires_harmlessly() {
    // No cancellation exists: a request nobody re-polls is resumed
    // anyway when its tick passes.
    let sys = pll_80mhz();
    let mut driver = Driver::new();
    let mut systick = Systick::new();
    let mut cpu = Cpu { interrupts_enabled: true };
    driver.init(&mut systick, &sys, 10_000_000);
    assert!(driver.schedule_wake(&mut cpu, &mut systick, 5, 9).is_empty());
    systick.cnt = 1_000;
    assert_eq!(driver.wake(&mut cpu, &mut systick), vec![9]);
    assert_eq!(driver.wake(&mut cpu, &mut systick), Vec::<u32>::new());
}
