use ch58x_hal::sys::{Clock32KSrc, ClockSysSrc, Config, Sys, SysExt};

#[test]
fn fsys_of_the_reset_state_is_the_undivided_oscillator() {
    let sys = Sys::new();
    assert_eq!(sys.fsys(), 32_000_000);
}

#[test]
fn fsys_follows_each_clock_mode() {
    let mut sys = Sys::new();
    sys.clk_sys_cfg.clk_sys_mod = 0;
    sys.clk_sys_cfg.clk_pll_div = 8;
    assert_eq!(sys.fsys(), 4_000_000);
    sys.clk_sys_cfg.clk_sys_mod = 1;
    sys.clk_sys_cfg.clk_pll_div = 6;
    assert_eq!(sys.fsys(), 80_000_000);
    sys.clk_sys_cfg.clk_sys_mod = 3;
    assert_eq!(sys.fsys(), 32_000);
}

#[test]
fn set_pll_div_6_routes_the_pll_and_picks_its_flash_timing() {
    let sys = Sys::new().set(Config {
        clock32ksrc: Clock32KSrc::LSI,
        clocksyssrc: ClockSysSrc::PLL(6),
    });
    assert_eq!(sys.clk_sys_cfg.clk_sys_mod, 1);
    assert_eq!(sys.clk_sys_cfg.clk_pll_div, 6);
    assert!(sys.hfck_pwr_ctrl.clk_pll_pon);
    assert_eq!(sys.flash_cfg, 0x02);
    assert!(sys.pll_config.flash_io_mod);
    assert_eq!(sys.safe_access_sig, 0);
    assert_eq!(sys.fsys(), 80_000_000);
}

#[test]
fn set_pll_other_divider_uses_the_general_flash_timing() {
    let sys = Sys::new().set(Config {
        clock32ksrc: Clock32KSrc::LSI,
        clocksyssrc: ClockSysSrc::PLL(8),
    });
    assert_eq!(sys.clk_sys_cfg.clk_pll_div, 8);
    assert_eq!(sys.flash_cfg, 0x52);
    assert_eq!(sys.fsys(), 60_000_000);
}

#[test]
fn set_hse_routes_the_external_oscillator() {
    let sys = Sys::new().set(Config {
        clock32ksrc: Clock32KSrc::LSI,
        clocksyssrc: ClockSysSrc::HSE(4),
    });
    assert_eq!(sys.clk_sys_cfg.clk_sys_mod, 0);
    assert_eq!(sys.clk_sys_cfg.clk_pll_div, 4);
    assert!(sys.hfck_pwr_ctrl.clk_xt32m_pon);
    assert_eq!(sys.flash_cfg, 0x51);
    assert_eq!(sys.fsys(), 8_000_000);
}

#[test]
fn set_lse_powers_and_selects_the_external_32k_source() {
    let sys = Sys::new().set(Config {
        clock32ksrc: Clock32KSrc::LSE,
        clocksyssrc: ClockSysSrc::Clock32K,
    });
    assert!(sys.ck32k_config.clk_xt32k_pon);
    assert!(sys.ck32k_config.clk_osc32k_xt);
    assert_eq!(sys.clk_sys_cfg.clk_sys_mod, 3);
    assert_eq!(sys.fsys(), 32_000);
}

#[test]
fn set_lsi_powers_down_the_external_32k_source() {
    let sys = Sys::new().set(Config {
        clock32ksrc: Clock32KSrc::LSI,
        clocksyssrc: ClockSysSrc::Clock32K,
    });
    assert!(!sys.ck32k_config.clk_xt32k_pon);
    assert!(sys.ck32k_config.clk_int32k_pon);
    assert!(!sys.ck32k_config.clk_osc32k_xt);
}

#[test]
fn set_clears_the_pll_trim_bit() {
    let mut start = Sys::new();
    start.pll_config.pll_cfg_dat = 0xff;
    let sys = start.set(Config {
        clock32ksrc: Clock32KSrc::LSI,
        clocksyssrc: ClockSysSrc::Clock32K,
    });
    assert_eq!(sys.pll_config.pll_cfg_dat, 0xff & !(1 << 5));
}
