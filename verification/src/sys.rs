//! System clock-tree configuration and the derived system frequency.
//!
//! The configuration sequence is a linear register-programming recipe:
//! pick the 32 kHz source, then route the system clock from the 32 kHz
//! clock, the external high-speed oscillator or the PLL, and set the
//! flash timing to match. On hardware each protected write is bracketed
//! by the safe-access unlock sequence and followed by a fixed settle
//! delay; the delays are pure timing and leave no register state
//! behind, so they have no counterpart in this state model.

use vstd::prelude::*;

verus! {

/// Source of the 32 kHz clock.
pub enum Clock32KSrc {
    /// External low-speed crystal oscillator.
    LSE,
    /// Internal low-speed oscillator.
    LSI,
}

/// Source of the system clock. The payload is the divider applied to
/// the oscillator or PLL output; only its low five bits are used.
pub enum ClockSysSrc {
    /// Run directly from the 32 kHz clock.
    Clock32K,
    /// External 32 MHz oscillator divided by the given value.
    HSE(u8),
    /// 480 MHz PLL output divided by the given value.
    PLL(u8),
}

/// A complete clock-tree request.
pub struct Config {
    pub clock32ksrc: Clock32KSrc,
    pub clocksyssrc: ClockSysSrc,
}

/// The system-clock selection register: two mode bits and a five-bit
/// divider.
#[derive(Clone, Copy, PartialEq, Eq, Structural)]
pub struct ClkSysCfg {
    /// Clock source mode: 0 external oscillator, 1 PLL, 2 undivided
    /// oscillator, 3 the 32 kHz clock.
    pub clk_sys_mod: u8,
    /// Divider applied to the selected source.
    pub clk_pll_div: u8,
}

/// The 32 kHz clock configuration register.
#[derive(Clone, Copy, PartialEq, Eq, Structural)]
pub struct Ck32kConfig {
    /// External low-speed oscillator powered on.
    pub clk_xt32k_pon: bool,
    /// Internal low-speed oscillator powered on.
    pub clk_int32k_pon: bool,
    /// External crystal selected as the 32 kHz source.
    pub clk_osc32k_xt: bool,
}

/// High-frequency clock power control register.
#[derive(Clone, Copy, PartialEq, Eq, Structural)]
pub struct HfckPwrCtrl {
    /// External 32 MHz oscillator powered on.
    pub clk_xt32m_pon: bool,
    /// PLL powered on.
    pub clk_pll_pon: bool,
}

/// PLL trim and flash interface mode register.
#[derive(Clone, Copy, PartialEq, Eq, Structural)]
pub struct PllConfig {
    /// PLL configuration byte.
    pub pll_cfg_dat: u8,
    /// Flash I/O mode bit.
    pub flash_io_mod: bool,
}

/// The system control block: the registers the clock recipe programs.
#[derive(Clone, Copy, PartialEq, Eq, Structural)]
pub struct Sys {
    pub clk_sys_cfg: ClkSysCfg,
    pub ck32k_config: Ck32kConfig,
    pub hfck_pwr_ctrl: HfckPwrCtrl,
    pub pll_config: PllConfig,
    /// Flash timing configuration byte.
    pub flash_cfg: u8,
    /// Safe-access unlock register; zero means locked.
    pub safe_access_sig: u8,
}

/// The system frequency in Hz that a clock selection register yields.
pub open spec fn spec_fsys(cfg: ClkSysCfg) -> u32 {
    if cfg.clk_sys_mod == 0 {
        (32_000_000 as u32 / cfg.clk_sys_mod_div()) as u32
    } else if cfg.clk_sys_mod == 1 {
        (480_000_000 as u32 / cfg.clk_sys_mod_div()) as u32
    } else if cfg.clk_sys_mod == 2 {
        32_000_000
    } else {
        32_000
    }
}

impl ClkSysCfg {
    /// The divider as the hardware applies it; used only by the two
    /// divided modes.
    pub open spec fn clk_sys_mod_div(self) -> u32 {
        self.clk_pll_div as u32
    }
}

/// The register state after running the clock recipe for `config` from
/// state `sys`.
pub open spec fn spec_set(sys: Sys, config: Config) -> Sys {
    let s32k = match config.clock32ksrc {
        Clock32KSrc::LSE => Sys {
            ck32k_config: Ck32kConfig {
                clk_xt32k_pon: true,
                clk_osc32k_xt: true,
                ..sys.ck32k_config
            },
            ..sys
        },
        Clock32KSrc::LSI => Sys {
            ck32k_config: Ck32kConfig {
                clk_xt32k_pon: false,
                clk_int32k_pon: true,
                clk_osc32k_xt: false,
            },
            ..sys
        },
    };
    let strim = Sys {
        pll_config: PllConfig {
            pll_cfg_dat: (s32k.pll_config.pll_cfg_dat & !(1u8 << 5)) as u8,
            ..s32k.pll_config
        },
        ..s32k
    };
    let srouted = match config.clocksyssrc {
        ClockSysSrc::Clock32K => Sys {
            clk_sys_cfg: ClkSysCfg { clk_sys_mod: 3, ..strim.clk_sys_cfg },
            ..strim
        },
        ClockSysSrc::HSE(div) => Sys {
            hfck_pwr_ctrl: HfckPwrCtrl { clk_xt32m_pon: true, ..strim.hfck_pwr_ctrl },
            clk_sys_cfg: ClkSysCfg { clk_sys_mod: 0, clk_pll_div: (div & 0x1f) as u8 },
            flash_cfg: 0x51,
            ..strim
        },
        ClockSysSrc::PLL(div) => Sys {
            hfck_pwr_ctrl: HfckPwrCtrl { clk_pll_pon: true, ..strim.hfck_pwr_ctrl },
            clk_sys_cfg: ClkSysCfg { clk_sys_mod: 1, clk_pll_div: (div & 0x1f) as u8 },
            flash_cfg: if div == 6 {
                0x02
            } else {
                0x52
            },
            ..strim
        },
    };
    Sys {
        pll_config: PllConfig { flash_io_mod: true, ..srouted.pll_config },
        safe_access_sig: 0,
        ..srouted
    }
}

/// Clock-tree operations on the system control block.
pub trait SysExt: Sized {
    /// The register state the contracts speak of.
    spec fn model(&self) -> Sys;

    /// Runs the clock recipe: selects the 32 kHz source, routes the
    /// system clock as requested, programs the matching flash timing,
    /// and leaves safe-access mode locked.
    fn set(self, config: Config) -> (r: Self)
        ensures
            r.model() == spec_set(self.model(), config),
    ;

    /// The current system frequency in Hz, derived from the clock
    /// selection register. The divided modes need a non-zero divider;
    /// a zero divider there is a hardware contract violation.
    fn fsys(&self) -> (r: u32)
        requires
            self.model().clk_sys_cfg.clk_sys_mod == 0 || self.model().clk_sys_cfg.clk_sys_mod == 1
                ==> self.model().clk_sys_cfg.clk_pll_div != 0,
        ensures
            r == spec_fsys(self.model().clk_sys_cfg),
    ;
}

impl Sys {
    /// The system control block as it comes out of reset: running from
    /// the undivided internal oscillator, everything else off.
    pub fn new() -> (sys: Sys)
        ensures
            sys == Sys::spec_reset(),
    {
        Sys {
            clk_sys_cfg: ClkSysCfg { clk_sys_mod: 2, clk_pll_div: 0 },
            ck32k_config: Ck32kConfig {
                clk_xt32k_pon: false,
                clk_int32k_pon: true,
                clk_osc32k_xt: false,
            },
            hfck_pwr_ctrl: HfckPwrCtrl { clk_xt32m_pon: false, clk_pll_pon: false },
            pll_config: PllConfig { pll_cfg_dat: 0, flash_io_mod: false },
            flash_cfg: 0x51,
            safe_access_sig: 0,
        }
    }

    /// The reset state `new` returns.
    pub open spec fn spec_reset() -> Sys {
        Sys {
            clk_sys_cfg: ClkSysCfg { clk_sys_mod: 2, clk_pll_div: 0 },
            ck32k_config: Ck32kConfig {
                clk_xt32k_pon: false,
                clk_int32k_pon: true,
                clk_osc32k_xt: false,
            },
            hfck_pwr_ctrl: HfckPwrCtrl { clk_xt32m_pon: false, clk_pll_pon: false },
            pll_config: PllConfig { pll_cfg_dat: 0, flash_io_mod: false },
            flash_cfg: 0x51,
            safe_access_sig: 0,
        }
    }
}

impl SysExt for Sys {
    open spec fn model(&self) -> Sys {
        *self
    }

    fn set(self, config: Config) -> (r: Sys) {
        let mut sys = self;
        match config.clock32ksrc {
            Clock32KSrc::LSE => {
                // Power up the external low-speed oscillator, then,
                // after its settle time, select it as the 32 kHz
                // source.
                sys.ck32k_config.clk_xt32k_pon = true;
                sys.ck32k_config.clk_osc32k_xt = true;
            },
            Clock32KSrc::LSI => {
                sys.ck32k_config = Ck32kConfig {
                    clk_xt32k_pon: false,
                    clk_int32k_pon: true,
                    clk_osc32k_xt: false,
                };
            },
        }
        sys.pll_config.pll_cfg_dat = sys.pll_config.pll_cfg_dat & !(1u8 << 5);
        match config.clocksyssrc {
            ClockSysSrc::Clock32K => {
                sys.clk_sys_cfg.clk_sys_mod = 3;
            },
            ClockSysSrc::HSE(div) => {
                // Power up the external oscillator before switching to
                // it, then program the divider and the flash timing
                // that matches the faster clock.
                sys.hfck_pwr_ctrl.clk_xt32m_pon = true;
                sys.clk_sys_cfg = ClkSysCfg { clk_sys_mod: 0, clk_pll_div: div & 0x1f };
                sys.flash_cfg = 0x51;
            },
            ClockSysSrc::PLL(div) => {
                sys.hfck_pwr_ctrl.clk_pll_pon = true;
                sys.clk_sys_cfg = ClkSysCfg { clk_sys_mod: 1, clk_pll_div: div & 0x1f };
                sys.flash_cfg = if div == 6 {
                    0x02
                } else {
                    0x52
                };
            },
        }
        sys.pll_config.flash_io_mod = true;
        sys.safe_access_sig = 0;
        sys
    }

    fn fsys(&self) -> (r: u32) {
        let cfg = self.clk_sys_cfg;
        match cfg.clk_sys_mod {
            0 => 32_000_000 / (cfg.clk_pll_div as u32),
            1 => 480_000_000 / (cfg.clk_pll_div as u32),
            2 => 32_000_000,
            _ => 32_000,
        }
    }
}

} // verus!
