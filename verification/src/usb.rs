//! The USB device-controller driver: bus state tracking, per-endpoint
//! enable/disable, and cooperative one-packet transfers with hardware
//! toggle-bit handshaking.
//!
//! The controller's registers are modelled one register per field.
//! Every wait follows the same discipline: register the continuation
//! in the waker slot first, only then perform the authoritative check
//! of the hardware condition, and report ready or pending — checking
//! before registering would open a window in which an interrupt's wake
//! is lost. The transfer-complete interrupt is shared by all endpoints,
//! so a completion counts only for the endpoint whose index the status
//! register reports; every other waiter ignores it. Each completed
//! packet — on success and on error alike — flips that endpoint and
//! direction's toggle bit and re-arms the endpoint to NAK: the driver
//! never accepts a following packet until asked again, which is the
//! backpressure that lets one cooperative core keep up with the host.

use vstd::prelude::*;
use core::marker::PhantomData;
use crate::critical::{Cpu, CriticalSection};
use crate::waker::WakerSlot;

verus! {

/// Token code of an OUT transaction in the transfer status register.
pub const TOKEN_OUT: u8 = 0;

/// Token code of an IN transaction in the transfer status register.
pub const TOKEN_IN: u8 = 2;

/// Endpoint response code: acknowledge.
pub const RES_ACK: u8 = 0;

/// Endpoint response code: NAK, "not ready, retry later" — the default
/// state of every endpoint here.
pub const RES_NAK: u8 = 2;

/// Transfer direction, seen from the host.
#[derive(Clone, Copy, Debug, PartialEq, Eq)]
pub enum Direction {
    /// Host to device.
    Out,
    /// Device to host.
    In,
}

/// An endpoint address: index 1 to 7 for data endpoints — index 0 is
/// reserved for the control pipe — plus the direction.
#[derive(Clone, Copy, Debug, PartialEq, Eq)]
pub struct EndpointAddress {
    pub index: u8,
    pub direction: Direction,
}

/// USB endpoint transfer type.
#[derive(Clone, Copy, Debug, PartialEq, Eq)]
pub enum EndpointType {
    Control,
    Isochronous,
    Bulk,
    Interrupt,
}

/// Static description of an allocated endpoint.
#[derive(Clone, Copy, Debug, PartialEq, Eq)]
pub struct EndpointInfo {
    pub addr: EndpointAddress,
    pub ep_type: EndpointType,
    pub max_packet_size: u16,
    pub interval_ms: u8,
}

/// A bus condition reported by [`Bus::poll`].
#[derive(Clone, Copy, Debug, PartialEq, Eq)]
pub enum Event {
    /// The host drove a bus reset.
    Reset,
    /// The bus went idle long enough to suspend.
    Suspend,
    /// Bus activity resumed.
    Resume,
}

/// A recoverable transfer error, surfaced synchronously from the poll
/// that detected it; retrying is the calling protocol stack's affair.
#[derive(Clone, Copy, Debug, PartialEq, Eq)]
pub enum EndpointError {
    /// The hardware-reported received length differs from the caller's
    /// buffer length.
    BufferOverflow,
    /// The completion's token type does not match the endpoint's
    /// direction — typically a concurrent bus reset; the caller should
    /// abandon the operation and re-wait for bus activity.
    Disabled,
}

/// Endpoint allocation failed.
#[derive(Clone, Copy, Debug, PartialEq, Eq)]
pub struct EndpointAllocError;

/// The operation is not implemented by this hardware; surfaced
/// synchronously, never attempted.
#[derive(Clone, Copy, Debug, PartialEq, Eq)]
pub struct Unsupported;

/// Outcome of one poll step of a cooperative wait: ready with a value,
/// or pending until the registered waker slot is woken.
#[derive(Debug, PartialEq, Eq)]
pub enum Poll<T> {
    Ready(T),
    Pending,
}

/// One endpoint's control register: the response codes and toggle bits
/// for each direction.
#[derive(Clone, Copy, Debug, PartialEq, Eq, Structural)]
pub struct EpControl {
    /// Response to OUT transactions.
    pub r_res: u8,
    /// Response to IN transactions.
    pub t_res: u8,
    /// DATA0/DATA1 toggle of the OUT direction.
    pub r_tog: bool,
    /// DATA0/DATA1 toggle of the IN direction.
    pub t_tog: bool,
}

/// The interrupt flag register; each flag acknowledges by clearing.
#[derive(Clone, Copy, Debug, PartialEq, Eq, Structural)]
pub struct IntFlags {
    pub bus_rst: bool,
    pub suspend: bool,
    pub transfer: bool,
    pub hst_sof: bool,
}

/// The interrupt enable register.
#[derive(Clone, Copy, Debug, PartialEq, Eq, Structural)]
pub struct IntEnable {
    pub bus_rst: bool,
    pub suspend: bool,
    pub transfer: bool,
}

/// The transfer status register: which endpoint completed, with which
/// token, and whether the packet's toggle matched.
#[derive(Clone, Copy, Debug, PartialEq, Eq, Structural)]
pub struct IntStatus {
    /// Endpoint index of the reported completion.
    pub endp: u8,
    /// Token code of the reported transaction.
    pub token: u8,
    /// Whether the received packet's DATA toggle matched the expected
    /// one.
    pub tog_ok: bool,
}

/// Mode register of endpoints 1 and 4.
#[derive(Clone, Copy, Debug, PartialEq, Eq, Structural)]
pub struct Uep41Mod {
    pub uep1_rx_en: bool,
    pub uep1_tx_en: bool,
    pub uep4_rx_en: bool,
    pub uep4_tx_en: bool,
}

/// Mode register of endpoints 2 and 3.
#[derive(Clone, Copy, Debug, PartialEq, Eq, Structural)]
pub struct Uep23Mod {
    pub uep2_rx_en: bool,
    pub uep2_tx_en: bool,
    pub uep3_rx_en: bool,
    pub uep3_tx_en: bool,
}

/// Mode register of endpoints 5, 6 and 7.
#[derive(Clone, Copy, Debug, PartialEq, Eq, Structural)]
pub struct Uep567Mod {
    pub uep5_rx_en: bool,
    pub uep5_tx_en: bool,
    pub uep6_rx_en: bool,
    pub uep6_tx_en: bool,
    pub uep7_rx_en: bool,
    pub uep7_tx_en: bool,
}

/// The USB device controller's register file, one field per register.
#[derive(Clone, Copy, Debug, PartialEq, Eq, Structural)]
pub struct Usb {
    /// Device pull-up enable: makes the device visible to the host.
    pub ctrl_dev_pu_en: bool,
    /// Assigned device address.
    pub dev_ad: u8,
    pub int_fg: IntFlags,
    pub int_en: IntEnable,
    pub int_st: IntStatus,
    /// Suspend status bit, sampled to tell suspend from resume.
    pub mis_st_suspend: bool,
    /// Length of the most recently received packet.
    pub rx_len: u8,
    /// Transmit length register programmed before an IN transfer.
    pub uep0_t_len: u8,
    pub uep0_ctrl: EpControl,
    pub uep1_ctrl: EpControl,
    pub uep2_ctrl: EpControl,
    pub uep3_ctrl: EpControl,
    pub uep4_ctrl: EpControl,
    pub uep5_ctrl: EpControl,
    pub uep6_ctrl: EpControl,
    pub uep7_ctrl: EpControl,
    pub uep4_1_mod: Uep41Mod,
    pub uep2_3_mod: Uep23Mod,
    pub uep567_mod: Uep567Mod,
}

/// Both directions set to NAK, toggles reset: the state a full write
/// of NAK/NAK leaves an endpoint control register in.
pub open spec fn nak_both() -> EpControl {
    EpControl { r_res: RES_NAK, t_res: RES_NAK, r_tog: false, t_tog: false }
}

/// A full register write forcing the OUT direction to NAK.
pub open spec fn nak_out_write() -> EpControl {
    EpControl { r_res: RES_NAK, t_res: RES_ACK, r_tog: false, t_tog: false }
}

/// A full register write forcing the IN direction to NAK.
pub open spec fn nak_in_write() -> EpControl {
    EpControl { r_res: RES_ACK, t_res: RES_NAK, r_tog: false, t_tog: false }
}

impl Usb {
    /// The control register of endpoint `idx`.
    pub open spec fn ep_ctrl(self, idx: int) -> EpControl {
        if idx == 0 {
            self.uep0_ctrl
        } else if idx == 1 {
            self.uep1_ctrl
        } else if idx == 2 {
            self.uep2_ctrl
        } else if idx == 3 {
            self.uep3_ctrl
        } else if idx == 4 {
            self.uep4_ctrl
        } else if idx == 5 {
            self.uep5_ctrl
        } else if idx == 6 {
            self.uep6_ctrl
        } else {
            self.uep7_ctrl
        }
    }

    /// The register file with endpoint `idx`'s control register
    /// replaced by `c`.
    pub open spec fn with_ep_ctrl(self, idx: int, c: EpControl) -> Usb {
        if idx == 0 {
            Usb { uep0_ctrl: c, ..self }
        } else if idx == 1 {
            Usb { uep1_ctrl: c, ..self }
        } else if idx == 2 {
            Usb { uep2_ctrl: c, ..self }
        } else if idx == 3 {
            Usb { uep3_ctrl: c, ..self }
        } else if idx == 4 {
            Usb { uep4_ctrl: c, ..self }
        } else if idx == 5 {
            Usb { uep5_ctrl: c, ..self }
        } else if idx == 6 {
            Usb { uep6_ctrl: c, ..self }
        } else {
            Usb { uep7_ctrl: c, ..self }
        }
    }

    /// Whether the OUT direction of endpoint `idx` is enabled in its
    /// grouped mode register.
    pub open spec fn ep_rx_enabled(self, idx: int) -> bool {
        if idx == 1 {
            self.uep4_1_mod.uep1_rx_en
        } else if idx == 2 {
            self.uep2_3_mod.uep2_rx_en
        } else if idx == 3 {
            self.uep2_3_mod.uep3_rx_en
        } else if idx == 4 {
            self.uep4_1_mod.uep4_rx_en
        } else if idx == 5 {
            self.uep567_mod.uep5_rx_en
        } else if idx == 6 {
            self.uep567_mod.uep6_rx_en
        } else if idx == 7 {
            self.uep567_mod.uep7_rx_en
        } else {
            false
        }
    }

    /// Whether the IN direction of endpoint `idx` is enabled in its
    /// grouped mode register.
    pub open spec fn ep_tx_enabled(self, idx: int) -> bool {
        if idx == 1 {
            self.uep4_1_mod.uep1_tx_en
        } else if idx == 2 {
            self.uep2_3_mod.uep2_tx_en
        } else if idx == 3 {
            self.uep2_3_mod.uep3_tx_en
        } else if idx == 4 {
            self.uep4_1_mod.uep4_tx_en
        } else if idx == 5 {
            self.uep567_mod.uep5_tx_en
        } else if idx == 6 {
            self.uep567_mod.uep6_tx_en
        } else if idx == 7 {
            self.uep567_mod.uep7_tx_en
        } else {
            false
        }
    }

    /// The register file after acknowledging a bus reset: address
    /// cleared, every endpoint forced to NAK in both directions with
    /// its toggles reset, the reset flag acknowledged and its
    /// interrupt source re-armed.
    pub open spec fn bus_reset_ack(self) -> Usb {
        Usb {
            dev_ad: 0,
            uep0_ctrl: nak_both(),
            uep1_ctrl: nak_both(),
            uep2_ctrl: nak_both(),
            uep3_ctrl: nak_both(),
            uep4_ctrl: nak_both(),
            uep5_ctrl: nak_both(),
            uep6_ctrl: nak_both(),
            uep7_ctrl: nak_both(),
            int_fg: IntFlags { bus_rst: false, ..self.int_fg },
            int_en: IntEnable { bus_rst: true, ..self.int_en },
            ..self
        }
    }

    /// The register file after acknowledging a suspend-condition
    /// change and re-arming its interrupt source.
    pub open spec fn suspend_ack(self) -> Usb {
        Usb {
            int_fg: IntFlags { suspend: false, ..self.int_fg },
            int_en: IntEnable { suspend: true, ..self.int_en },
            ..self
        }
    }

    /// What one bus poll reports for this register state: a reset
    /// first, else a suspend or resume — told apart by the suspend
    /// status bit sampled before the flag is cleared — else pending.
    pub open spec fn poll_event(self) -> Poll<Event> {
        if self.int_fg.bus_rst {
            Poll::Ready(Event::Reset)
        } else if self.int_fg.suspend {
            if self.mis_st_suspend {
                Poll::Ready(Event::Suspend)
            } else {
                Poll::Ready(Event::Resume)
            }
        } else {
            Poll::Pending
        }
    }

    /// The register file after one bus poll.
    pub open spec fn poll_regs(self) -> Usb {
        if self.int_fg.bus_rst {
            self.bus_reset_ack()
        } else if self.int_fg.suspend {
            self.suspend_ack()
        } else {
            self
        }
    }

    /// Whether the transfer-complete interrupt is reporting a
    /// completion for endpoint `idx`: the shared flag is set and the
    /// status register names this endpoint.
    pub open spec fn transfer_complete_for(self, idx: int) -> bool {
        self.int_fg.transfer && self.int_st.endp == idx
    }

    /// What one read poll on endpoint `idx` with a buffer of
    /// `buf_len` bytes reports: nothing without a completion for this
    /// endpoint; on an OUT completion, success exactly when the
    /// received length equals the buffer length; on any other token,
    /// the endpoint-disabled error.
    pub open spec fn read_poll_result(self, idx: int, buf_len: usize) -> Poll<
        Result<usize, EndpointError>,
    > {
        if self.transfer_complete_for(idx) {
            if self.int_st.token == TOKEN_OUT {
                if self.rx_len == buf_len {
                    Poll::Ready(Ok(self.rx_len as usize))
                } else {
                    Poll::Ready(Err(EndpointError::BufferOverflow))
                }
            } else {
                Poll::Ready(Err(EndpointError::Disabled))
            }
        } else {
            Poll::Pending
        }
    }

    /// The register file after one read poll on endpoint `idx`: on a
    /// completion — whatever its outcome — the endpoint's OUT toggle
    /// flips, its OUT response re-arms to NAK, the shared flag is
    /// acknowledged and the transfer interrupt re-armed; without a
    /// completion nothing changes.
    pub open spec fn read_poll_regs(self, idx: int) -> Usb {
        if self.transfer_complete_for(idx) {
            let c = self.ep_ctrl(idx);
            let acked = self.with_ep_ctrl(
                idx,
                EpControl { r_res: RES_NAK, r_tog: !c.r_tog, ..c },
            );
            Usb {
                int_fg: IntFlags { transfer: false, ..acked.int_fg },
                int_en: IntEnable { transfer: true, ..acked.int_en },
                ..acked
            }
        } else {
            self
        }
    }

    /// What one write poll on endpoint `idx` reports: nothing without
    /// a completion for this endpoint; success exactly when the token
    /// confirms an IN handshake, else the endpoint-disabled error.
    pub open spec fn write_poll_result(self, idx: int) -> Poll<Result<(), EndpointError>> {
        if self.transfer_complete_for(idx) {
            if self.int_st.token == TOKEN_IN {
                Poll::Ready(Ok(()))
            } else {
                Poll::Ready(Err(EndpointError::Disabled))
            }
        } else {
            Poll::Pending
        }
    }

    /// The register file after one write poll on endpoint `idx` with
    /// `t_len` programmed as the transmit length: the length register
    /// always carries the new value; on a completion the endpoint's IN
    /// toggle flips, its IN response re-arms to NAK, and the shared
    /// flag is acknowledged and re-armed.
    pub open spec fn write_poll_regs(self, idx: int, t_len: u8) -> Usb {
        let armed = Usb { uep0_t_len: t_len, ..self };
        if armed.transfer_complete_for(idx) {
            let c = armed.ep_ctrl(idx);
            let acked = armed.with_ep_ctrl(
                idx,
                EpControl { t_res: RES_NAK, t_tog: !c.t_tog, ..c },
            );
            Usb {
                int_fg: IntFlags { transfer: false, ..acked.int_fg },
                int_en: IntEnable { transfer: true, ..acked.int_en },
                ..acked
            }
        } else {
            armed
        }
    }

    /// The grouped mode register holding endpoint `idx`'s
    /// receive-enable bit, with that bit set to `enabled`.
    pub open spec fn with_rx_en(self, idx: int, enabled: bool) -> Usb {
        if idx == 1 {
            Usb { uep4_1_mod: Uep41Mod { uep1_rx_en: enabled, ..self.uep4_1_mod }, ..self }
        } else if idx == 2 {
            Usb { uep2_3_mod: Uep23Mod { uep2_rx_en: enabled, ..self.uep2_3_mod }, ..self }
        } else if idx == 3 {
            Usb { uep2_3_mod: Uep23Mod { uep3_rx_en: enabled, ..self.uep2_3_mod }, ..self }
        } else if idx == 4 {
            Usb { uep4_1_mod: Uep41Mod { uep4_rx_en: enabled, ..self.uep4_1_mod }, ..self }
        } else if idx == 5 {
            Usb { uep567_mod: Uep567Mod { uep5_rx_en: enabled, ..self.uep567_mod }, ..self }
        } else if idx == 6 {
            Usb { uep567_mod: Uep567Mod { uep6_rx_en: enabled, ..self.uep567_mod }, ..self }
        } else {
            Usb { uep567_mod: Uep567Mod { uep7_rx_en: enabled, ..self.uep567_mod }, ..self }
        }
    }

    /// The grouped mode register holding endpoint `idx`'s
    /// transmit-enable bit, with that bit set to `enabled`.
    pub open spec fn with_tx_en(self, idx: int, enabled: bool) -> Usb {
        if idx == 1 {
            Usb { uep4_1_mod: Uep41Mod { uep1_tx_en: enabled, ..self.uep4_1_mod }, ..self }
        } else if idx == 2 {
            Usb { uep2_3_mod: Uep23Mod { uep2_tx_en: enabled, ..self.uep2_3_mod }, ..self }
        } else if idx == 3 {
            Usb { uep2_3_mod: Uep23Mod { uep3_tx_en: enabled, ..self.uep2_3_mod }, ..self }
        } else if idx == 4 {
            Usb { uep4_1_mod: Uep41Mod { uep4_tx_en: enabled, ..self.uep4_1_mod }, ..self }
        } else if idx == 5 {
            Usb { uep567_mod: Uep567Mod { uep5_tx_en: enabled, ..self.uep567_mod }, ..self }
        } else if idx == 6 {
            Usb { uep567_mod: Uep567Mod { uep6_tx_en: enabled, ..self.uep567_mod }, ..self }
        } else {
            Usb { uep567_mod: Uep567Mod { uep7_tx_en: enabled, ..self.uep567_mod }, ..self }
        }
    }

    /// The register file after enabling or disabling the OUT direction
    /// of endpoint `idx`: the one grouped mode register holding that
    /// endpoint's receive-enable bit is updated, and the endpoint's
    /// control register is rewritten to NAK the OUT direction.
    pub open spec fn set_rx_enabled(self, idx: int, enabled: bool) -> Usb {
        self.with_rx_en(idx, enabled).with_ep_ctrl(idx, nak_out_write())
    }

    /// The register file after enabling or disabling the IN direction
    /// of endpoint `idx`, NAKing that direction.
    pub open spec fn set_tx_enabled(self, idx: int, enabled: bool) -> Usb {
        self.with_tx_en(idx, enabled).with_ep_ctrl(idx, nak_in_write())
    }

    /// The bus-condition part of the interrupt handler's work: a
    /// pending reset or suspend condition masks its own interrupt
    /// source and leaves the flag for the bus poll to acknowledge.
    pub open spec fn handler_bus_regs(self) -> Usb {
        let a = if self.int_fg.bus_rst {
            Usb { int_en: IntEnable { bus_rst: false, ..self.int_en }, ..self }
        } else {
            self
        };
        if a.int_fg.suspend {
            Usb { int_en: IntEnable { suspend: false, ..a.int_en }, ..a }
        } else {
            a
        }
    }

    /// The transfer part of the interrupt handler's work: a completion
    /// with a good toggle (every IN handshake counts as good) masks
    /// the transfer source for the endpoint poll to re-arm, while a
    /// bad OUT toggle drops the packet by acknowledging the flag
    /// outright, leaving the source armed for the retransmission.
    pub open spec fn handler_transfer_regs(self) -> Usb {
        if self.int_fg.transfer {
            if self.int_st.token == TOKEN_OUT && !self.int_st.tog_ok {
                Usb { int_fg: IntFlags { transfer: false, ..self.int_fg }, ..self }
            } else {
                Usb { int_en: IntEnable { transfer: false, ..self.int_en }, ..self }
            }
        } else {
            self
        }
    }

    /// The start-of-frame part of the interrupt handler's work: the
    /// mark is acknowledged and otherwise ignored.
    pub open spec fn handler_sof_regs(self) -> Usb {
        if self.int_fg.hst_sof {
            Usb { int_fg: IntFlags { hst_sof: false, ..self.int_fg }, ..self }
        } else {
            self
        }
    }

    /// The register file after the shared interrupt handler has
    /// acknowledged everything that was pending.
    pub open spec fn handler_regs(self) -> Usb {
        self.handler_bus_regs().handler_transfer_regs().handler_sof_regs()
    }

    /// The controller as it comes up: invisible to the host, address
    /// zero, nothing pending, every endpoint disabled with cleared
    /// control registers.
    pub open spec fn spec_new() -> Usb {
        Usb {
            ctrl_dev_pu_en: false,
            dev_ad: 0,
            int_fg: IntFlags { bus_rst: false, suspend: false, transfer: false, hst_sof: false },
            int_en: IntEnable { bus_rst: false, suspend: false, transfer: false },
            int_st: IntStatus { endp: 0, token: 0, tog_ok: false },
            mis_st_suspend: false,
            rx_len: 0,
            uep0_t_len: 0,
            uep0_ctrl: EpControl { r_res: 0, t_res: 0, r_tog: false, t_tog: false },
            uep1_ctrl: EpControl { r_res: 0, t_res: 0, r_tog: false, t_tog: false },
            uep2_ctrl: EpControl { r_res: 0, t_res: 0, r_tog: false, t_tog: false },
            uep3_ctrl: EpControl { r_res: 0, t_res: 0, r_tog: false, t_tog: false },
            uep4_ctrl: EpControl { r_res: 0, t_res: 0, r_tog: false, t_tog: false },
            uep5_ctrl: EpControl { r_res: 0, t_res: 0, r_tog: false, t_tog: false },
            uep6_ctrl: EpControl { r_res: 0, t_res: 0, r_tog: false, t_tog: false },
            uep7_ctrl: EpControl { r_res: 0, t_res: 0, r_tog: false, t_tog: false },
            uep4_1_mod: Uep41Mod {
                uep1_rx_en: false,
                uep1_tx_en: false,
                uep4_rx_en: false,
                uep4_tx_en: false,
            },
            uep2_3_mod: Uep23Mod {
                uep2_rx_en: false,
                uep2_tx_en: false,
                uep3_rx_en: false,
                uep3_tx_en: false,
            },
            uep567_mod: Uep567Mod {
                uep5_rx_en: false,
                uep5_tx_en: false,
                uep6_rx_en: false,
                uep6_tx_en: false,
                uep7_rx_en: false,
                uep7_tx_en: false,
            },
        }
    }

    /// The controller's power-on register state.
    pub fn new() -> (usb: Usb)
        ensures
            usb == Usb::spec_new(),
    {
        Usb {
            ctrl_dev_pu_en: false,
            dev_ad: 0,
            int_fg: IntFlags { bus_rst: false, suspend: false, transfer: false, hst_sof: false },
            int_en: IntEnable { bus_rst: false, suspend: false, transfer: false },
            int_st: IntStatus { endp: 0, token: 0, tog_ok: false },
            mis_st_suspend: false,
            rx_len: 0,
            uep0_t_len: 0,
            uep0_ctrl: EpControl { r_res: 0, t_res: 0, r_tog: false, t_tog: false },
            uep1_ctrl: EpControl { r_res: 0, t_res: 0, r_tog: false, t_tog: false },
            uep2_ctrl: EpControl { r_res: 0, t_res: 0, r_tog: false, t_tog: false },
            uep3_ctrl: EpControl { r_res: 0, t_res: 0, r_tog: false, t_tog: false },
            uep4_ctrl: EpControl { r_res: 0, t_res: 0, r_tog: false, t_tog: false },
            uep5_ctrl: EpControl { r_res: 0, t_res: 0, r_tog: false, t_tog: false },
            uep6_ctrl: EpControl { r_res: 0, t_res: 0, r_tog: false, t_tog: false },
            uep7_ctrl: EpControl { r_res: 0, t_res: 0, r_tog: false, t_tog: false },
            uep4_1_mod: Uep41Mod {
                uep1_rx_en: false,
                uep1_tx_en: false,
                uep4_rx_en: false,
                uep4_tx_en: false,
            },
            uep2_3_mod: Uep23Mod {
                uep2_rx_en: false,
                uep2_tx_en: false,
                uep3_rx_en: false,
                uep3_tx_en: false,
            },
            uep567_mod: Uep567Mod {
                uep5_rx_en: false,
                uep5_tx_en: false,
                uep6_rx_en: false,
                uep6_tx_en: false,
                uep7_rx_en: false,
                uep7_tx_en: false,
            },
        }
    }
}

/// Reads endpoint `idx`'s control register.
fn ep_ctrl_read(usb: &Usb, idx: u8) -> (c: EpControl)
    requires
        idx < 8,
    ensures
        c == usb.ep_ctrl(idx as int),
{
    match idx {
        0 => usb.uep0_ctrl,
        1 => usb.uep1_ctrl,
        2 => usb.uep2_ctrl,
        3 => usb.uep3_ctrl,
        4 => usb.uep4_ctrl,
        5 => usb.uep5_ctrl,
        6 => usb.uep6_ctrl,
        _ => usb.uep7_ctrl,
    }
}

/// Writes endpoint `idx`'s control register.
fn ep_ctrl_write(usb: &mut Usb, idx: u8, c: EpControl)
    requires
        idx < 8,
    ensures
        *final(usb) == old(usb).with_ep_ctrl(idx as int, c),
{
    match idx {
        0 => {
            usb.uep0_ctrl = c;
        },
        1 => {
            usb.uep1_ctrl = c;
        },
        2 => {
            usb.uep2_ctrl = c;
        },
        3 => {
            usb.uep3_ctrl = c;
        },
        4 => {
            usb.uep4_ctrl = c;
        },
        5 => {
            usb.uep5_ctrl = c;
        },
        6 => {
            usb.uep6_ctrl = c;
        },
        _ => {
            usb.uep7_ctrl = c;
        },
    }
}

/// Sets endpoint `idx`'s receive-enable bit in its grouped mode
/// register.
fn set_rx_en_bit(usb: &mut Usb, idx: u8, enabled: bool)
    requires
        1 <= idx <= 7,
    ensures
        *final(usb) == old(usb).with_rx_en(idx as int, enabled),
{
    match idx {
        1 => {
            let m = usb.uep4_1_mod;
            usb.uep4_1_mod = Uep41Mod { uep1_rx_en: enabled, ..m };
        },
        2 => {
            let m = usb.uep2_3_mod;
            usb.uep2_3_mod = Uep23Mod { uep2_rx_en: enabled, ..m };
        },
        3 => {
            let m = usb.uep2_3_mod;
            usb.uep2_3_mod = Uep23Mod { uep3_rx_en: enabled, ..m };
        },
        4 => {
            let m = usb.uep4_1_mod;
            usb.uep4_1_mod = Uep41Mod { uep4_rx_en: enabled, ..m };
        },
        5 => {
            let m = usb.uep567_mod;
            usb.uep567_mod = Uep567Mod { uep5_rx_en: enabled, ..m };
        },
        6 => {
            let m = usb.uep567_mod;
            usb.uep567_mod = Uep567Mod { uep6_rx_en: enabled, ..m };
        },
        _ => {
            let m = usb.uep567_mod;
            usb.uep567_mod = Uep567Mod { uep7_rx_en: enabled, ..m };
        },
    }
}

/// Sets endpoint `idx`'s transmit-enable bit in its grouped mode
/// register.
fn set_tx_en_bit(usb: &mut Usb, idx: u8, enabled: bool)
    requires
        1 <= idx <= 7,
    ensures
        *final(usb) == old(usb).with_tx_en(idx as int, enabled),
{
    match idx {
        1 => {
            let m = usb.uep4_1_mod;
            usb.uep4_1_mod = Uep41Mod { uep1_tx_en: enabled, ..m };
        },
        2 => {
            let m = usb.uep2_3_mod;
            usb.uep2_3_mod = Uep23Mod { uep2_tx_en: enabled, ..m };
        },
        3 => {
            let m = usb.uep2_3_mod;
            usb.uep2_3_mod = Uep23Mod { uep3_tx_en: enabled, ..m };
        },
        4 => {
            let m = usb.uep4_1_mod;
            usb.uep4_1_mod = Uep41Mod { uep4_tx_en: enabled, ..m };
        },
        5 => {
            let m = usb.uep567_mod;
            usb.uep567_mod = Uep567Mod { uep5_tx_en: enabled, ..m };
        },
        6 => {
            let m = usb.uep567_mod;
            usb.uep567_mod = Uep567Mod { uep6_tx_en: enabled, ..m };
        },
        _ => {
            let m = usb.uep567_mod;
            usb.uep567_mod = Uep567Mod { uep7_tx_en: enabled, ..m };
        },
    }
}

/// The waker table of the USB driver: one slot for the bus condition
/// and one per endpoint index.
pub struct UsbWakers {
    /// Woken on a bus reset or suspend-condition interrupt.
    pub bus: WakerSlot,
    /// Woken on a transfer completion for the matching endpoint index.
    pub eps: Vec<WakerSlot>,
}

impl UsbWakers {
    /// The table carries one slot per endpoint index.
    pub open spec fn wf(self) -> bool {
        self.eps@.len() == 8
    }

    /// The continuation registered for endpoint `idx`, if any.
    pub open spec fn ep(self, idx: int) -> Option<u32> {
        self.eps@[idx].registered
    }

    /// A table with nothing registered anywhere.
    pub fn new() -> (wakers: UsbWakers)
        ensures
            wakers.wf(),
            wakers.bus.registered is None,
            forall|i: int| 0 <= i < 8 ==> #[trigger] wakers.ep(i) is None,
    {
        let mut eps: Vec<WakerSlot> = Vec::new();
        while eps.len() < 8
            invariant
                eps@.len() <= 8,
                forall|i: int| 0 <= i < eps@.len() ==> #[trigger] eps@[i].registered is None,
            decreases 8 - eps.len(),
        {
            eps.push(WakerSlot::new());
        }
        UsbWakers { bus: WakerSlot::new(), eps }
    }

    /// Registers `cont` as the computation waiting on endpoint `idx`,
    /// displacing any earlier registration.
    fn register_ep(&mut self, idx: u8, cont: u32)
        requires
            old(self).wf(),
            idx < 8,
        ensures
            final(self).wf(),
            final(self).bus == old(self).bus,
            final(self).eps@ == old(self).eps@.update(
                idx as int,
                WakerSlot { registered: Some(cont) },
            ),
    {
        let slot = &mut self.eps[idx as usize];
        slot.register(cont);
    }

    /// Wakes whatever is registered for endpoint `idx` and clears the
    /// slot.
    fn wake_ep(&mut self, idx: u8) -> (woken: Option<u32>)
        requires
            old(self).wf(),
            idx < 8,
        ensures
            final(self).wf(),
            final(self).bus == old(self).bus,
            woken == old(self).ep(idx as int),
            final(self).eps@ == old(self).eps@.update(idx as int, WakerSlot { registered: None }),
    {
        let slot = &mut self.eps[idx as usize];
        slot.wake()
    }
}

/// The USB driver before the bus is started: it owns the controller's
/// register file and allocates endpoints.
pub struct Driver {
    pub usb: Usb,
}

/// Marker of the host-to-device direction in an endpoint's type.
pub enum Out {
    Out,
}

/// Marker of the device-to-host direction in an endpoint's type.
pub enum In {
    In,
}

/// The direction a direction marker stands for.
pub trait Dir {
    /// The direction as a value of the specification.
    spec fn spec_dir() -> Direction;

    /// The direction as a value.
    fn dir() -> (d: Direction)
        ensures
            d == Self::spec_dir(),
    ;
}

impl Dir for Out {
    open spec fn spec_dir() -> Direction {
        Direction::Out
    }

    fn dir() -> (d: Direction) {
        Direction::Out
    }
}

impl Dir for In {
    open spec fn spec_dir() -> Direction {
        Direction::In
    }

    fn dir() -> (d: Direction) {
        Direction::In
    }
}

/// One allocated endpoint of a fixed direction.
pub struct Endpoint<D> {
    pub _phantom: PhantomData<D>,
    /// The endpoint's static description.
    pub info: EndpointInfo,
}

impl<D> Endpoint<D> {
    /// A data endpoint's index lies in 1 to 7; 0 is the control pipe.
    pub open spec fn wf(self) -> bool {
        1 <= self.info.addr.index <= 7
    }

    /// The endpoint's static description.
    pub fn info(&self) -> (info: &EndpointInfo)
        ensures
            *info == self.info,
    {
        &self.info
    }
}

impl Driver {
    /// Takes ownership of the controller's register file.
    pub fn new(usb: Usb) -> (driver: Driver)
        ensures
            driver.usb == usb,
    {
        Driver { usb }
    }

    /// Records an endpoint of the given description. The address must
    /// be given and name a data endpoint: index 1 to 7.
    fn alloc_endpoint<D: Dir>(
        &mut self,
        ep_type: EndpointType,
        ep_addr: Option<EndpointAddress>,
        max_packet_size: u16,
        interval_ms: u8,
    ) -> (r: Result<Endpoint<D>, EndpointAllocError>)
        requires
            ep_addr matches Some(a) && 1 <= a.index <= 7,
        ensures
            *final(self) == *old(self),
            r matches Ok(ep) && ep.info == (EndpointInfo {
                addr: ep_addr->Some_0,
                ep_type,
                max_packet_size,
                interval_ms,
            }) && ep.wf(),
    {
        Ok(
            Endpoint {
                _phantom: PhantomData,
                info: EndpointInfo { addr: ep_addr.unwrap(), ep_type, max_packet_size, interval_ms },
            },
        )
    }

    /// Records a host-to-device endpoint.
    pub fn alloc_endpoint_out(
        &mut self,
        ep_type: EndpointType,
        ep_addr: Option<EndpointAddress>,
        max_packet_size: u16,
        interval_ms: u8,
    ) -> (r: Result<Endpoint<Out>, EndpointAllocError>)
        requires
            ep_addr matches Some(a) && 1 <= a.index <= 7,
        ensures
            *final(self) == *old(self),
            r matches Ok(ep) && ep.info == (EndpointInfo {
                addr: ep_addr->Some_0,
                ep_type,
                max_packet_size,
                interval_ms,
            }) && ep.wf(),
    {
        self.alloc_endpoint(ep_type, ep_addr, max_packet_size, interval_ms)
    }

    /// Records a device-to-host endpoint.
    pub fn alloc_endpoint_in(
        &mut self,
        ep_type: EndpointType,
        ep_addr: Option<EndpointAddress>,
        max_packet_size: u16,
        interval_ms: u8,
    ) -> (r: Result<Endpoint<In>, EndpointAllocError>)
        requires
            ep_addr matches Some(a) && 1 <= a.index <= 7,
        ensures
            *final(self) == *old(self),
            r matches Ok(ep) && ep.info == (EndpointInfo {
                addr: ep_addr->Some_0,
                ep_type,
                max_packet_size,
                interval_ms,
            }) && ep.wf(),
    {
        self.alloc_endpoint(ep_type, ep_addr, max_packet_size, interval_ms)
    }

    /// Hands the register file to the bus, with an empty waker table,
    /// and yields the control pipe's placeholder.
    pub fn start(self, _control_max_packet_size: u16) -> (r: (Bus, ControlPipe))
        ensures
            r.0.usb == self.usb,
            r.0.wakers.wf(),
            r.0.wakers.bus.registered is None,
            forall|i: int| 0 <= i < 8 ==> #[trigger] r.0.wakers.ep(i) is None,
    {
        (Bus { usb: self.usb, wakers: UsbWakers::new() }, ControlPipe {})
    }
}

/// The started bus: the controller's register file and the waker
/// table, shared by the bus poll, the endpoints and the interrupt
/// handler.
pub struct Bus {
    pub usb: Usb,
    pub wakers: UsbWakers,
}

impl Bus {
    /// Hardware bring-up beyond the register defaults; nothing to do
    /// on this controller.
    pub fn init(&mut self)
        ensures
            *final(self) == *old(self),
    {
    }

    /// Connects the device: enables the pull-up that makes it visible
    /// to the host. The write shares its register with handler-touched
    /// state, so it runs under a critical section.
    pub fn enable(&mut self, cpu: &mut Cpu)
        ensures
            final(self).usb == (Usb { ctrl_dev_pu_en: true, ..old(self).usb }),
            final(self).wakers == old(self).wakers,
            *final(cpu) == *old(cpu),
    {
        let token = CriticalSection::acquire(cpu);
        self.usb.ctrl_dev_pu_en = true;
        CriticalSection::release(cpu, token);
    }

    /// Disconnecting is not performed on this controller.
    pub fn disable(&mut self)
        ensures
            *final(self) == *old(self),
    {
    }

    /// One poll step of the bus-condition wait. Registers `cont` in
    /// the bus waker slot first, then checks the interrupt flags: a
    /// pending reset is acknowledged — address cleared, every endpoint
    /// forced to NAK both ways — and reported; a pending
    /// suspend-condition change samples the suspend status bit before
    /// clearing the flag, so an immediately following resume cannot be
    /// lost, and reports suspend or resume accordingly; otherwise the
    /// wait stays pending. Each physical reset pulse is reported
    /// exactly once: acknowledging clears the flag that reported it.
    pub fn poll(&mut self, cpu: &mut Cpu, cont: u32) -> (r: Poll<Event>)
        ensures
            r == old(self).usb.poll_event(),
            final(self).usb == old(self).usb.poll_regs(),
            final(self).wakers.bus.registered == Some(cont),
            final(self).wakers.eps@ == old(self).wakers.eps@,
            *final(cpu) == *old(cpu),
    {
        self.wakers.bus.register(cont);
        if self.usb.int_fg.bus_rst {
            self.usb.dev_ad = 0;
            let nak = EpControl { r_res: RES_NAK, t_res: RES_NAK, r_tog: false, t_tog: false };
            self.usb.uep0_ctrl = nak;
            self.usb.uep1_ctrl = nak;
            self.usb.uep2_ctrl = nak;
            self.usb.uep3_ctrl = nak;
            self.usb.uep4_ctrl = nak;
            self.usb.uep5_ctrl = nak;
            self.usb.uep6_ctrl = nak;
            self.usb.uep7_ctrl = nak;
            self.usb.int_fg.bus_rst = false;
            let token = CriticalSection::acquire(cpu);
            self.usb.int_en.bus_rst = true;
            CriticalSection::release(cpu, token);
            Poll::Ready(Event::Reset)
        } else if self.usb.int_fg.suspend {
            // Sample the status bit before acknowledging: clearing
            // first could lose an immediately following resume.
            let suspended = self.usb.mis_st_suspend;
            self.usb.int_fg.suspend = false;
            let token = CriticalSection::acquire(cpu);
            self.usb.int_en.suspend = true;
            CriticalSection::release(cpu, token);
            if suspended {
                Poll::Ready(Event::Suspend)
            } else {
                Poll::Ready(Event::Resume)
            }
        } else {
            Poll::Pending
        }
    }

    /// Enables or disables one direction of one data endpoint: sets
    /// the direction's enable bit in the endpoint's grouped mode
    /// register — endpoints 1 and 4, 2 and 3, and 5 to 7 share one
    /// each — and simultaneously forces that direction to NAK. Any
    /// computation waiting on the endpoint is woken to re-check.
    pub fn endpoint_set_enabled(&mut self, ep_addr: EndpointAddress, enabled: bool) -> (woken:
        Option<u32>)
        requires
            old(self).wakers.wf(),
            1 <= ep_addr.index <= 7,
        ensures
            final(self).wakers.wf(),
            final(self).usb == if ep_addr.direction == Direction::Out {
                old(self).usb.set_rx_enabled(ep_addr.index as int, enabled)
            } else {
                old(self).usb.set_tx_enabled(ep_addr.index as int, enabled)
            },
            final(self).wakers.bus == old(self).wakers.bus,
            woken == old(self).wakers.ep(ep_addr.index as int),
            final(self).wakers.eps@ == old(self).wakers.eps@.update(
                ep_addr.index as int,
                WakerSlot { registered: None },
            ),
    {
        match ep_addr.direction {
            Direction::Out => {
                set_rx_en_bit(&mut self.usb, ep_addr.index, enabled);
                ep_ctrl_write(
                    &mut self.usb,
                    ep_addr.index,
                    EpControl { r_res: RES_NAK, t_res: RES_ACK, r_tog: false, t_tog: false },
                );
            },
            Direction::In => {
                set_tx_en_bit(&mut self.usb, ep_addr.index, enabled);
                ep_ctrl_write(
                    &mut self.usb,
                    ep_addr.index,
                    EpControl { r_res: RES_ACK, t_res: RES_NAK, r_tog: false, t_tog: false },
                );
            },
        }
        self.wakers.wake_ep(ep_addr.index)
    }

    /// Stalling endpoints is not performed on this controller.
    pub fn endpoint_set_stalled(&mut self, _ep_addr: EndpointAddress, _stalled: bool)
        ensures
            *final(self) == *old(self),
    {
    }

    /// No endpoint is ever reported stalled on this controller.
    pub fn endpoint_is_stalled(&mut self, _ep_addr: EndpointAddress) -> (r: bool)
        ensures
            *final(self) == *old(self),
            r == false,
    {
        false
    }

    /// Remote wakeup is not implemented by this hardware: surfaced
    /// synchronously, never attempted.
    pub fn remote_wakeup(&mut self) -> (r: Result<(), Unsupported>)
        ensures
            *final(self) == *old(self),
            r == Err::<(), Unsupported>(Unsupported),
    {
        Err(Unsupported)
    }
}

impl Endpoint<Out> {
    /// One poll step of the wait for this endpoint's OUT direction to
    /// be enabled: register first, then re-check the enable bit
    /// directly — the wait suspends only to avoid spinning, enabling
    /// itself is not interrupt-signalled.
    pub fn wait_enabled(&mut self, bus: &mut Bus, cont: u32) -> (r: Poll<()>)
        requires
            self.wf(),
            old(bus).wakers.wf(),
        ensures
            *final(self) == *old(self),
            final(bus).wakers.wf(),
            final(bus).usb == old(bus).usb,
            final(bus).wakers.bus == old(bus).wakers.bus,
            final(bus).wakers.eps@ == old(bus).wakers.eps@.update(
                old(self).info.addr.index as int,
                WakerSlot { registered: Some(cont) },
            ),
            r == if old(bus).usb.ep_rx_enabled(old(self).info.addr.index as int) {
                Poll::Ready(())
            } else {
                Poll::<()>::Pending
            },
    {
        bus.wakers.register_ep(self.info.addr.index, cont);
        let enabled = match self.info.addr.index {
            1 => bus.usb.uep4_1_mod.uep1_rx_en,
            2 => bus.usb.uep2_3_mod.uep2_rx_en,
            3 => bus.usb.uep2_3_mod.uep3_rx_en,
            4 => bus.usb.uep4_1_mod.uep4_rx_en,
            5 => bus.usb.uep567_mod.uep5_rx_en,
            6 => bus.usb.uep567_mod.uep6_rx_en,
            _ => bus.usb.uep567_mod.uep7_rx_en,
        };
        if enabled {
            Poll::Ready(())
        } else {
            Poll::Pending
        }
    }

    /// One poll step of a one-packet read. Registers `cont`, then
    /// checks for a transfer completion reported for this endpoint's
    /// index; completions for other endpoints are ignored. On an OUT
    /// completion the read succeeds exactly when the reported length
    /// equals `buf_len`, else it fails with `BufferOverflow`; any
    /// other token fails with `Disabled`. Whatever the outcome, the
    /// endpoint's OUT toggle flips once and the endpoint re-arms to
    /// NAK; the packet just handled is never silently followed by
    /// another.
    pub fn read(&mut self, bus: &mut Bus, cpu: &mut Cpu, cont: u32, buf_len: usize) -> (r: Poll<
        Result<usize, EndpointError>,
    >)
        requires
            self.wf(),
            old(bus).wakers.wf(),
        ensures
            *final(self) == *old(self),
            final(bus).wakers.wf(),
            r == old(bus).usb.read_poll_result(old(self).info.addr.index as int, buf_len),
            final(bus).usb == old(bus).usb.read_poll_regs(old(self).info.addr.index as int),
            final(bus).wakers.bus == old(bus).wakers.bus,
            final(bus).wakers.eps@ == old(bus).wakers.eps@.update(
                old(self).info.addr.index as int,
                WakerSlot { registered: Some(cont) },
            ),
            *final(cpu) == *old(cpu),
    {
        let idx = self.info.addr.index;
        bus.wakers.register_ep(idx, cont);
        if bus.usb.int_fg.transfer && bus.usb.int_st.endp == idx {
            let res: Poll<Result<usize, EndpointError>> = if bus.usb.int_st.token == TOKEN_OUT {
                let len = bus.usb.rx_len as usize;
                if len == buf_len {
                    Poll::Ready(Ok(len))
                } else {
                    Poll::Ready(Err(EndpointError::BufferOverflow))
                }
            } else {
                Poll::Ready(Err(EndpointError::Disabled))
            };
            let mut c = ep_ctrl_read(&bus.usb, idx);
            c.r_res = RES_NAK;
            c.r_tog = !c.r_tog;
            ep_ctrl_write(&mut bus.usb, idx, c);
            self.usb_ack_and_rearm(bus, cpu);
            res
        } else {
            Poll::Pending
        }
    }

    /// Acknowledges the shared transfer flag and re-arms its interrupt
    /// source; the enable register is shared with the handler, so the
    /// write runs under a critical section.
    fn usb_ack_and_rearm(&self, bus: &mut Bus, cpu: &mut Cpu)
        ensures
            final(bus).usb == (Usb {
                int_fg: IntFlags { transfer: false, ..old(bus).usb.int_fg },
                int_en: IntEnable { transfer: true, ..old(bus).usb.int_en },
                ..old(bus).usb
            }),
            final(bus).wakers == old(bus).wakers,
            *final(cpu) == *old(cpu),
    {
        bus.usb.int_fg.transfer = false;
        let token = CriticalSection::acquire(cpu);
        bus.usb.int_en.transfer = true;
        CriticalSection::release(cpu, token);
    }
}

impl Endpoint<In> {
    /// One poll step of the wait for this endpoint's IN direction to
    /// be enabled; the direct re-check twin of the OUT wait.
    pub fn wait_enabled(&mut self, bus: &mut Bus, cont: u32) -> (r: Poll<()>)
        requires
            self.wf(),
            old(bus).wakers.wf(),
        ensures
            *final(self) == *old(self),
            final(bus).wakers.wf(),
            final(bus).usb == old(bus).usb,
            final(bus).wakers.bus == old(bus).wakers.bus,
            final(bus).wakers.eps@ == old(bus).wakers.eps@.update(
                old(self).info.addr.index as int,
                WakerSlot { registered: Some(cont) },
            ),
            r == if old(bus).usb.ep_tx_enabled(old(self).info.addr.index as int) {
                Poll::Ready(())
            } else {
                Poll::<()>::Pending
            },
    {
        bus.wakers.register_ep(self.info.addr.index, cont);
        let enabled = match self.info.addr.index {
            1 => bus.usb.uep4_1_mod.uep1_tx_en,
            2 => bus.usb.uep2_3_mod.uep2_tx_en,
            3 => bus.usb.uep2_3_mod.uep3_tx_en,
            4 => bus.usb.uep4_1_mod.uep4_tx_en,
            5 => bus.usb.uep567_mod.uep5_tx_en,
            6 => bus.usb.uep567_mod.uep6_tx_en,
            _ => bus.usb.uep567_mod.uep7_tx_en,
        };
        if enabled {
            Poll::Ready(())
        } else {
            Poll::Pending
        }
    }

    /// One poll step of a one-packet write. Programs the transmit
    /// length register, registers `cont`, then checks for a transfer
    /// completion reported for this endpoint's index. Success exactly
    /// when the token confirms an IN handshake; any other token fails
    /// with `Disabled`. Whatever the outcome, the endpoint's IN toggle
    /// flips once and the endpoint re-arms to NAK. The length register
    /// is eight bits wide, so the buffer length must fit it.
    pub fn write(&mut self, bus: &mut Bus, cpu: &mut Cpu, cont: u32, buf_len: usize) -> (r: Poll<
        Result<(), EndpointError>,
    >)
        requires
            self.wf(),
            old(bus).wakers.wf(),
            buf_len <= u8::MAX,
        ensures
            *final(self) == *old(self),
            final(bus).wakers.wf(),
            r == old(bus).usb.write_poll_result(old(self).info.addr.index as int),
            final(bus).usb == old(bus).usb.write_poll_regs(
                old(self).info.addr.index as int,
                buf_len as u8,
            ),
            final(bus).wakers.bus == old(bus).wakers.bus,
            final(bus).wakers.eps@ == old(bus).wakers.eps@.update(
                old(self).info.addr.index as int,
                WakerSlot { registered: Some(cont) },
            ),
            *final(cpu) == *old(cpu),
    {
        let idx = self.info.addr.index;
        bus.usb.uep0_t_len = buf_len as u8;
        bus.wakers.register_ep(idx, cont);
        if bus.usb.int_fg.transfer && bus.usb.int_st.endp == idx {
            let res: Poll<Result<(), EndpointError>> = if bus.usb.int_st.token == TOKEN_IN {
                Poll::Ready(Ok(()))
            } else {
                Poll::Ready(Err(EndpointError::Disabled))
            };
            let mut c = ep_ctrl_read(&bus.usb, idx);
            c.t_res = RES_NAK;
            c.t_tog = !c.t_tog;
            ep_ctrl_write(&mut bus.usb, idx, c);
            bus.usb.int_fg.transfer = false;
            let token = CriticalSection::acquire(cpu);
            bus.usb.int_en.transfer = true;
            CriticalSection::release(cpu, token);
            res
        } else {
            Poll::Pending
        }
    }
}

/// The control pipe: control-transfer completion — setup and data
/// stages, status handshakes, address assignment — is an extension
/// point of this driver, not part of its contract.
pub struct ControlPipe {}

/// What the shared interrupt handler woke: at most the bus waiter and
/// at most one endpoint waiter.
#[derive(Clone, Copy, Debug, PartialEq, Eq)]
pub struct UsbWoken {
    pub bus: Option<u32>,
    pub ep: Option<u32>,
}

/// The bus-condition half of the interrupt handler: masks the source
/// of a pending reset or suspend condition and wakes the bus waiter.
fn handler_bus_conditions(usb: &mut Usb, slot: &mut WakerSlot) -> (woken: Option<u32>)
    ensures
        *final(usb) == old(usb).handler_bus_regs(),
        (old(usb).int_fg.bus_rst || old(usb).int_fg.suspend) ==> woken == old(slot).registered
            && final(slot).registered is None,
        !(old(usb).int_fg.bus_rst || old(usb).int_fg.suspend) ==> woken is None && *final(slot)
            == *old(slot),
{
    let mut woken: Option<u32> = None;
    if usb.int_fg.bus_rst {
        usb.int_en.bus_rst = false;
        woken = slot.wake();
    }
    if usb.int_fg.suspend {
        usb.int_en.suspend = false;
        // The slot is single: when the reset branch already woke it,
        // this second wake finds it empty and is a no-op.
        match slot.wake() {
            Some(id) => {
                woken = Some(id);
            },
            None => {},
        }
    }
    woken
}

/// The transfer half of the interrupt handler: wakes the reported
/// endpoint's waiter and masks the transfer source, except that an
/// OUT packet whose DATA toggle did not match is dropped by
/// acknowledging the flag outright, leaving the source armed for the
/// retransmission.
fn handler_transfer(usb: &mut Usb, wakers: &mut UsbWakers) -> (woken: Option<u32>)
    requires
        old(wakers).wf(),
        old(usb).int_fg.transfer ==> (old(usb).int_st.token == TOKEN_OUT || old(
            usb,
        ).int_st.token == TOKEN_IN) && old(usb).int_st.endp < 8,
    ensures
        final(wakers).wf(),
        *final(usb) == old(usb).handler_transfer_regs(),
        final(wakers).bus == old(wakers).bus,
        (old(usb).int_fg.transfer && (old(usb).int_st.token == TOKEN_IN
            || old(usb).int_st.tog_ok)) ==> woken == old(wakers).ep(old(usb).int_st.endp as int)
            && final(wakers).eps@ == old(wakers).eps@.update(
            old(usb).int_st.endp as int,
            WakerSlot { registered: None },
        ),
        !(old(usb).int_fg.transfer && (old(usb).int_st.token == TOKEN_IN
            || old(usb).int_st.tog_ok)) ==> woken is None && final(wakers).eps@ == old(
            wakers,
        ).eps@,
{
    let mut woken: Option<u32> = None;
    if usb.int_fg.transfer {
        if usb.int_st.token == TOKEN_OUT {
            if usb.int_st.tog_ok {
                woken = wakers.wake_ep(usb.int_st.endp);
                usb.int_en.transfer = false;
            } else {
                // Wrong DATA toggle: drop the packet and leave the
                // source armed; the host will retransmit.
                usb.int_fg.transfer = false;
            }
        } else {
            woken = wakers.wake_ep(usb.int_st.endp);
            usb.int_en.transfer = false;
        }
    }
    woken
}

/// The start-of-frame tail of the interrupt handler: acknowledge and
/// ignore.
fn handler_sof(usb: &mut Usb)
    ensures
        *final(usb) == old(usb).handler_sof_regs(),
{
    if usb.int_fg.hst_sof {
        usb.int_fg.hst_sof = false;
    }
}

/// The USB interrupt handler's work, run with interrupts masked. A
/// pending bus reset or suspend condition masks its own interrupt
/// source — the bus poll re-arms it after acknowledging — and wakes
/// the bus waiter. A transfer completion wakes the reported endpoint's
/// waiter and masks the transfer source, except that an OUT packet
/// whose DATA toggle did not match is dropped, leaving the source
/// armed for the retransmission. A start-of-frame mark is
/// acknowledged and ignored. A transfer completion with a token other
/// than OUT or IN, or an endpoint index the controller does not have,
/// is a hardware contract violation.
pub fn usb_interrupt(bus: &mut Bus) -> (woken: UsbWoken)
    requires
        old(bus).wakers.wf(),
        old(bus).usb.int_fg.transfer ==> (old(bus).usb.int_st.token == TOKEN_OUT || old(
            bus,
        ).usb.int_st.token == TOKEN_IN) && old(bus).usb.int_st.endp < 8,
    ensures
        final(bus).wakers.wf(),
        final(bus).usb == old(bus).usb.handler_regs(),
        (old(bus).usb.int_fg.bus_rst || old(bus).usb.int_fg.suspend) ==> woken.bus == old(
            bus,
        ).wakers.bus.registered && final(bus).wakers.bus.registered is None,
        !(old(bus).usb.int_fg.bus_rst || old(bus).usb.int_fg.suspend) ==> woken.bus is None
            && final(bus).wakers.bus == old(bus).wakers.bus,
        (old(bus).usb.int_fg.transfer && (old(bus).usb.int_st.token == TOKEN_IN || old(
            bus,
        ).usb.int_st.tog_ok)) ==> woken.ep == old(bus).wakers.ep(old(bus).usb.int_st.endp as int)
            && final(bus).wakers.eps@ == old(bus).wakers.eps@.update(
            old(bus).usb.int_st.endp as int,
            WakerSlot { registered: None },
        ),
        !(old(bus).usb.int_fg.transfer && (old(bus).usb.int_st.token == TOKEN_IN || old(
            bus,
        ).usb.int_st.tog_ok)) ==> woken.ep is None && final(bus).wakers.eps@ == old(
            bus,
        ).wakers.eps@,
{
    let bus_woken = handler_bus_conditions(&mut bus.usb, &mut bus.wakers.bus);
    let ep_woken = handler_transfer(&mut bus.usb, &mut bus.wakers);
    handler_sof(&mut bus.usb);
    UsbWoken { bus: bus_woken, ep: ep_woken }
}

/// A reset is reported exactly once per physical pulse: polling a
/// state with the reset flag set yields the reset event and a state
/// with the flag acknowledged, the address register cleared and every
/// endpoint forced to NAK in both directions with cleared toggles —
/// and polling that state again cannot yield another reset.
pub proof fn lemma_reset_reported_once(usb: Usb)
    requires
        usb.int_fg.bus_rst,
    ensures
        usb.poll_event() == Poll::Ready(Event::Reset),
        usb.poll_regs().dev_ad == 0,
        forall|i: int| 0 <= i < 8 ==> #[trigger] usb.poll_regs().ep_ctrl(i) == nak_both(),
        usb.poll_regs().poll_event() != Poll::Ready(Event::Reset),
{
}

/// One completed packet flips the polled endpoint's toggle for the
/// transfer's direction exactly once — on success and on both error
/// outcomes alike — re-arms that direction to NAK, leaves the other
/// direction's toggle alone, and touches no other endpoint's control
/// register.
pub proof fn lemma_toggle_flips_once_per_packet(usb: Usb, idx: int, t_len: u8)
    requires
        0 <= idx < 8,
        usb.transfer_complete_for(idx),
    ensures
        usb.read_poll_regs(idx).ep_ctrl(idx).r_tog == !usb.ep_ctrl(idx).r_tog,
        usb.read_poll_regs(idx).ep_ctrl(idx).r_res == RES_NAK,
        usb.read_poll_regs(idx).ep_ctrl(idx).t_tog == usb.ep_ctrl(idx).t_tog,
        usb.write_poll_regs(idx, t_len).ep_ctrl(idx).t_tog == !usb.ep_ctrl(idx).t_tog,
        usb.write_poll_regs(idx, t_len).ep_ctrl(idx).t_res == RES_NAK,
        usb.write_poll_regs(idx, t_len).ep_ctrl(idx).r_tog == usb.ep_ctrl(idx).r_tog,
        forall|j: int|
            0 <= j < 8 && j != idx ==> #[trigger] usb.read_poll_regs(idx).ep_ctrl(j)
                == usb.ep_ctrl(j) && usb.write_poll_regs(idx, t_len).ep_ctrl(j) == usb.ep_ctrl(j),
        usb.read_poll_regs(idx).int_fg.transfer == false,
        usb.write_poll_regs(idx, t_len).int_fg.transfer == false,
{
}

/// A completion reported for one endpoint is recognized only by the
/// poll of that endpoint: every other endpoint's read or write poll
/// stays pending and leaves the registers untouched.
pub proof fn lemma_completion_is_per_endpoint(usb: Usb, idx: int, other: int, buf_len: usize, t_len: u8)
    requires
        usb.int_st.endp == idx,
        other != idx,
    ensures
        usb.read_poll_result(other, buf_len) == Poll::<Result<usize, EndpointError>>::Pending,
        usb.read_poll_regs(other) == usb,
        usb.write_poll_result(other) == Poll::<Result<(), EndpointError>>::Pending,
        usb.write_poll_regs(other, t_len) == (Usb { uep0_t_len: t_len, ..usb }),
{
}

} // verus!
