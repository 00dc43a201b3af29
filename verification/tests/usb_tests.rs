use ch58x_hal::critical::Cpu;
use ch58x_hal::usb::{
    usb_interrupt, Bus, ControlPipe, Direction, Driver, EndpointAddress, EndpointError,
    EndpointType, Event, Poll, Unsupported, Usb, RES_ACK, RES_NAK, TOKEN_IN, TOKEN_OUT,
};

fn started_bus() -> (Bus, ControlPipe) {
    Driver::new(Usb::new()).start(64)
}

#[test]
fn bus_enable_connects_the_pull_up() {
    let (mut bus, _control) = started_bus();
    let mut cpu = Cpu { interrupts_enabled: true };
    bus.enable(&mut cpu);
    assert!(bus.usb.ctrl_dev_pu_en);
    assert!(cpu.interrupts_enabled);
}

#[test]
fn reset_is_acknowledged_and_reported_exactly_once() {
    let (mut bus, _control) = started_bus();
    let mut cpu = Cpu { interrupts_enabled: true };
    bus.usb.dev_ad = 5;
    bus.usb.uep3_ctrl.r_tog = true;
    bus.usb.uep3_ctrl.r_res = RES_ACK;
    bus.usb.int_fg.bus_rst = true;

    assert_eq!(bus.poll(&mut cpu, 1), Poll::Ready(Event::Reset));
    assert_eq!(bus.usb.dev_ad, 0);
    for ctrl in [
        bus.usb.uep0_ctrl,
        bus.usb.uep1_ctrl,
        bus.usb.uep2_ctrl,
        bus.usb.uep3_ctrl,
        bus.usb.uep4_ctrl,
        bus.usb.uep5_ctrl,
        bus.usb.uep6_ctrl,
        bus.usb.uep7_ctrl,
    ] {
        assert_eq!(ctrl.r_res, RES_NAK);
        assert_eq!(ctrl.t_res, RES_NAK);
        assert!(!ctrl.r_tog);
        assert!(!ctrl.t_tog);
    }
    assert!(!bus.usb.int_fg.bus_rst);
    assert!(bus.usb.int_en.bus_rst);
    assert!(cpu.interrupts_enabled);

    // No new physical pulse: the second poll cannot report a reset.
    assert_eq!(bus.poll(&mut cpu, 1), Poll::Pending);
}

#[test]
fn suspend_and_resume_follow_the_sampled_status_bit() {
    let (mut bus, _control) = started_bus();
    let mut cpu = Cpu { interrupts_enabled: true };
    bus.usb.int_fg.suspend = true;
    bus.usb.mis_st_suspend = true;
    assert_eq!(bus.poll(&mut cpu, 2), Poll::Ready(Event::Suspend));
    assert!(!bus.usb.int_fg.suspend);
    assert!(bus.usb.int_en.suspend);

    bus.usb.int_fg.suspend = true;
    bus.usb.mis_st_suspend = false;
    assert_eq!(bus.poll(&mut cpu, 2), Poll::Ready(Event::Resume));
}

#[test]
fn endpoint_set_enabled_touches_one_mode_register_and_naks() {
    let (mut bus, _control) = started_bus();
    let addr = EndpointAddress { index: 3, direction: Direction::Out };
    assert_eq!(bus.endpoint_set_enabled(addr, true), None);
    assert!(bus.usb.uep2_3_mod.uep3_rx_en);
    assert!(!bus.usb.uep2_3_mod.uep2_rx_en);
    assert!(!bus.usb.uep2_3_mod.uep3_tx_en);
    assert_eq!(bus.usb.uep3_ctrl.r_res, RES_NAK);

    let addr_in = EndpointAddress { index: 6, direction: Direction::In };
    assert_eq!(bus.endpoint_set_enabled(addr_in, true), None);
    assert!(bus.usb.uep567_mod.uep6_tx_en);
    assert!(!bus.usb.uep567_mod.uep6_rx_en);
    assert_eq!(bus.usb.uep6_ctrl.t_res, RES_NAK);

    assert_eq!(bus.endpoint_set_enabled(addr, false), None);
    assert!(!bus.usb.uep2_3_mod.uep3_rx_en);
}

#[test]
fn endpoint_set_enabled_wakes_the_endpoints_waiter() {
    let mut driver = Driver::new(Usb::new());
    let addr = EndpointAddress { index: 5, direction: Direction::Out };
    let mut ep = driver
        .alloc_endpoint_out(EndpointType::Bulk, Some(addr), 64, 0)
        .unwrap();
    let (mut bus, _control) = driver.start(64);

    // The waiter registers, finds the endpoint disabled, and pends.
    assert_eq!(ep.wait_enabled(&mut bus, 11), Poll::Pending);
    // Enabling displaces and wakes it; the re-check then succeeds.
    assert_eq!(bus.endpoint_set_enabled(addr, true), Some(11));
    assert_eq!(ep.wait_enabled(&mut bus, 11), Poll::Ready(()));
}

#[test]
fn read_succeeds_only_on_exact_length() {
    let mut driver = Driver::new(Usb::new());
    let addr = EndpointAddress { index: 2, direction: Direction::Out };
    let mut ep = driver
        .alloc_endpoint_out(EndpointType::Bulk, Some(addr), 64, 0)
        .unwrap();
    let (mut bus, _control) = driver.start(64);
    let mut cpu = Cpu { interrupts_enabled: true };

    // Simulated completion on endpoint 2, token OUT, 64 bytes.
    bus.usb.int_fg.transfer = true;
    bus.usb.int_st.endp = 2;
    bus.usb.int_st.token = TOKEN_OUT;
    bus.usb.rx_len = 64;

    let before = bus.usb.uep2_ctrl;
    assert_eq!(ep.read(&mut bus, &mut cpu, 21, 64), Poll::Ready(Ok(64)));
    // The toggle flipped exactly once and the endpoint re-armed to NAK.
    assert_eq!(bus.usb.uep2_ctrl.r_tog, !before.r_tog);
    assert_eq!(bus.usb.uep2_ctrl.r_res, RES_NAK);
    assert_eq!(bus.usb.uep2_ctrl.t_tog, before.t_tog);
    assert!(!bus.usb.int_fg.transfer);
    assert!(bus.usb.int_en.transfer);
    assert!(cpu.interrupts_enabled);
}

#[test]
fn read_length_mismatch_is_a_buffer_overflow() {
    let mut driver = Driver::new(Usb::new());
    let addr = EndpointAddress { index: 2, direction: Direction::Out };
    let mut ep = driver
        .alloc_endpoint_out(EndpointType::Bulk, Some(addr), 64, 0)
        .unwrap();
    let (mut bus, _control) = driver.start(64);
    let mut cpu = Cpu { interrupts_enabled: true };

    bus.usb.int_fg.transfer = true;
    bus.usb.int_st.endp = 2;
    bus.usb.int_st.token = TOKEN_OUT;
    bus.usb.rx_len = 32;

    let before = bus.usb.uep2_ctrl;
    assert_eq!(
        ep.read(&mut bus, &mut cpu, 21, 64),
        Poll::Ready(Err(EndpointError::BufferOverflow))
    );
    // The toggle flips on the error path too.
    assert_eq!(bus.usb.uep2_ctrl.r_tog, !before.r_tog);
    assert_eq!(bus.usb.uep2_ctrl.r_res, RES_NAK);
}

#[test]
fn read_token_mismatch_is_endpoint_disabled() {
    let mut driver = Driver::new(Usb::new());
    let addr = EndpointAddress { index: 2, direction: Direction::Out };
    let mut ep = driver
        .alloc_endpoint_out(EndpointType::Bulk, Some(addr), 64, 0)
        .unwrap();
    let (mut bus, _control) = driver.start(64);
    let mut cpu = Cpu { interrupts_enabled: true };

    bus.usb.int_fg.transfer = true;
    bus.usb.int_st.endp = 2;
    bus.usb.int_st.token = TOKEN_IN;
    bus.usb.rx_len = 64;

    let before = bus.usb.uep2_ctrl;
    assert_eq!(
        ep.read(&mut bus, &mut cpu, 21, 64),
        Poll::Ready(Err(EndpointError::Disabled))
    );
    assert_eq!(bus.usb.uep2_ctrl.r_tog, !before.r_tog);
}

#[test]
fn read_ignores_completions_for_other_endpoints() {
    let mut driver = Driver::new(Usb::new());
    let addr = EndpointAddress { index: 2, direction: Direction::Out };
    let mut ep = driver
        .alloc_endpoint_out(EndpointType::Bulk, Some(addr), 64, 0)
        .unwrap();
    let (mut bus, _control) = driver.start(64);
    let mut cpu = Cpu { interrupts_enabled: true };

    bus.usb.int_fg.transfer = true;
    bus.usb.int_st.endp = 3;
    bus.usb.int_st.token = TOKEN_OUT;
    bus.usb.rx_len = 64;

    let before = bus.usb;
    assert_eq!(ep.read(&mut bus, &mut cpu, 21, 64), Poll::Pending);
    // The shared interrupt state is left for the right endpoint.
    assert_eq!(bus.usb, before);
}

#[test]
fn write_succeeds_on_an_in_handshake() {
    let mut driver = Driver::new(Usb::new());
    let addr = EndpointAddress { index: 1, direction: Direction::In };
    let mut ep = driver
        .alloc_endpoint_in(EndpointType::Bulk, Some(addr), 64, 0)
        .unwrap();
    let (mut bus, _control) = driver.start(64);
    let mut cpu = Cpu { interrupts_enabled: true };

    bus.usb.int_fg.transfer = true;
    bus.usb.int_st.endp = 1;
    bus.usb.int_st.token = TOKEN_IN;

    let before = bus.usb.uep1_ctrl;
    assert_eq!(ep.write(&mut bus, &mut cpu, 31, 64), Poll::Ready(Ok(())));
    assert_eq!(bus.usb.uep0_t_len, 64);
    assert_eq!(bus.usb.uep1_ctrl.t_tog, !before.t_tog);
    assert_eq!(bus.usb.uep1_ctrl.t_res, RES_NAK);
    assert_eq!(bus.usb.uep1_ctrl.r_tog, before.r_tog);
    assert!(!bus.usb.int_fg.transfer);
    assert!(bus.usb.int_en.transfer);
}

#[test]
fn write_token_mismatch_is_endpoint_disabled() {
    let mut driver = Driver::new(Usb::new());
    let addr = EndpointAddress { index: 1, direction: Direction::In };
    let mut ep = driver
        .alloc_endpoint_in(EndpointType::Bulk, Some(addr), 64, 0)
        .unwrap();
    let (mut bus, _control) = driver.start(64);
    let mut cpu = Cpu { interrupts_enabled: true };

    bus.usb.int_fg.transfer = true;
    bus.usb.int_st.endp = 1;
    bus.usb.int_st.token = TOKEN_OUT;

    let before = bus.usb.uep1_ctrl;
    assert_eq!(
        ep.write(&mut bus, &mut cpu, 31, 64),
        Poll::Ready(Err(EndpointError::Disabled))
    );
    // The toggle flips on the error path too.
    assert_eq!(bus.usb.uep1_ctrl.t_tog, !before.t_tog);
    assert_eq!(bus.usb.uep1_ctrl.t_res, RES_NAK);
}

#[test]
fn interrupt_wakes_the_bus_waiter_on_reset() {
    let (mut bus, _control) = started_bus();
    let mut cpu = Cpu { interrupts_enabled: true };
    // The bus waiter registers and pends.
    assert_eq!(bus.poll(&mut cpu, 7), Poll::Pending);
    // The reset interrupt fires.
    bus.usb.int_fg.bus_rst = true;
    let woken = usb_interrupt(&mut bus);
    assert_eq!(woken.bus, Some(7));
    assert_eq!(woken.ep, None);
    assert!(!bus.usb.int_en.bus_rst);
    // The flag survives for the re-poll, which acknowledges it.
    assert_eq!(bus.poll(&mut cpu, 7), Poll::Ready(Event::Reset));
}

#[test]
fn interrupt_wakes_the_endpoint_waiter_and_the_repoll_completes() {
    let mut driver = Driver::new(Usb::new());
    let addr = EndpointAddress { index: 4, direction: Direction::Out };
    let mut ep = driver
        .alloc_endpoint_out(EndpointType::Bulk, Some(addr), 64, 0)
        .unwrap();
    let (mut bus, _control) = driver.start(64);
    let mut cpu = Cpu { interrupts_enabled: true };

    assert_eq!(ep.read(&mut bus, &mut cpu, 9, 16), Poll::Pending);

    bus.usb.int_fg.transfer = true;
    bus.usb.int_st.endp = 4;
    bus.usb.int_st.token = TOKEN_OUT;
    bus.usb.int_st.tog_ok = true;
    bus.usb.rx_len = 16;

    let woken = usb_interrupt(&mut bus);
    assert_eq!(woken.ep, Some(9));
    assert_eq!(woken.bus, None);
    assert!(!bus.usb.int_en.transfer);
    assert_eq!(ep.read(&mut bus, &mut cpu, 9, 16), Poll::Ready(Ok(16)));
}

#[test]
fn interrupt_drops_an_out_packet_with_a_bad_toggle() {
    let (mut bus, _control) = started_bus();
    bus.usb.int_en.transfer = true;
    bus.usb.int_fg.transfer = true;
    bus.usb.int_st.endp = 2;
    bus.usb.int_st.token = TOKEN_OUT;
    bus.usb.int_st.tog_ok = false;

    let woken = usb_interrupt(&mut bus);
    assert_eq!(woken.ep, None);
    // The packet is dropped: flag acknowledged, source still armed.
    assert!(!bus.usb.int_fg.transfer);
    assert!(bus.usb.int_en.transfer);
}

#[test]
fn interrupt_acknowledges_start_of_frame() {
    let (mut bus, _control) = started_bus();
    bus.usb.int_fg.hst_sof = true;
    let woken = usb_interrupt(&mut bus);
    assert_eq!(woken.bus, None);
    assert_eq!(woken.ep, None);
    assert!(!bus.usb.int_fg.hst_sof);
}

#[test]
fn allocation_records_the_endpoint_description() {
    let mut driver = Driver::new(Usb::new());
    let addr = EndpointAddress { index: 7, direction: Direction::In };
    let ep = driver
        .alloc_endpoint_in(EndpointType::Interrupt, Some(addr), 8, 10)
        .unwrap();
    let info = ep.info();
    assert_eq!(info.addr, addr);
    assert_eq!(info.ep_type, EndpointType::Interrupt);
    assert_eq!(info.max_packet_size, 8);
    assert_eq!(info.interval_ms, 10);
}

#[test]
fn unsupported_operations_are_surfaced_synchronously() {
    let (mut bus, _control) = started_bus();
    assert_eq!(bus.remote_wakeup(), Err(Unsupported));
    let addr = EndpointAddress { index: 1, direction: Direction::Out };
    assert!(!bus.endpoint_is_stalled(addr));
    bus.endpoint_set_stalled(addr, true);
    assert!(!bus.endpoint_is_stalled(addr));
    bus.init();
    bus.disable();
}
