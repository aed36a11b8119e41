use va108xx_spi::config::{clk_prescale, ConfigError, Hertz, Mode, Word, WordSize};
use va108xx_spi::engine::{transfer, Action, Exchange, LoopbackFifo};
use va108xx_spi::pins::{pin_cs_line, pin_role, AfPin, AltFunc, HwChipSelectId, Port, Role, SpiId};
use va108xx_spi::spi::{Ctrl0, Ctrl1, RegWrite, Spi, SpiConfig, TransferConfig};

fn pin(port: Port, num: u8, func: AltFunc) -> AfPin {
    AfPin { port, num, func }
}

fn spia_port_a_pins() -> (AfPin, AfPin, AfPin) {
    (
        pin(Port::PortA, 31, AltFunc::AltFunc1),
        pin(Port::PortA, 29, AltFunc::AltFunc1),
        pin(Port::PortA, 30, AltFunc::AltFunc1),
    )
}

fn spib_port_b_pins() -> (AfPin, AfPin, AfPin) {
    (
        pin(Port::PortB, 19, AltFunc::AltFunc1),
        pin(Port::PortB, 17, AltFunc::AltFunc1),
        pin(Port::PortB, 18, AltFunc::AltFunc1),
    )
}

const SYS_CLK: Hertz = Hertz(50_000_000);

#[test]
fn always_passes() {
    assert!(true);
}

#[test]
fn prescale_fifty_mhz_to_one_mhz() {
    assert_eq!(clk_prescale(Hertz(50_000_000), Hertz(1_000_000), 0), 50);
}

#[test]
fn prescale_with_divider_and_rounding() {
    assert_eq!(clk_prescale(Hertz(50_000_000), Hertz(1_000_000), 4), 10);
    assert_eq!(clk_prescale(Hertz(50_000_000), Hertz(3_000_000), 0), 16);
    assert_eq!(clk_prescale(Hertz(u32::MAX), Hertz(u32::MAX), 255), 0);
}

#[test]
fn mode_mapping_is_exact() {
    assert_eq!(Mode::Mode0.polarity_phase(), (false, false));
    assert_eq!(Mode::Mode1.polarity_phase(), (false, true));
    assert_eq!(Mode::Mode2.polarity_phase(), (true, false));
    assert_eq!(Mode::Mode3.polarity_phase(), (true, true));
}

#[test]
fn word_size_codes() {
    assert_eq!(WordSize::OneBit.code(), 0x00);
    assert_eq!(WordSize::FourBits.code(), 0x03);
    assert_eq!(WordSize::EightBits.code(), 0x07);
    assert_eq!(WordSize::SixteenBits.code(), 0x0f);
    assert_eq!(<u8 as Word>::word_reg(), 0x07);
    assert_eq!(<u16 as Word>::word_reg(), 0x0f);
}

#[test]
fn chip_select_codes() {
    assert_eq!(HwChipSelectId::Id0.code(), 0);
    assert_eq!(HwChipSelectId::Id7.code(), 7);
    assert_eq!(HwChipSelectId::Invalid.code(), 0xff);
}

#[test]
fn registry_lookups() {
    assert_eq!(pin_role(SpiId::SpiA, pin(Port::PortB, 9, AltFunc::AltFunc2)), Some(Role::Sck));
    assert_eq!(pin_role(SpiId::SpiB, pin(Port::PortB, 4, AltFunc::AltFunc1)), Some(Role::Mosi));
    assert_eq!(pin_role(SpiId::SpiB, pin(Port::PortA, 18, AltFunc::AltFunc2)), Some(Role::Miso));
    assert_eq!(pin_role(SpiId::SpiA, pin(Port::PortB, 9, AltFunc::AltFunc1)), None);
    assert_eq!(pin_role(SpiId::SpiC, pin(Port::PortA, 31, AltFunc::AltFunc1)), None);
    assert_eq!(
        pin_cs_line(SpiId::SpiA, pin(Port::PortB, 5, AltFunc::AltFunc2)),
        Some(HwChipSelectId::Id6)
    );
    assert_eq!(
        pin_cs_line(SpiId::SpiB, pin(Port::PortB, 12, AltFunc::AltFunc2)),
        Some(HwChipSelectId::Id0)
    );
    assert_eq!(
        pin_cs_line(SpiId::SpiB, pin(Port::PortB, 12, AltFunc::AltFunc1)),
        Some(HwChipSelectId::Id4)
    );
    assert_eq!(
        pin_cs_line(SpiId::SpiC, pin(Port::PortA, 20, AltFunc::AltFunc3)),
        Some(HwChipSelectId::Id4)
    );
    assert_eq!(pin_cs_line(SpiId::SpiA, pin(Port::PortA, 20, AltFunc::AltFunc1)), None);
}

#[test]
fn construction_accepts_registered_pins() {
    let a = Spi::<u8>::new(SpiId::SpiA, spia_port_a_pins(), SYS_CLK, SpiConfig::default(), false, None);
    assert!(a.is_ok());
    let b = Spi::<u16>::new(SpiId::SpiB, spib_port_b_pins(), SYS_CLK, SpiConfig::default(), false, None);
    assert!(b.is_ok());
}

#[test]
fn construction_rejects_wrong_pins() {
    let (sck, miso, mosi) = spia_port_a_pins();
    let r = Spi::<u8>::new(SpiId::SpiA, (mosi, miso, sck), SYS_CLK, SpiConfig::default(), true, None);
    assert_eq!(r.err(), Some(ConfigError::SckPin));
    let r = Spi::<u8>::new(SpiId::SpiA, (sck, mosi, mosi), SYS_CLK, SpiConfig::default(), true, None);
    assert_eq!(r.err(), Some(ConfigError::MisoPin));
    let r = Spi::<u8>::new(SpiId::SpiA, (sck, miso, miso), SYS_CLK, SpiConfig::default(), true, None);
    assert_eq!(r.err(), Some(ConfigError::MosiPin));
    let r = Spi::<u8>::new(SpiId::SpiB, spia_port_a_pins(), SYS_CLK, SpiConfig::default(), true, None);
    assert_eq!(r.err(), Some(ConfigError::SckPin));
    let r = Spi::<u8>::new(SpiId::SpiC, spia_port_a_pins(), SYS_CLK, SpiConfig::default(), true, None);
    assert_eq!(r.err(), Some(ConfigError::SckPin));
}

#[test]
fn construction_rejects_foreign_chip_select() {
    let tc = TransferConfig {
        spi_clk: Hertz(1_000_000),
        mode: Mode::Mode0,
        hw_cs: Some(pin(Port::PortB, 16, AltFunc::AltFunc1)),
        sod: false,
        blockmode: false,
    };
    let r = Spi::<u8>::new(SpiId::SpiA, spia_port_a_pins(), SYS_CLK, SpiConfig::default(), true, Some(&tc));
    assert_eq!(r.err(), Some(ConfigError::ChipSelectPin));
}

#[test]
fn init_writes_in_order() {
    let cfg = SpiConfig::default().loopback(true);
    let tc = TransferConfig::cfg_spia(
        Hertz(1_000_000),
        Mode::Mode3,
        Some(pin(Port::PortA, 27, AltFunc::AltFunc1)),
    )
    .unwrap();
    let mut spi = Spi::<u8>::new(SpiId::SpiA, spia_port_a_pins(), SYS_CLK, cfg, true, Some(&tc)).unwrap();
    let ctrl0 = Ctrl0 { size: 0x07, scrdv: 0, spo: true, sph: true };
    let ctrl1 = Ctrl1 {
        lbm: true,
        enable: false,
        ms: false,
        sod: false,
        ss: 1,
        blockmode: false,
        mdlycap: false,
    };
    let writes = spi.take_writes();
    assert_eq!(
        writes,
        vec![
            RegWrite::EnableClock(SpiId::SpiA),
            RegWrite::Ctrl0(ctrl0),
            RegWrite::Ctrl1(ctrl1),
            RegWrite::FifoClear { rx: true, tx: true },
            RegWrite::ClkPrescale(50),
            RegWrite::Ctrl1(Ctrl1 { enable: true, ..ctrl1 }),
        ]
    );
    assert!(spi.take_writes().is_empty());
    assert_eq!(spi.registers().clkprescale, 50);
    assert!(spi.registers().ctrl1.enable);
}

#[test]
fn init_without_transfer_config_uses_defaults() {
    let cfg = SpiConfig::default().master_mode(false).slave_output_disable(true);
    let mut spi = Spi::<u16>::new(SpiId::SpiB, spib_port_b_pins(), SYS_CLK, cfg, false, None).unwrap();
    let writes = spi.take_writes();
    assert_eq!(writes.len(), 5);
    assert_eq!(writes[0], RegWrite::Ctrl0(Ctrl0 { size: 0x0f, scrdv: 0, spo: false, sph: false }));
    assert_eq!(writes[3], RegWrite::ClkPrescale(2));
    let regs = spi.registers();
    assert!(regs.ctrl1.ms);
    assert!(regs.ctrl1.sod);
    assert_eq!(regs.ctrl1.ss, 0);
}

#[test]
fn config_builders() {
    let cfg = SpiConfig::default();
    assert!(!cfg.is_loopback() && !cfg.is_slave() && !cfg.is_slave_output_disabled());
    let cfg = cfg.loopback(true).master_mode(false).slave_output_disable(true);
    assert!(cfg.is_loopback() && cfg.is_slave() && cfg.is_slave_output_disabled());
    let cfg = cfg.master_mode(true);
    assert!(!cfg.is_slave());
}

#[test]
fn transfer_config_setters() {
    let mut tc = TransferConfig::cfg_spib(Hertz(2_000_000), Mode::Mode1, None).unwrap();
    assert!(!tc.sod && !tc.blockmode);
    tc.sod(true);
    tc.blockmode(true);
    tc.mode(Mode::Mode2);
    tc.frequency(Hertz(5));
    assert_eq!(
        tc,
        TransferConfig { spi_clk: Hertz(5), mode: Mode::Mode2, hw_cs: None, sod: true, blockmode: true }
    );
    let bad = TransferConfig::cfg_spib(Hertz(1), Mode::Mode0, Some(pin(Port::PortA, 28, AltFunc::AltFunc1)));
    assert_eq!(bad.err(), Some(ConfigError::ChipSelectPin));
}

#[test]
fn retarget_between_transfers() {
    let mut spi = Spi::<u8>::new(SpiId::SpiB, spib_port_b_pins(), SYS_CLK, SpiConfig::default(), false, None).unwrap();
    spi.take_writes();
    let cs = pin(Port::PortA, 14, AltFunc::AltFunc2);
    let mut t1 = TransferConfig::cfg_spib(Hertz(1_000_000), Mode::Mode0, Some(cs)).unwrap();
    t1.blockmode(true);
    assert_eq!(spi.cfg_transfer(&t1), Ok(()));
    let first = spi.registers();
    assert_eq!(first.clkprescale, 50);
    assert_eq!(first.ctrl1.ss, 3);
    assert!(first.ctrl1.blockmode);
    let t2 = TransferConfig::cfg_spib(Hertz(5_000_000), Mode::Mode2, None).unwrap();
    assert_eq!(spi.cfg_transfer(&t2), Ok(()));
    let second = spi.registers();
    assert_eq!(second.clkprescale, 10);
    assert_ne!(first.clkprescale, second.clkprescale);
    assert_eq!(second.ctrl1.ss, 3);
    assert!(!second.ctrl1.blockmode);
    assert!(second.ctrl0.spo && !second.ctrl0.sph);
    let writes = spi.take_writes();
    assert_eq!(writes.len(), 6);
    assert_eq!(writes[3], RegWrite::ClkPrescale(10));
}

#[test]
fn transfer_config_with_output_disabled_keeps_select() {
    let mut spi = Spi::<u8>::new(SpiId::SpiA, spia_port_a_pins(), SYS_CLK, SpiConfig::default(), false, None).unwrap();
    let mut tc = TransferConfig::cfg_spia(Hertz(1_000_000), Mode::Mode0, Some(pin(Port::PortA, 21, AltFunc::AltFunc1))).unwrap();
    tc.sod(true);
    assert_eq!(spi.cfg_transfer(&tc), Ok(()));
    assert!(spi.registers().ctrl1.sod);
    assert_eq!(spi.registers().ctrl1.ss, 0);
}

#[test]
fn transfer_config_rejects_foreign_chip_select_without_writes() {
    let mut spi = Spi::<u8>::new(SpiId::SpiA, spia_port_a_pins(), SYS_CLK, SpiConfig::default(), false, None).unwrap();
    spi.take_writes();
    let before = spi.registers();
    let tc = TransferConfig {
        spi_clk: Hertz(1_000_000),
        mode: Mode::Mode1,
        hw_cs: Some(pin(Port::PortB, 2, AltFunc::AltFunc1)),
        sod: false,
        blockmode: false,
    };
    assert_eq!(spi.cfg_transfer(&tc), Err(ConfigError::ChipSelectPin));
    assert_eq!(spi.registers(), before);
    assert!(spi.take_writes().is_empty());
}

#[test]
fn clock_and_mode_reconfiguration() {
    let mut spi = Spi::<u8>::new(SpiId::SpiA, spia_port_a_pins(), SYS_CLK, SpiConfig::default(), false, None).unwrap();
    spi.take_writes();
    spi.cfg_clock(Hertz(25_000_000));
    spi.cfg_mode(Mode::Mode1);
    assert_eq!(
        spi.take_writes(),
        vec![
            RegWrite::ClkPrescale(2),
            RegWrite::Ctrl0(Ctrl0 { size: 0x07, scrdv: 0, spo: false, sph: true }),
        ]
    );
}

#[test]
fn word_width_round_trip() {
    let spi = Spi::<u8>::new(SpiId::SpiA, spia_port_a_pins(), SYS_CLK, SpiConfig::default(), false, None).unwrap();
    let before = spi.registers();
    let wide = spi.into_u16();
    assert_eq!(wide.registers().ctrl0.size, 0x0f);
    let mut narrow = wide.into_u8();
    assert_eq!(narrow.registers(), before);
    let writes = narrow.take_writes();
    let n = writes.len();
    assert_eq!(writes[n - 2], RegWrite::Ctrl0(Ctrl0 { size: 0x0f, ..before.ctrl0 }));
    assert_eq!(writes[n - 1], RegWrite::Ctrl0(before.ctrl0));
}

#[test]
fn release_and_downgrade() {
    let cfg = SpiConfig::default().loopback(true);
    let spi = Spi::<u8>::new(SpiId::SpiA, spia_port_a_pins(), SYS_CLK, cfg, false, None).unwrap();
    assert_eq!(spi.spi(), SpiId::SpiA);
    let (id, pins, cfg) = spi.release();
    assert_eq!(id, SpiId::SpiA);
    assert_eq!(pins, spia_port_a_pins());
    assert!(cfg.is_loopback());
    let spi = Spi::<u8>::new(id, pins, SYS_CLK, cfg, false, None).unwrap();
    let base = spi.downgrade();
    assert_eq!(base.spi(), SpiId::SpiA);
    assert_eq!(base.sys_clk(), SYS_CLK);
}

#[test]
fn exchange_schedule_for_ten_words() {
    let mut ex = Exchange::new(10);
    let mut trace = Vec::new();
    loop {
        let a = ex.next_action();
        trace.push(a);
        match a {
            Action::Send(_) => ex.sent_one(),
            Action::Receive(_) => ex.received_one(),
            Action::Done => break,
        }
    }
    let mut expected: Vec<Action> = (0..9).map(Action::Send).collect();
    expected.push(Action::Receive(0));
    expected.push(Action::Send(9));
    expected.extend((1..10).map(Action::Receive));
    expected.push(Action::Done);
    assert_eq!(trace, expected);
}

#[test]
fn empty_exchange_is_done_at_once() {
    let ex = Exchange::new(0);
    assert_eq!(ex.next_action(), Action::Done);
    let mut port: LoopbackFifo<u8> = LoopbackFifo::new();
    let mut words: Vec<u8> = Vec::new();
    transfer(&mut port, &mut words);
    va108xx_spi::engine::write(&mut port, &words);
    assert_eq!(port.data_writes(), 0);
    assert_eq!(port.data_reads(), 0);
}

#[test]
fn loopback_transfer_returns_ten_words() {
    let mut port: LoopbackFifo<u8> = LoopbackFifo::new();
    let mut words: Vec<u8> = vec![0x11, 0x22, 0x33, 0x44, 0x55, 0x66, 0x77, 0x88, 0x99, 0xAA];
    transfer(&mut port, &mut words);
    assert_eq!(words, vec![0x11, 0x22, 0x33, 0x44, 0x55, 0x66, 0x77, 0x88, 0x99, 0xAA]);
    assert_eq!(port.data_writes(), 10);
    assert_eq!(port.data_reads(), 10);
    assert_eq!(port.in_flight(), 0);
}

#[test]
fn send_and_receive_counts_balance() {
    for len in [1usize, 7, 8, 9, 40] {
        let mut port: LoopbackFifo<u16> = LoopbackFifo::new();
        let mut words: Vec<u16> = (0..len as u16).map(|i| i.wrapping_mul(0x0101)).collect();
        let copy = words.clone();
        transfer(&mut port, &mut words);
        assert_eq!(words, copy);
        assert_eq!(port.data_writes(), len);
        assert_eq!(port.data_reads(), len);
        va108xx_spi::engine::write(&mut port, &copy);
        assert_eq!(port.data_writes(), 2 * len);
        assert_eq!(port.data_reads(), 2 * len);
    }
}

#[test]
fn loopback_fifo_refuses_when_full_or_empty() {
    let mut port: LoopbackFifo<u8> = LoopbackFifo::new();
    assert_eq!(port.try_receive(), None);
    for i in 0..16u8 {
        assert!(port.try_send(i));
    }
    assert!(!port.try_send(16));
    assert_eq!(port.data_writes(), 16);
    assert_eq!(port.try_receive(), Some(0));
    assert_eq!(port.in_flight(), 15);
}

#[test]
fn transfer_config_without_chip_select_keeps_select_line() {
    let cfg = SpiConfig::default().slave_output_disable(true);
    let cs = pin(Port::PortA, 25, AltFunc::AltFunc1);
    let tc0 = TransferConfig::cfg_spia(Hertz(1_000_000), Mode::Mode0, Some(cs)).unwrap();
    let mut spi = Spi::<u8>::new(SpiId::SpiA, spia_port_a_pins(), SYS_CLK, cfg, false, Some(&tc0)).unwrap();
    assert!(spi.registers().ctrl1.sod);
    assert_eq!(spi.registers().ctrl1.ss, 3);
    let tc = TransferConfig::cfg_spia(Hertz(2_000_000), Mode::Mode3, None).unwrap();
    assert_eq!(spi.cfg_transfer(&tc), Ok(()));
    let regs = spi.registers();
    assert!(!regs.ctrl1.sod);
    assert_eq!(regs.ctrl1.ss, 3);
    assert!(regs.ctrl0.spo && regs.ctrl0.sph);
    assert_eq!(regs.clkprescale, 25);
}
