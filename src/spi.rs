//! Bus handle: bus configuration, initialization, per-transfer reconfiguration and
//! word-width conversion.
//!
//! A handle keeps an image of the control registers as they were last written and
//! a log of the register writes it has decided on, in order, that the caller has
//! not yet applied to the peripheral.
use vstd::prelude::*;

use core::marker::PhantomData;

use crate::config::{
    clk_prescale, mode_phase, mode_polarity, prescale_for, resolve_cs, resolved_cs, ConfigError,
    Hertz, Mode, Word, DEFAULT_CLK_PRESCALE,
};
use crate::pins::{cs_code, data_role, pin_role, AfPin, HwChipSelectId, Role, SpiId};

verus! {

/// Configuration of the whole bus.
pub struct SpiConfig {
    /// Serial clock rate divider. Together with the clock prescale register it
    /// sets the bus clock in master mode.
    pub scrdv: u8,
    /// Slave mode when set (master when clear).
    ms: bool,
    /// Slave output disable.
    sod: bool,
    /// Loopback: data-out tied to data-in inside the peripheral.
    lbm: bool,
    /// Master delayed capture.
    pub mdlycap: bool,
}

impl Clone for SpiConfig {
    fn clone(&self) -> (r: Self)
        ensures
            r.spec_scrdv() == self.spec_scrdv(),
            r.spec_ms() == self.spec_ms(),
            r.spec_sod() == self.spec_sod(),
            r.spec_lbm() == self.spec_lbm(),
            r.spec_mdlycap() == self.spec_mdlycap(),
    {
        SpiConfig {
            scrdv: self.scrdv,
            ms: self.ms,
            sod: self.sod,
            lbm: self.lbm,
            mdlycap: self.mdlycap,
        }
    }
}

impl Default for SpiConfig {
    /// Master mode, no divider, every flag clear.
    fn default() -> (r: Self)
        ensures
            r.spec_scrdv() == 0,
            !r.spec_ms(),
            !r.spec_sod(),
            !r.spec_lbm(),
            !r.spec_mdlycap(),
    {
        SpiConfig { scrdv: 0, ms: false, sod: false, lbm: false, mdlycap: false }
    }
}

impl SpiConfig {
    /// Slave-mode bit.
    pub closed spec fn spec_ms(&self) -> bool {
        self.ms
    }

    /// Slave-output-disable bit.
    pub closed spec fn spec_sod(&self) -> bool {
        self.sod
    }

    /// Serial clock rate divider.
    pub closed spec fn spec_scrdv(&self) -> u8 {
        self.scrdv
    }

    /// Master delayed capture bit.
    pub closed spec fn spec_mdlycap(&self) -> bool {
        self.mdlycap
    }

    /// Loopback bit.
    pub closed spec fn spec_lbm(&self) -> bool {
        self.lbm
    }

    pub fn loopback(self, enable: bool) -> (r: Self)
        ensures
            r.spec_lbm() == enable,
            r.spec_ms() == self.spec_ms(),
            r.spec_sod() == self.spec_sod(),
            r.spec_scrdv() == self.spec_scrdv(),
            r.spec_mdlycap() == self.spec_mdlycap(),
    {
        let mut s = self;
        s.lbm = enable;
        s
    }

    pub fn master_mode(self, master: bool) -> (r: Self)
        ensures
            r.spec_ms() == !master,
            r.spec_lbm() == self.spec_lbm(),
            r.spec_sod() == self.spec_sod(),
            r.spec_scrdv() == self.spec_scrdv(),
            r.spec_mdlycap() == self.spec_mdlycap(),
    {
        let mut s = self;
        s.ms = !master;
        s
    }

    pub fn slave_output_disable(self, sod: bool) -> (r: Self)
        ensures
            r.spec_sod() == sod,
            r.spec_ms() == self.spec_ms(),
            r.spec_lbm() == self.spec_lbm(),
            r.spec_scrdv() == self.spec_scrdv(),
            r.spec_mdlycap() == self.spec_mdlycap(),
    {
        let mut s = self;
        s.sod = sod;
        s
    }

    pub fn is_loopback(&self) -> (r: bool)
        ensures
            r == self.spec_lbm(),
    {
        self.lbm
    }

    pub fn is_slave(&self) -> (r: bool)
        ensures
            r == self.spec_ms(),
    {
        self.ms
    }

    pub fn is_slave_output_disabled(&self) -> (r: bool)
        ensures
            r == self.spec_sod(),
    {
        self.sod
    }
}

/// Settings of one transaction, which can change between transactions to address
/// another device on the same bus.
#[derive(Debug, Clone, Copy, PartialEq, Eq, Structural)]
pub struct TransferConfig {
    pub spi_clk: Hertz,
    pub mode: Mode,
    /// Hardware chip-select pin; takes effect only while slave output is enabled.
    pub hw_cs: Option<AfPin>,
    /// Slave output disable.
    pub sod: bool,
    pub blockmode: bool,
}

impl TransferConfig {
    /// A transfer configuration for peripheral `spi`, with slave output enabled and
    /// block mode off; refused when `hw_cs` drives no chip-select line of `spi`.
    pub fn new(spi: SpiId, spi_clk: Hertz, mode: Mode, hw_cs: Option<AfPin>) -> (r: Result<
        Self,
        ConfigError,
    >)
        ensures
            r is Ok <==> resolved_cs(spi, hw_cs) is Some,
            r is Err ==> r == Err::<Self, ConfigError>(ConfigError::ChipSelectPin),
            r matches Ok(c) ==> c == (TransferConfig {
                spi_clk,
                mode,
                hw_cs,
                sod: false,
                blockmode: false,
            }),
    {
        match resolve_cs(spi, hw_cs) {
            Ok(_) => Ok(TransferConfig { spi_clk, mode, hw_cs, sod: false, blockmode: false }),
            Err(e) => Err(e),
        }
    }

    /// A transfer configuration for the first peripheral.
    pub fn cfg_spia(spi_clk: Hertz, mode: Mode, hw_cs: Option<AfPin>) -> (r: Result<
        Self,
        ConfigError,
    >)
        ensures
            r is Ok <==> resolved_cs(SpiId::SpiA, hw_cs) is Some,
            r is Err ==> r == Err::<Self, ConfigError>(ConfigError::ChipSelectPin),
            r matches Ok(c) ==> c == (TransferConfig {
                spi_clk,
                mode,
                hw_cs,
                sod: false,
                blockmode: false,
            }),
    {
        Self::new(SpiId::SpiA, spi_clk, mode, hw_cs)
    }

    /// A transfer configuration for the second peripheral.
    pub fn cfg_spib(spi_clk: Hertz, mode: Mode, hw_cs: Option<AfPin>) -> (r: Result<
        Self,
        ConfigError,
    >)
        ensures
            r is Ok <==> resolved_cs(SpiId::SpiB, hw_cs) is Some,
            r is Err ==> r == Err::<Self, ConfigError>(ConfigError::ChipSelectPin),
            r matches Ok(c) ==> c == (TransferConfig {
                spi_clk,
                mode,
                hw_cs,
                sod: false,
                blockmode: false,
            }),
    {
        Self::new(SpiId::SpiB, spi_clk, mode, hw_cs)
    }

    /// Sets slave output disable.
    pub fn sod(&mut self, sod: bool)
        ensures
            *final(self) == (TransferConfig { sod, ..*old(self) }),
    {
        self.sod = sod;
    }

    pub fn blockmode(&mut self, blockmode: bool)
        ensures
            *final(self) == (TransferConfig { blockmode, ..*old(self) }),
    {
        self.blockmode = blockmode;
    }

    pub fn mode(&mut self, mode: Mode)
        ensures
            *final(self) == (TransferConfig { mode, ..*old(self) }),
    {
        self.mode = mode;
    }

    pub fn frequency(&mut self, spi_clk: Hertz)
        ensures
            *final(self) == (TransferConfig { spi_clk, ..*old(self) }),
    {
        self.spi_clk = spi_clk;
    }
}

/// Control register 0: word size, serial clock rate divider, polarity, phase.
#[derive(Debug, Clone, Copy, PartialEq, Eq, Structural)]
pub struct Ctrl0 {
    pub size: u8,
    pub scrdv: u8,
    pub spo: bool,
    pub sph: bool,
}

/// Control register 1: loopback, enable, slave mode, slave output disable,
/// slave-select line, block mode, master delayed capture.
#[derive(Debug, Clone, Copy, PartialEq, Eq, Structural)]
pub struct Ctrl1 {
    pub lbm: bool,
    pub enable: bool,
    pub ms: bool,
    pub sod: bool,
    pub ss: u8,
    pub blockmode: bool,
    pub mdlycap: bool,
}

/// Image of the writable configuration registers.
#[derive(Debug, Clone, Copy, PartialEq, Eq, Structural)]
pub struct Registers {
    pub ctrl0: Ctrl0,
    pub ctrl1: Ctrl1,
    pub clkprescale: u32,
}

/// One write the caller applies to the peripheral, in the order handed out.
#[derive(Debug, Clone, Copy, PartialEq, Eq, Structural)]
pub enum RegWrite {
    /// Turn on the peripheral's clock gate.
    EnableClock(SpiId),
    Ctrl0(Ctrl0),
    Ctrl1(Ctrl1),
    /// Flush the receive and transmit FIFOs.
    FifoClear { rx: bool, tx: bool },
    ClkPrescale(u32),
}

/// Control register 0 for a word size, divider and mode.
pub open spec fn ctrl0_for(size: u8, scrdv: u8, mode: Mode) -> Ctrl0 {
    Ctrl0 { size, scrdv, spo: mode_polarity(mode), sph: mode_phase(mode) }
}

/// Control register 1 as first written: the bus configuration and the slave-select
/// line, with the peripheral still disabled and block mode off.
pub open spec fn ctrl1_for(cfg: SpiConfig, ss: u8) -> Ctrl1 {
    Ctrl1 {
        lbm: cfg.spec_lbm(),
        enable: false,
        ms: cfg.spec_ms(),
        sod: cfg.spec_sod(),
        ss,
        blockmode: false,
        mdlycap: cfg.spec_mdlycap(),
    }
}

/// Mode set at initialization: that of the transfer configuration, else mode 0.
pub open spec fn init_mode(tc: Option<TransferConfig>) -> Mode {
    match tc {
        Some(t) => t.mode,
        None => Mode::Mode0,
    }
}

/// Clock prescale set at initialization.
pub open spec fn init_prescale(sys_clk: Hertz, scrdv: u8, tc: Option<TransferConfig>) -> int {
    match tc {
        Some(t) => prescale_for(sys_clk.0, t.spi_clk.0, scrdv),
        None => DEFAULT_CLK_PRESCALE as int,
    }
}

/// Slave-select line set at initialization: the bound chip-select's, else 0.
pub open spec fn init_ss(spi: SpiId, tc: Option<TransferConfig>) -> u8 {
    match tc {
        Some(t) => match t.hw_cs {
            Some(pin) => cs_code(resolved_cs(spi, Some(pin))->0),
            None => 0,
        },
        None => 0,
    }
}

/// The writes of initialization, in order: clock gate (if asked for), control
/// register 0, control register 1, FIFO flush, clock prescale, and enabling the
/// peripheral last.
pub open spec fn init_writes(spi: SpiId, enable_clock: bool, regs: Registers) -> Seq<RegWrite> {
    let first = if enable_clock {
        seq![RegWrite::EnableClock(spi)]
    } else {
        Seq::empty()
    };
    first + seq![
        RegWrite::Ctrl0(regs.ctrl0),
        RegWrite::Ctrl1(Ctrl1 { enable: false, ..regs.ctrl1 }),
        RegWrite::FifoClear { rx: true, tx: true },
        RegWrite::ClkPrescale(regs.clkprescale),
        RegWrite::Ctrl1(regs.ctrl1),
    ]
}

/// Control register 1 after a transfer configuration that resolved to `cs`.
pub open spec fn ctrl1_after(c: Ctrl1, tc: TransferConfig, cs: HwChipSelectId) -> Ctrl1 {
    if tc.sod {
        Ctrl1 { sod: true, blockmode: tc.blockmode, ..c }
    } else if tc.hw_cs is Some {
        Ctrl1 { sod: false, ss: cs_code(cs), blockmode: tc.blockmode, ..c }
    } else {
        Ctrl1 { sod: false, blockmode: tc.blockmode, ..c }
    }
}

/// Whether the three pins may serve as clock, data-in and data-out of `spi`.
pub open spec fn pins_valid(spi: SpiId, pins: (AfPin, AfPin, AfPin)) -> bool {
    &&& data_role(spi, pins.0) == Some(Role::Sck)
    &&& data_role(spi, pins.1) == Some(Role::Miso)
    &&& data_role(spi, pins.2) == Some(Role::Mosi)
}

/// The error construction reports, checking clock, data-in, data-out and
/// chip-select pin in that order; none when all are registered.
pub open spec fn wiring_error(
    spi: SpiId,
    pins: (AfPin, AfPin, AfPin),
    tc: Option<TransferConfig>,
) -> Option<ConfigError> {
    if data_role(spi, pins.0) != Some(Role::Sck) {
        Some(ConfigError::SckPin)
    } else if data_role(spi, pins.1) != Some(Role::Miso) {
        Some(ConfigError::MisoPin)
    } else if data_role(spi, pins.2) != Some(Role::Mosi) {
        Some(ConfigError::MosiPin)
    } else if tc is Some && resolved_cs(spi, tc->0.hw_cs) is None {
        Some(ConfigError::ChipSelectPin)
    } else {
        None
    }
}

/// Bus handle without pins, for words of type `W`.
pub struct SpiBase<W> {
    spi: SpiId,
    cfg: SpiConfig,
    sys_clk: Hertz,
    regs: Registers,
    pending: Vec<RegWrite>,
    _word: PhantomData<W>,
}

impl<W: Word> SpiBase<W> {
    pub closed spec fn spec_spi(&self) -> SpiId {
        self.spi
    }

    pub closed spec fn spec_cfg(&self) -> SpiConfig {
        self.cfg
    }

    pub closed spec fn spec_sys_clk(&self) -> Hertz {
        self.sys_clk
    }

    /// The registers as last written.
    pub closed spec fn spec_regs(&self) -> Registers {
        self.regs
    }

    /// Writes decided on and not yet handed out, oldest first.
    pub closed spec fn spec_pending(&self) -> Seq<RegWrite> {
        self.pending@
    }

    /// The word-size field matches `W`, the divider matches the configuration, and
    /// the slave-select field fits its three bits.
    pub open spec fn wf(&self) -> bool {
        &&& self.spec_regs().ctrl0.size == W::size_code()
        &&& self.spec_regs().ctrl0.scrdv == self.spec_cfg().spec_scrdv()
        &&& self.spec_regs().ctrl1.ss <= 7
    }

    pub fn spi(&self) -> (r: SpiId)
        ensures
            r == self.spec_spi(),
    {
        self.spi
    }

    pub fn sys_clk(&self) -> (r: Hertz)
        ensures
            r == self.spec_sys_clk(),
    {
        self.sys_clk
    }

    pub fn registers(&self) -> (r: Registers)
        ensures
            r == self.spec_regs(),
    {
        self.regs
    }

    /// Hands out the pending register writes, oldest first, and forgets them.
    pub fn take_writes(&mut self) -> (r: Vec<RegWrite>)
        ensures
            r@ == old(self).spec_pending(),
            final(self).spec_pending() == Seq::<RegWrite>::empty(),
            final(self).spec_regs() == old(self).spec_regs(),
            final(self).spec_spi() == old(self).spec_spi(),
            final(self).spec_cfg() == old(self).spec_cfg(),
            final(self).spec_sys_clk() == old(self).spec_sys_clk(),
    {
        let mut out: Vec<RegWrite> = Vec::new();
        core::mem::swap(&mut out, &mut self.pending);
        out
    }

    /// Retargets the bus clock: rewrites the clock prescale for `spi_clk`.
    pub fn cfg_clock(&mut self, spi_clk: Hertz)
        requires
            old(self).wf(),
            spi_clk.0 > 0,
        ensures
            final(self).wf(),
            clock_applied(*old(self), *final(self), spi_clk),
    {
        let p = clk_prescale(self.sys_clk, spi_clk, self.cfg.scrdv);
        self.regs.clkprescale = p;
        self.pending.push(RegWrite::ClkPrescale(p));
    }

    /// Rewrites the polarity and phase bits for `mode`.
    pub fn cfg_mode(&mut self, mode: Mode)
        requires
            old(self).wf(),
        ensures
            final(self).wf(),
            mode_applied(*old(self), *final(self), mode),
    {
        let (cpo, cph) = mode.polarity_phase();
        self.regs.ctrl0.spo = cpo;
        self.regs.ctrl0.sph = cph;
        self.pending.push(RegWrite::Ctrl0(self.regs.ctrl0));
    }

    /// Applies a transfer configuration: clock prescale, then polarity and phase,
    /// then slave output disable, slave-select line and block mode. A chip-select
    /// pin that drives no line of this peripheral is refused before any write.
    pub fn cfg_transfer(&mut self, transfer_cfg: &TransferConfig) -> (r: Result<(), ConfigError>)
        requires
            old(self).wf(),
            transfer_cfg.spi_clk.0 > 0,
        ensures
            final(self).wf(),
            transfer_cfg_applied(*old(self), *final(self), *transfer_cfg, r),
    {
        let cs = match resolve_cs(self.spi, transfer_cfg.hw_cs) {
            Ok(cs) => cs,
            Err(e) => {
                return Err(e);
            },
        };
        self.cfg_clock(transfer_cfg.spi_clk);
        self.cfg_mode(transfer_cfg.mode);
        if transfer_cfg.sod {
            self.regs.ctrl1.sod = true;
        } else if transfer_cfg.hw_cs.is_some() {
            self.regs.ctrl1.sod = false;
            self.regs.ctrl1.ss = cs.code();
        } else {
            self.regs.ctrl1.sod = false;
        }
        self.regs.ctrl1.blockmode = transfer_cfg.blockmode;
        self.pending.push(RegWrite::Ctrl1(self.regs.ctrl1));
        assert(self.pending@ =~= old(self).pending@ + seq![
            RegWrite::ClkPrescale(self.regs.clkprescale),
            RegWrite::Ctrl0(self.regs.ctrl0),
            RegWrite::Ctrl1(self.regs.ctrl1),
        ]);
        Ok(())
    }
}

/// Same peripheral, configuration and system clock.
pub open spec fn same_bus<A: Word, B: Word>(a: SpiBase<A>, b: SpiBase<B>) -> bool {
    &&& b.spec_spi() == a.spec_spi()
    &&& b.spec_cfg() == a.spec_cfg()
    &&& b.spec_sys_clk() == a.spec_sys_clk()
}

/// `after` is `before` with the clock prescale rewritten for `spi_clk`.
pub open spec fn clock_applied<W: Word>(before: SpiBase<W>, after: SpiBase<W>, spi_clk: Hertz) -> bool {
    let p = prescale_for(before.spec_sys_clk().0, spi_clk.0, before.spec_cfg().spec_scrdv());
    &&& same_bus(before, after)
    &&& after.spec_regs() == (Registers { clkprescale: p as u32, ..before.spec_regs() })
    &&& after.spec_pending() == before.spec_pending().push(RegWrite::ClkPrescale(p as u32))
}

/// `after` is `before` with polarity and phase rewritten for `mode`.
pub open spec fn mode_applied<W: Word>(before: SpiBase<W>, after: SpiBase<W>, mode: Mode) -> bool {
    let c0 = Ctrl0 {
        spo: mode_polarity(mode),
        sph: mode_phase(mode),
        ..before.spec_regs().ctrl0
    };
    &&& same_bus(before, after)
    &&& after.spec_regs() == (Registers { ctrl0: c0, ..before.spec_regs() })
    &&& after.spec_pending() == before.spec_pending().push(RegWrite::Ctrl0(c0))
}

/// The outcome of applying transfer configuration `tc` to `before`: refused, with
/// nothing written, exactly when its chip-select pin drives no line of the
/// peripheral; otherwise clock prescale, control register 0 and control register 1
/// are rewritten, in that order.
pub open spec fn transfer_cfg_applied<W: Word>(
    before: SpiBase<W>,
    after: SpiBase<W>,
    tc: TransferConfig,
    r: Result<(), ConfigError>,
) -> bool {
    let resolved = resolved_cs(before.spec_spi(), tc.hw_cs);
    let regs = Registers {
        ctrl0: Ctrl0 {
            spo: mode_polarity(tc.mode),
            sph: mode_phase(tc.mode),
            ..before.spec_regs().ctrl0
        },
        ctrl1: ctrl1_after(before.spec_regs().ctrl1, tc, resolved->0),
        clkprescale: prescale_for(
            before.spec_sys_clk().0,
            tc.spi_clk.0,
            before.spec_cfg().spec_scrdv(),
        ) as u32,
    };
    &&& same_bus(before, after)
    &&& resolved is None ==> {
        &&& r == Err::<(), ConfigError>(ConfigError::ChipSelectPin)
        &&& after.spec_regs() == before.spec_regs()
        &&& after.spec_pending() == before.spec_pending()
    }
    &&& resolved is Some ==> {
        &&& r == Ok::<(), ConfigError>(())
        &&& after.spec_regs() == regs
        &&& after.spec_pending() == before.spec_pending() + seq![
            RegWrite::ClkPrescale(regs.clkprescale),
            RegWrite::Ctrl0(regs.ctrl0),
            RegWrite::Ctrl1(regs.ctrl1),
        ]
    }
}

/// `after` is `before` with the word-size field rewritten for `B`.
pub open spec fn width_converted<A: Word, B: Word>(before: SpiBase<A>, after: SpiBase<B>) -> bool {
    let c0 = Ctrl0 { size: B::size_code(), ..before.spec_regs().ctrl0 };
    &&& same_bus(before, after)
    &&& after.spec_regs() == (Registers { ctrl0: c0, ..before.spec_regs() })
    &&& after.spec_pending() == before.spec_pending().push(RegWrite::Ctrl0(c0))
}

impl SpiBase<u8> {
    /// Switches to 16-bit words: rewrites the word-size field.
    pub fn into_u16(self) -> (r: SpiBase<u16>)
        requires
            self.wf(),
        ensures
            r.wf(),
            width_converted(self, r),
    {
        let mut regs = self.regs;
        regs.ctrl0.size = u16::word_reg();
        let mut pending = self.pending;
        pending.push(RegWrite::Ctrl0(regs.ctrl0));
        SpiBase {
            spi: self.spi,
            cfg: self.cfg,
            sys_clk: self.sys_clk,
            regs,
            pending,
            _word: PhantomData,
        }
    }
}

impl SpiBase<u16> {
    /// Switches to 8-bit words: rewrites the word-size field.
    pub fn into_u8(self) -> (r: SpiBase<u8>)
        requires
            self.wf(),
        ensures
            r.wf(),
            width_converted(self, r),
    {
        let mut regs = self.regs;
        regs.ctrl0.size = u8::word_reg();
        let mut pending = self.pending;
        pending.push(RegWrite::Ctrl0(regs.ctrl0));
        SpiBase {
            spi: self.spi,
            cfg: self.cfg,
            sys_clk: self.sys_clk,
            regs,
            pending,
            _word: PhantomData,
        }
    }
}

/// The transfer configuration an optional reference points to.
pub open spec fn deref_cfg(tc: Option<&TransferConfig>) -> Option<TransferConfig> {
    match tc {
        Some(t) => Some(*t),
        None => None,
    }
}

/// Registers after initialization for word-size field `size`: control register 0
/// from the divider and the initial mode, control register 1 from the bus
/// configuration and the initial slave-select line with the peripheral enabled,
/// and the initial clock prescale.
pub open spec fn init_registers(
    size: u8,
    spi: SpiId,
    sys_clk: Hertz,
    cfg: SpiConfig,
    tc: Option<TransferConfig>,
) -> Registers {
    Registers {
        ctrl0: ctrl0_for(size, cfg.spec_scrdv(), init_mode(tc)),
        ctrl1: Ctrl1 { enable: true, ..ctrl1_for(cfg, init_ss(spi, tc)) },
        clkprescale: init_prescale(sys_clk, cfg.spec_scrdv(), tc) as u32,
    }
}

/// Bus handle that owns its clock, data-in and data-out pins.
pub struct Spi<W> {
    spi_base: SpiBase<W>,
    pins: (AfPin, AfPin, AfPin),
}

impl<W: Word> Spi<W> {
    pub closed spec fn spec_base(&self) -> SpiBase<W> {
        self.spi_base
    }

    /// Clock, data-in and data-out pin.
    pub closed spec fn spec_pins(&self) -> (AfPin, AfPin, AfPin) {
        self.pins
    }

    pub open spec fn wf(&self) -> bool {
        &&& self.spec_base().wf()
        &&& pins_valid(self.spec_base().spec_spi(), self.spec_pins())
    }

    /// Assembles a bus from peripheral `spi`, its clock, data-in and data-out pins,
    /// the system clock and the bus configuration, optionally with a first transfer
    /// configuration. Wiring that the capability registry does not list is refused,
    /// with no register write decided on. Otherwise the handle holds the writes of
    /// initialization: the clock gate when `enable_clock` is set, both control
    /// registers, a FIFO flush, the clock prescale, and enabling the peripheral
    /// last.
    pub fn new(
        spi: SpiId,
        pins: (AfPin, AfPin, AfPin),
        sys_clk: Hertz,
        spi_cfg: SpiConfig,
        enable_clock: bool,
        transfer_cfg: Option<&TransferConfig>,
    ) -> (r: Result<Self, ConfigError>)
        requires
            transfer_cfg matches Some(t) ==> t.spi_clk.0 > 0,
        ensures
            r is Err <==> wiring_error(spi, pins, deref_cfg(transfer_cfg)) is Some,
            r matches Err(e) ==> wiring_error(spi, pins, deref_cfg(transfer_cfg)) == Some(e),
            r matches Ok(h) ==> {
                let regs = init_registers(
                    W::size_code(),
                    spi,
                    sys_clk,
                    spi_cfg,
                    deref_cfg(transfer_cfg),
                );
                &&& h.wf()
                &&& h.spec_pins() == pins
                &&& h.spec_base().spec_spi() == spi
                &&& h.spec_base().spec_cfg() == spi_cfg
                &&& h.spec_base().spec_sys_clk() == sys_clk
                &&& h.spec_base().spec_regs() == regs
                &&& h.spec_base().spec_pending() == init_writes(spi, enable_clock, regs)
            },
    {
        if pin_role(spi, pins.0) != Some(Role::Sck) {
            return Err(ConfigError::SckPin);
        }
        if pin_role(spi, pins.1) != Some(Role::Miso) {
            return Err(ConfigError::MisoPin);
        }
        if pin_role(spi, pins.2) != Some(Role::Mosi) {
            return Err(ConfigError::MosiPin);
        }
        let scrdv = spi_cfg.scrdv;
        let mut mode = Mode::Mode0;
        let mut prescale: u32 = DEFAULT_CLK_PRESCALE;
        let mut ss: u8 = 0;
        if let Some(tc) = transfer_cfg {
            let cs = match resolve_cs(spi, tc.hw_cs) {
                Ok(cs) => cs,
                Err(e) => {
                    return Err(e);
                },
            };
            mode = tc.mode;
            prescale = clk_prescale(sys_clk, tc.spi_clk, scrdv);
            if tc.hw_cs.is_some() {
                ss = cs.code();
            }
        }
        let (cpo, cph) = mode.polarity_phase();
        let ctrl0 = Ctrl0 { size: W::word_reg(), scrdv, spo: cpo, sph: cph };
        let ctrl1 = Ctrl1 {
            lbm: spi_cfg.lbm,
            enable: false,
            ms: spi_cfg.ms,
            sod: spi_cfg.sod,
            ss,
            blockmode: false,
            mdlycap: spi_cfg.mdlycap,
        };
        let enabled = Ctrl1 { enable: true, ..ctrl1 };
        let mut pending: Vec<RegWrite> = Vec::new();
        if enable_clock {
            pending.push(RegWrite::EnableClock(spi));
        }
        pending.push(RegWrite::Ctrl0(ctrl0));
        pending.push(RegWrite::Ctrl1(ctrl1));
        pending.push(RegWrite::FifoClear { rx: true, tx: true });
        pending.push(RegWrite::ClkPrescale(prescale));
        pending.push(RegWrite::Ctrl1(enabled));
        let regs = Registers { ctrl0, ctrl1: enabled, clkprescale: prescale };
        assert(pending@ =~= init_writes(spi, enable_clock, regs));
        Ok(Spi {
            spi_base: SpiBase {
                spi,
                cfg: spi_cfg,
                sys_clk,
                regs,
                pending,
                _word: PhantomData,
            },
            pins,
        })
    }

    pub fn cfg_clock(&mut self, spi_clk: Hertz)
        requires
            old(self).wf(),
            spi_clk.0 > 0,
        ensures
            final(self).wf(),
            final(self).spec_pins() == old(self).spec_pins(),
            clock_applied(old(self).spec_base(), final(self).spec_base(), spi_clk),
    {
        self.spi_base.cfg_clock(spi_clk);
    }

    pub fn cfg_mode(&mut self, mode: Mode)
        requires
            old(self).wf(),
        ensures
            final(self).wf(),
            final(self).spec_pins() == old(self).spec_pins(),
            mode_applied(old(self).spec_base(), final(self).spec_base(), mode),
    {
        self.spi_base.cfg_mode(mode);
    }

    pub fn cfg_transfer(&mut self, transfer_cfg: &TransferConfig) -> (r: Result<(), ConfigError>)
        requires
            old(self).wf(),
            transfer_cfg.spi_clk.0 > 0,
        ensures
            final(self).wf(),
            final(self).spec_pins() == old(self).spec_pins(),
            transfer_cfg_applied(old(self).spec_base(), final(self).spec_base(), *transfer_cfg, r),
    {
        self.spi_base.cfg_transfer(transfer_cfg)
    }

    /// Hands out the pending register writes, oldest first, and forgets them.
    pub fn take_writes(&mut self) -> (r: Vec<RegWrite>)
        requires
            old(self).wf(),
        ensures
            final(self).wf(),
            r@ == old(self).spec_base().spec_pending(),
            final(self).spec_base().spec_pending() == Seq::<RegWrite>::empty(),
            final(self).spec_base().spec_regs() == old(self).spec_base().spec_regs(),
            same_bus(old(self).spec_base(), final(self).spec_base()),
            final(self).spec_pins() == old(self).spec_pins(),
    {
        self.spi_base.take_writes()
    }

    pub fn registers(&self) -> (r: Registers)
        ensures
            r == self.spec_base().spec_regs(),
    {
        self.spi_base.registers()
    }

    pub fn spi(&self) -> (r: SpiId)
        ensures
            r == self.spec_base().spec_spi(),
    {
        self.spi_base.spi()
    }

    /// Gives back the peripheral, the pins and the bus configuration.
    pub fn release(self) -> (r: (SpiId, (AfPin, AfPin, AfPin), SpiConfig))
        ensures
            r.0 == self.spec_base().spec_spi(),
            r.1 == self.spec_pins(),
            r.2 == self.spec_base().spec_cfg(),
    {
        (self.spi_base.spi, self.pins, self.spi_base.cfg)
    }

    /// Gives up the pins and keeps the bus.
    pub fn downgrade(self) -> (r: SpiBase<W>)
        ensures
            r == self.spec_base(),
    {
        self.spi_base
    }
}

impl Spi<u8> {
    /// Switches to 16-bit words: rewrites the word-size field.
    pub fn into_u16(self) -> (r: Spi<u16>)
        requires
            self.wf(),
        ensures
            r.wf(),
            r.spec_pins() == self.spec_pins(),
            width_converted(self.spec_base(), r.spec_base()),
    {
        Spi { spi_base: self.spi_base.into_u16(), pins: self.pins }
    }
}

impl Spi<u16> {
    /// Switches to 8-bit words: rewrites the word-size field.
    pub fn into_u8(self) -> (r: Spi<u8>)
        requires
            self.wf(),
        ensures
            r.wf(),
            r.spec_pins() == self.spec_pins(),
            width_converted(self.spec_base(), r.spec_base()),
    {
        Spi { spi_base: self.spi_base.into_u8(), pins: self.pins }
    }
}

/// Converting a handle from 8-bit to 16-bit words and back leaves every register as
/// it was, the word-size field included.
pub proof fn lemma_width_round_trip(a: Spi<u8>, b: Spi<u16>, c: Spi<u8>)
    requires
        a.wf(),
        width_converted(a.spec_base(), b.spec_base()),
        width_converted(b.spec_base(), c.spec_base()),
    ensures
        c.spec_base().spec_regs() == a.spec_base().spec_regs(),
{
}

/// Two transfer configurations applied in turn, on a running system clock, whose
/// clock rates both divide the system clock evenly (after the serial clock rate divider) and differ, leave two
/// different clock prescale values behind.
pub proof fn lemma_retarget_prescale<W: Word>(
    h0: SpiBase<W>,
    h1: SpiBase<W>,
    h2: SpiBase<W>,
    t1: TransferConfig,
    t2: TransferConfig,
    r1: Result<(), ConfigError>,
    r2: Result<(), ConfigError>,
)
    requires
        transfer_cfg_applied(h0, h1, t1, r1),
        transfer_cfg_applied(h1, h2, t2, r2),
        r1 is Ok,
        r2 is Ok,
        t1.spi_clk.0 > 0,
        t2.spi_clk.0 > 0,
        t1.spi_clk.0 != t2.spi_clk.0,
        h0.spec_sys_clk().0 > 0,
        h0.spec_sys_clk().0 as int % (t1.spi_clk.0 as int * (h0.spec_cfg().spec_scrdv() as int + 1))
            == 0,
        h0.spec_sys_clk().0 as int % (t2.spi_clk.0 as int * (h0.spec_cfg().spec_scrdv() as int + 1))
            == 0,
    ensures
        h1.spec_regs().clkprescale != h2.spec_regs().clkprescale,
{
    let sys = h0.spec_sys_clk().0 as int;
    let k = h0.spec_cfg().spec_scrdv() as int + 1;
    let c1 = t1.spi_clk.0 as int;
    let c2 = t2.spi_clk.0 as int;
    let q1 = sys / (c1 * k);
    let q2 = sys / (c2 * k);
    assert(c1 * k >= 1 && c2 * k >= 1) by (nonlinear_arith)
        requires
            c1 >= 1,
            c2 >= 1,
            k >= 1,
    ;
    assert(q1 <= sys && q2 <= sys) by (nonlinear_arith)
        requires
            sys >= 0,
            c1 * k >= 1,
            c2 * k >= 1,
            q1 == sys / (c1 * k),
            q2 == sys / (c2 * k),
    ;
    if q1 == q2 {
        assert(c1 * k * q1 == sys) by (nonlinear_arith)
            requires
                c1 * k >= 1,
                sys % (c1 * k) == 0,
                q1 == sys / (c1 * k),
        ;
        assert(c2 * k * q2 == sys) by (nonlinear_arith)
            requires
                c2 * k >= 1,
                sys % (c2 * k) == 0,
                q2 == sys / (c2 * k),
        ;
        assert(c1 == c2) by (nonlinear_arith)
            requires
                c1 * k * q1 == sys,
                c2 * k * q1 == sys,
                sys != 0,
                k >= 1,
        ;
    }
}

/// Applying a transfer configuration sets polarity and phase from its mode, for each
/// of the four modes. One with no chip-select pin is always accepted, resolves to
/// the sentinel "no hardware chip-select" line, leaves the slave-select line as it
/// was, and with slave output enabled clears slave output disable.
pub proof fn lemma_transfer_cfg_mode_and_select<W: Word>(
    before: SpiBase<W>,
    after: SpiBase<W>,
    tc: TransferConfig,
    r: Result<(), ConfigError>,
)
    requires
        transfer_cfg_applied(before, after, tc, r),
    ensures
        r is Ok ==> after.spec_regs().ctrl0.spo == mode_polarity(tc.mode),
        r is Ok ==> after.spec_regs().ctrl0.sph == mode_phase(tc.mode),
        r is Ok && tc.mode == Mode::Mode0 ==> !after.spec_regs().ctrl0.spo
            && !after.spec_regs().ctrl0.sph,
        r is Ok && tc.mode == Mode::Mode1 ==> !after.spec_regs().ctrl0.spo
            && after.spec_regs().ctrl0.sph,
        r is Ok && tc.mode == Mode::Mode2 ==> after.spec_regs().ctrl0.spo
            && !after.spec_regs().ctrl0.sph,
        r is Ok && tc.mode == Mode::Mode3 ==> after.spec_regs().ctrl0.spo
            && after.spec_regs().ctrl0.sph,
        tc.hw_cs is None ==> resolved_cs(before.spec_spi(), tc.hw_cs) == Some(
            HwChipSelectId::Invalid,
        ),
        tc.hw_cs is None ==> r is Ok,
        tc.hw_cs is None ==> after.spec_regs().ctrl1.ss == before.spec_regs().ctrl1.ss,
        tc.hw_cs is None && !tc.sod ==> !after.spec_regs().ctrl1.sod,
{
}

} // verus!
