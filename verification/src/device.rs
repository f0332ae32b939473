//! Model of the hardware surrounding one USART instance.
//!
//! [`UsartRegs`] holds the peripheral's register state as plain fields and
//! records every status/data register access in a trace, so that contracts can
//! speak both about register values and about the order of accesses (the
//! fault clear sequence depends on that order). [`Clocks`], [`Rcc`] and
//! [`Mapr`] model the clock tree, the reset controller and the pin-remap
//! register. The `device_*` methods play the part of the line and of the
//! transmitter hardware: they are the only way flags become set again, which
//! is what a test uses to simulate traffic.

use vstd::prelude::*;

verus! {

/// Identity of one of the three USART instances.
#[derive(Clone, Copy, Debug, PartialEq, Eq, Structural)]
pub enum Instance {
    Usart1,
    Usart2,
    Usart3,
}

/// One recorded access to the status or data register.
#[derive(Clone, Copy, Debug, PartialEq, Eq, Structural)]
pub enum RegAccess {
    StatusRead,
    DataRead,
    DataWrite,
}

/// Snapshot of the status register flags, as returned by one status read.
#[derive(Clone, Copy, Debug, PartialEq, Eq, Structural)]
pub struct Status {
    /// Parity error latched.
    pub pe: bool,
    /// Framing error latched.
    pub fe: bool,
    /// Noise error latched.
    pub ne: bool,
    /// Receive overrun latched.
    pub ore: bool,
    /// Received data ready to be read.
    pub rxne: bool,
    /// Transmit holding register empty.
    pub txe: bool,
    /// Transmission complete: the last byte has left the shift register.
    pub tc: bool,
}

/// Register state of one USART instance, with a trace of status/data
/// register accesses.
pub struct UsartRegs {
    pub id: Instance,
    // Status register flags.
    pub pe: bool,
    pub fe: bool,
    pub ne: bool,
    pub ore: bool,
    pub rxne: bool,
    pub txe: bool,
    pub tc: bool,
    /// Receive data register.
    pub dr: u8,
    /// Last byte written to the transmit data register.
    pub tx_last: u8,
    // Control register 1.
    pub ue: bool,
    pub re: bool,
    pub te: bool,
    /// Extended word length.
    pub m: bool,
    /// Parity control enable.
    pub pce: bool,
    /// Parity polarity (set for odd).
    pub ps: bool,
    pub rxneie: bool,
    pub txeie: bool,
    pub idleie: bool,
    /// Control register 2: stop-bit code.
    pub stop: u8,
    // Control register 3: DMA request enables.
    pub dmar: bool,
    pub dmat: bool,
    /// Baud-rate divisor register.
    pub brr: u32,
    /// Trace of status/data register accesses, in order.
    pub accesses: Vec<RegAccess>,
}

/// The control and configuration registers are the same in both states.
pub open spec fn ctrl_unchanged(pre: UsartRegs, post: UsartRegs) -> bool {
    &&& post.id == pre.id
    &&& post.ue == pre.ue
    &&& post.re == pre.re
    &&& post.te == pre.te
    &&& post.m == pre.m
    &&& post.pce == pre.pce
    &&& post.ps == pre.ps
    &&& post.rxneie == pre.rxneie
    &&& post.txeie == pre.txeie
    &&& post.idleie == pre.idleie
    &&& post.stop == pre.stop
    &&& post.dmar == pre.dmar
    &&& post.dmat == pre.dmat
    &&& post.brr == pre.brr
}

/// The receive-side state (fault latches, data-ready flag, data register) is
/// the same in both states.
pub open spec fn rx_side_unchanged(pre: UsartRegs, post: UsartRegs) -> bool {
    &&& post.pe == pre.pe
    &&& post.fe == pre.fe
    &&& post.ne == pre.ne
    &&& post.ore == pre.ore
    &&& post.rxne == pre.rxne
    &&& post.dr == pre.dr
}

/// The transmit-side state (holding-empty and complete flags, last written
/// byte) is the same in both states.
pub open spec fn tx_side_unchanged(pre: UsartRegs, post: UsartRegs) -> bool {
    &&& post.txe == pre.txe
    &&& post.tc == pre.tc
    &&& post.tx_last == pre.tx_last
}

/// The register state after peripheral reset: no received data, no fault
/// latched, transmitter idle (holding register empty, transmission complete),
/// every control field cleared.
pub open spec fn reset_regs(pre: UsartRegs, post: UsartRegs) -> bool {
    &&& post.id == pre.id
    &&& !post.pe && !post.fe && !post.ne && !post.ore && !post.rxne
    &&& post.txe && post.tc
    &&& post.dr == 0 && post.tx_last == 0
    &&& !post.ue && !post.re && !post.te
    &&& !post.m && !post.pce && !post.ps
    &&& !post.rxneie && !post.txeie && !post.idleie
    &&& post.stop == 0
    &&& !post.dmar && !post.dmat
    &&& post.brr == 0
    &&& post.accesses@ == pre.accesses@
}

/// Everything except the three interrupt-enable bits is the same in both
/// states.
pub open spec fn ctrl_frame_but_events(pre: UsartRegs, post: UsartRegs) -> bool {
    &&& rx_side_unchanged(pre, post)
    &&& tx_side_unchanged(pre, post)
    &&& post.id == pre.id
    &&& post.ue == pre.ue && post.re == pre.re && post.te == pre.te
    &&& post.m == pre.m && post.pce == pre.pce && post.ps == pre.ps
    &&& post.stop == pre.stop
    &&& post.dmar == pre.dmar && post.dmat == pre.dmat
    &&& post.brr == pre.brr
    &&& post.accesses@ == pre.accesses@
}

/// Everything except the two DMA request enables is the same in both
/// states.
pub open spec fn ctrl_frame_but_dma(pre: UsartRegs, post: UsartRegs) -> bool {
    &&& rx_side_unchanged(pre, post)
    &&& tx_side_unchanged(pre, post)
    &&& post.id == pre.id
    &&& post.ue == pre.ue && post.re == pre.re && post.te == pre.te
    &&& post.m == pre.m && post.pce == pre.pce && post.ps == pre.ps
    &&& post.rxneie == pre.rxneie && post.txeie == pre.txeie && post.idleie == pre.idleie
    &&& post.stop == pre.stop
    &&& post.brr == pre.brr
    &&& post.accesses@ == pre.accesses@
}

impl UsartRegs {
    /// A freshly powered instance: reset register state, empty access trace.
    pub fn new(id: Instance) -> (r: UsartRegs)
        ensures
            r.id == id,
            reset_regs(r, r),
            r.accesses@ == Seq::<RegAccess>::empty(),
    {
        UsartRegs {
            id,
            pe: false,
            fe: false,
            ne: false,
            ore: false,
            rxne: false,
            txe: true,
            tc: true,
            dr: 0,
            tx_last: 0,
            ue: false,
            re: false,
            te: false,
            m: false,
            pce: false,
            ps: false,
            rxneie: false,
            txeie: false,
            idleie: false,
            stop: 0,
            dmar: false,
            dmat: false,
            brr: 0,
            accesses: Vec::new(),
        }
    }

    /// Peripheral reset: every register returns to its reset value; the
    /// access trace (a record of the run, not hardware) is kept.
    pub fn reset(&mut self)
        ensures
            reset_regs(*old(self), *final(self)),
    {
        self.pe = false;
        self.fe = false;
        self.ne = false;
        self.ore = false;
        self.rxne = false;
        self.txe = true;
        self.tc = true;
        self.dr = 0;
        self.tx_last = 0;
        self.ue = false;
        self.re = false;
        self.te = false;
        self.m = false;
        self.pce = false;
        self.ps = false;
        self.rxneie = false;
        self.txeie = false;
        self.idleie = false;
        self.stop = 0;
        self.dmar = false;
        self.dmat = false;
        self.brr = 0;
    }

    /// Reads the status register: returns the current flags and records the
    /// access. Reading status changes no register value.
    pub fn read_status(&mut self) -> (s: Status)
        ensures
            s == (Status {
                pe: old(self).pe,
                fe: old(self).fe,
                ne: old(self).ne,
                ore: old(self).ore,
                rxne: old(self).rxne,
                txe: old(self).txe,
                tc: old(self).tc,
            }),
            ctrl_unchanged(*old(self), *final(self)),
            rx_side_unchanged(*old(self), *final(self)),
            tx_side_unchanged(*old(self), *final(self)),
            final(self).accesses@ == old(self).accesses@.push(RegAccess::StatusRead),
    {
        let s = Status {
            pe: self.pe,
            fe: self.fe,
            ne: self.ne,
            ore: self.ore,
            rxne: self.rxne,
            txe: self.txe,
            tc: self.tc,
        };
        self.accesses.push(RegAccess::StatusRead);
        s
    }

    /// Reads the data register: returns the received byte, consumes the
    /// data-ready flag and de-latches the fault flags (the driver always
    /// reads status first, which together with this read forms the
    /// hardware-mandated clear sequence).
    pub fn read_data(&mut self) -> (b: u8)
        ensures
            b == old(self).dr,
            ctrl_unchanged(*old(self), *final(self)),
            tx_side_unchanged(*old(self), *final(self)),
            !final(self).pe && !final(self).fe && !final(self).ne && !final(self).ore,
            !final(self).rxne,
            final(self).dr == old(self).dr,
            final(self).accesses@ == old(self).accesses@.push(RegAccess::DataRead),
    {
        let b = self.dr;
        self.pe = false;
        self.fe = false;
        self.ne = false;
        self.ore = false;
        self.rxne = false;
        self.accesses.push(RegAccess::DataRead);
        b
    }

    /// Writes the transmit data register: the byte enters the holding
    /// register, which clears both the holding-empty and the
    /// transmission-complete flags.
    pub fn write_data(&mut self, byte: u8)
        ensures
            ctrl_unchanged(*old(self), *final(self)),
            rx_side_unchanged(*old(self), *final(self)),
            final(self).tx_last == byte,
            !final(self).txe && !final(self).tc,
            final(self).accesses@ == old(self).accesses@.push(RegAccess::DataWrite),
    {
        self.tx_last = byte;
        self.txe = false;
        self.tc = false;
        self.accesses.push(RegAccess::DataWrite);
    }

    /// Whole-register write of the third control register: both DMA request
    /// enables take the given values, everything else is untouched.
    #[verifier::rlimit(100)]
    pub fn write_cr3(&mut self, dmar: bool, dmat: bool)
        ensures
            final(self).dmar == dmar,
            final(self).dmat == dmat,
            ctrl_frame_but_dma(*old(self), *final(self)),
    {
        self.dmar = dmar;
        self.dmat = dmat;
    }

    /// Sets or clears the data-ready interrupt enable, touching nothing else.
    pub fn set_rxneie(&mut self, on: bool)
        ensures
            final(self).rxneie == on,
            final(self).txeie == old(self).txeie,
            final(self).idleie == old(self).idleie,
            ctrl_frame_but_events(*old(self), *final(self)),
    {
        self.rxneie = on;
    }

    /// Sets or clears the transmit-empty interrupt enable, touching nothing
    /// else.
    pub fn set_txeie(&mut self, on: bool)
        ensures
            final(self).txeie == on,
            final(self).rxneie == old(self).rxneie,
            final(self).idleie == old(self).idleie,
            ctrl_frame_but_events(*old(self), *final(self)),
    {
        self.txeie = on;
    }

    /// Sets or clears the idle-line interrupt enable, touching nothing else.
    pub fn set_idleie(&mut self, on: bool)
        ensures
            final(self).idleie == on,
            final(self).rxneie == old(self).rxneie,
            final(self).txeie == old(self).txeie,
            ctrl_frame_but_events(*old(self), *final(self)),
    {
        self.idleie = on;
    }

    /// Line side: a byte arrives. If the previous byte was never read the
    /// overrun latch is set and the data register keeps the old byte;
    /// otherwise the byte lands in the data register and data-ready is set.
    pub fn device_receive(&mut self, byte: u8)
        ensures
            ctrl_unchanged(*old(self), *final(self)),
            tx_side_unchanged(*old(self), *final(self)),
            final(self).pe == old(self).pe,
            final(self).fe == old(self).fe,
            final(self).ne == old(self).ne,
            final(self).accesses@ == old(self).accesses@,
            old(self).rxne ==> final(self).ore && final(self).dr == old(self).dr
                && final(self).rxne,
            !old(self).rxne ==> final(self).ore == old(self).ore && final(self).dr == byte
                && final(self).rxne,
    {
        if self.rxne {
            self.ore = true;
        } else {
            self.dr = byte;
            self.rxne = true;
        }
    }

    /// Line side: a parity fault is latched.
    pub fn device_parity_fault(&mut self)
        ensures
            ctrl_unchanged(*old(self), *final(self)),
            tx_side_unchanged(*old(self), *final(self)),
            final(self).pe,
            final(self).fe == old(self).fe,
            final(self).ne == old(self).ne,
            final(self).ore == old(self).ore,
            final(self).rxne == old(self).rxne,
            final(self).dr == old(self).dr,
            final(self).accesses@ == old(self).accesses@,
    {
        self.pe = true;
    }

    /// Line side: a framing fault is latched.
    pub fn device_framing_fault(&mut self)
        ensures
            ctrl_unchanged(*old(self), *final(self)),
            tx_side_unchanged(*old(self), *final(self)),
            final(self).fe,
            final(self).pe == old(self).pe,
            final(self).ne == old(self).ne,
            final(self).ore == old(self).ore,
            final(self).rxne == old(self).rxne,
            final(self).dr == old(self).dr,
            final(self).accesses@ == old(self).accesses@,
    {
        self.fe = true;
    }

    /// Line side: a noise fault is latched.
    pub fn device_noise_fault(&mut self)
        ensures
            ctrl_unchanged(*old(self), *final(self)),
            tx_side_unchanged(*old(self), *final(self)),
            final(self).ne,
            final(self).pe == old(self).pe,
            final(self).fe == old(self).fe,
            final(self).ore == old(self).ore,
            final(self).rxne == old(self).rxne,
            final(self).dr == old(self).dr,
            final(self).accesses@ == old(self).accesses@,
    {
        self.ne = true;
    }

    /// Line side: an overrun fault is latched.
    pub fn device_overrun_fault(&mut self)
        ensures
            ctrl_unchanged(*old(self), *final(self)),
            tx_side_unchanged(*old(self), *final(self)),
            final(self).ore,
            final(self).pe == old(self).pe,
            final(self).fe == old(self).fe,
            final(self).ne == old(self).ne,
            final(self).rxne == old(self).rxne,
            final(self).dr == old(self).dr,
            final(self).accesses@ == old(self).accesses@,
    {
        self.ore = true;
    }

    /// Transmitter side: the holding register's byte moved into the shift
    /// register, so the holding register is empty again. The transmission
    /// itself is still in flight: the complete flag is untouched.
    pub fn device_tx_shift(&mut self)
        ensures
            ctrl_unchanged(*old(self), *final(self)),
            rx_side_unchanged(*old(self), *final(self)),
            final(self).txe,
            final(self).tc == old(self).tc,
            final(self).tx_last == old(self).tx_last,
            final(self).accesses@ == old(self).accesses@,
    {
        self.txe = true;
    }

    /// Transmitter side: the last byte has physically left the shift
    /// register; the line is idle.
    pub fn device_tx_complete(&mut self)
        ensures
            ctrl_unchanged(*old(self), *final(self)),
            rx_side_unchanged(*old(self), *final(self)),
            final(self).txe && final(self).tc,
            final(self).tx_last == old(self).tx_last,
            final(self).accesses@ == old(self).accesses@,
    {
        self.txe = true;
        self.tc = true;
    }
}

/// Peripheral clock frequencies of the two buses the USART instances hang on.
#[derive(Clone, Copy, Debug, PartialEq, Eq, Structural)]
pub struct Clocks {
    /// Clock of the bus carrying the second and third instance.
    pub pclk1: u32,
    /// Clock of the bus carrying the first instance.
    pub pclk2: u32,
}

/// The clock frequency an instance's bus runs at.
pub open spec fn bus_freq(c: Clocks, id: Instance) -> u32 {
    match id {
        Instance::Usart1 => c.pclk2,
        Instance::Usart2 => c.pclk1,
        Instance::Usart3 => c.pclk1,
    }
}

impl Clocks {
    /// The clock frequency of the given instance's bus.
    pub fn frequency(&self, id: Instance) -> (f: u32)
        ensures
            f == bus_freq(*self, id),
    {
        match id {
            Instance::Usart1 => self.pclk2,
            Instance::Usart2 => self.pclk1,
            Instance::Usart3 => self.pclk1,
        }
    }
}

/// Model of the reset controller: which USART instances have their clock
/// enabled.
#[derive(Clone, Copy, Debug, PartialEq, Eq, Structural)]
pub struct Rcc {
    pub usart1_on: bool,
    pub usart2_on: bool,
    pub usart3_on: bool,
}

/// Whether the given instance is enabled in the reset controller.
pub open spec fn rcc_enabled(r: Rcc, id: Instance) -> bool {
    match id {
        Instance::Usart1 => r.usart1_on,
        Instance::Usart2 => r.usart2_on,
        Instance::Usart3 => r.usart3_on,
    }
}

impl Rcc {
    /// All peripherals disabled, as after power-up.
    pub fn new() -> (r: Rcc)
        ensures
            !r.usart1_on && !r.usart2_on && !r.usart3_on,
    {
        Rcc { usart1_on: false, usart2_on: false, usart3_on: false }
    }

    /// Enables the clock of one instance, leaving the others untouched.
    pub fn enable(&mut self, id: Instance)
        ensures
            rcc_enabled(*final(self), id),
            forall|other: Instance|
                other != id ==> rcc_enabled(*final(self), other) == rcc_enabled(
                    *old(self),
                    other,
                ),
    {
        match id {
            Instance::Usart1 => self.usart1_on = true,
            Instance::Usart2 => self.usart2_on = true,
            Instance::Usart3 => self.usart3_on = true,
        }
    }
}

/// Model of the alternate-function remap register: the remap field of each
/// USART instance. The first two instances remap with a single bit, the
/// third with a two-bit field.
#[derive(Clone, Copy, Debug, PartialEq, Eq, Structural)]
pub struct Mapr {
    pub usart1_remap: bool,
    pub usart2_remap: bool,
    pub usart3_remap: u8,
}

impl Mapr {
    /// Reset state: no remap anywhere.
    pub fn new() -> (r: Mapr)
        ensures
            !r.usart1_remap && !r.usart2_remap && r.usart3_remap == 0,
    {
        Mapr { usart1_remap: false, usart2_remap: false, usart3_remap: 0 }
    }
}

} // verus!
