//! The serial line: initialization, the non-blocking byte transaction
//! protocol, interrupt-enable control, and the split/ownership model.
//!
//! Every operation is a single poll that returns immediately. `read` decodes
//! line faults in a fixed priority order and performs the hardware-mandated
//! clear sequence (a status read followed by a data read) on any fault;
//! `write` and `flush` can only be refused, never fail. A [`Serial`] owns
//! its peripheral's registers; [`split`](Serial::split) partitions it into
//! move-only [`Tx`] and [`Rx`] capability tokens that operate on the register
//! block handed back alongside them.

use vstd::prelude::*;

use crate::config::{feasible, plan_of, Config, Parity, StopBits};
use crate::device::{
    bus_freq, ctrl_frame_but_events, ctrl_unchanged, rcc_enabled, rx_side_unchanged,
    tx_side_unchanged, Clocks, Instance, Mapr, Rcc, RegAccess, UsartRegs,
};

verus! {

/// Interrupt event that can be listened to.
#[derive(Clone, Copy, Debug, PartialEq, Eq, Structural)]
pub enum Event {
    /// New data has been received.
    Rxne,
    /// New data can be sent.
    Txe,
    /// Idle line state detected.
    Idle,
}

/// Line-level fault, reported at most once per offending byte.
#[derive(Clone, Copy, Debug, PartialEq, Eq, Structural)]
pub enum Error {
    /// Framing error.
    Framing,
    /// Noise error.
    Noise,
    /// Receive buffer overrun.
    Overrun,
    /// Parity check error.
    Parity,
}

/// Outcome of one receive poll.
#[derive(Clone, Copy, Debug, PartialEq, Eq, Structural)]
pub enum ReadResult {
    /// A byte was ready and has been consumed.
    Ready(u8),
    /// Nothing ready yet; poll again.
    WouldBlock,
    /// A line fault was latched; it has been decoded and de-latched.
    Faulted(Error),
}

/// Outcome of one transmit-side poll (`write` or `flush`): these operations
/// have no error channel, they can only be refused.
#[derive(Clone, Copy, Debug, PartialEq, Eq, Structural)]
pub enum TxPoll {
    Ready,
    WouldBlock,
}

/// A legal transmit/receive pin pair. Which pairs may drive which instance,
/// and under which remap code, is fixed by [`remap_of`].
#[derive(Clone, Copy, Debug, PartialEq, Eq, Structural)]
pub enum Pins {
    Pa9Pa10,
    Pb6Pb7,
    Pa2Pa3,
    Pd5Pd6,
    Pb10Pb11,
    Pc10Pc11,
    Pd8Pd9,
}

/// The remap code under which a pin pair drives an instance, or `None` where
/// the combination is illegal.
pub open spec fn remap_of(p: Pins, id: Instance) -> Option<u8> {
    match (p, id) {
        (Pins::Pa9Pa10, Instance::Usart1) => Some(0u8),
        (Pins::Pb6Pb7, Instance::Usart1) => Some(1u8),
        (Pins::Pa2Pa3, Instance::Usart2) => Some(0u8),
        (Pins::Pd5Pd6, Instance::Usart2) => Some(0u8),
        (Pins::Pb10Pb11, Instance::Usart3) => Some(0u8),
        (Pins::Pc10Pc11, Instance::Usart3) => Some(1u8),
        (Pins::Pd8Pd9, Instance::Usart3) => Some(3u8),
        _ => None,
    }
}

/// The remap code of a pin pair on an instance, `None` where illegal.
pub fn remap_code(p: Pins, id: Instance) -> (r: Option<u8>)
    ensures
        r == remap_of(p, id),
{
    match (p, id) {
        (Pins::Pa9Pa10, Instance::Usart1) => Some(0),
        (Pins::Pb6Pb7, Instance::Usart1) => Some(1),
        (Pins::Pa2Pa3, Instance::Usart2) => Some(0),
        (Pins::Pd5Pd6, Instance::Usart2) => Some(0),
        (Pins::Pb10Pb11, Instance::Usart3) => Some(0),
        (Pins::Pc10Pc11, Instance::Usart3) => Some(1),
        (Pins::Pd8Pd9, Instance::Usart3) => Some(3),
        _ => None,
    }
}

/// The fault a status snapshot reports, decoded in the fixed priority order
/// parity > framing > noise > overrun.
pub open spec fn fault_of(s: UsartRegs) -> Option<Error> {
    if s.pe {
        Some(Error::Parity)
    } else if s.fe {
        Some(Error::Framing)
    } else if s.ne {
        Some(Error::Noise)
    } else if s.ore {
        Some(Error::Overrun)
    } else {
        None
    }
}

/// Exact behaviour of one receive poll, relating the register state before
/// and after to the reported outcome.
///
/// - A latched fault is reported in priority order; the clear sequence (one
///   more status read, then a data read) runs, which de-latches every fault
///   flag and consumes any pending byte.
/// - Otherwise a ready byte is consumed and returned.
/// - Otherwise the poll is refused, and nothing but the access trace moves.
pub open spec fn read_rel(pre: UsartRegs, post: UsartRegs, r: ReadResult) -> bool {
    &&& ctrl_unchanged(pre, post)
    &&& tx_side_unchanged(pre, post)
    &&& match fault_of(pre) {
        Some(e) => {
            &&& r == ReadResult::Faulted(e)
            &&& !post.pe && !post.fe && !post.ne && !post.ore && !post.rxne
            &&& post.dr == pre.dr
            &&& post.accesses@ == pre.accesses@.push(RegAccess::StatusRead).push(
                RegAccess::StatusRead,
            ).push(RegAccess::DataRead)
        },
        None => {
            if pre.rxne {
                &&& r == ReadResult::Ready(pre.dr)
                &&& !post.pe && !post.fe && !post.ne && !post.ore && !post.rxne
                &&& post.dr == pre.dr
                &&& post.accesses@ == pre.accesses@.push(RegAccess::StatusRead).push(
                    RegAccess::DataRead,
                )
            } else {
                &&& r == ReadResult::WouldBlock
                &&& rx_side_unchanged(pre, post)
                &&& post.accesses@ == pre.accesses@.push(RegAccess::StatusRead)
            }
        },
    }
}

/// Exact behaviour of one transmit poll: accepted exactly when the holding
/// register is empty, in which case the byte enters it and both transmit
/// flags drop; refused otherwise, with nothing but the access trace moving.
pub open spec fn write_rel(pre: UsartRegs, post: UsartRegs, byte: u8, r: TxPoll) -> bool {
    &&& ctrl_unchanged(pre, post)
    &&& rx_side_unchanged(pre, post)
    &&& if pre.txe {
        &&& r == TxPoll::Ready
        &&& post.tx_last == byte
        &&& !post.txe && !post.tc
        &&& post.accesses@ == pre.accesses@.push(RegAccess::StatusRead).push(RegAccess::DataWrite)
    } else {
        &&& r == TxPoll::WouldBlock
        &&& tx_side_unchanged(pre, post)
        &&& post.accesses@ == pre.accesses@.push(RegAccess::StatusRead)
    }
}

/// Exact behaviour of one flush poll: ready exactly when the transmission-
/// complete flag is set (the wire is idle), and never a side effect beyond
/// the access trace.
pub open spec fn flush_rel(pre: UsartRegs, post: UsartRegs, r: TxPoll) -> bool {
    &&& ctrl_unchanged(pre, post)
    &&& rx_side_unchanged(pre, post)
    &&& tx_side_unchanged(pre, post)
    &&& r == (if pre.tc {
        TxPoll::Ready
    } else {
        TxPoll::WouldBlock
    })
    &&& post.accesses@ == pre.accesses@.push(RegAccess::StatusRead)
}

/// Effect of enabling or disabling one event's interrupt: exactly that
/// enable bit takes the given value, every other register field stays.
pub open spec fn event_rel(pre: UsartRegs, post: UsartRegs, e: Event, on: bool) -> bool {
    &&& ctrl_frame_but_events(pre, post)
    &&& post.rxneie == (if e is Rxne {
        on
    } else {
        pre.rxneie
    })
    &&& post.txeie == (if e is Txe {
        on
    } else {
        pre.txeie
    })
    &&& post.idleie == (if e is Idle {
        on
    } else {
        pre.idleie
    })
}

impl UsartRegs {
    /// One non-blocking receive poll against this register block.
    ///
    /// Decodes a latched fault in the priority order parity > framing >
    /// noise > overrun; on any fault it performs the clear sequence — a
    /// status register read followed by a data register read, in that order —
    /// which is what de-latches the fault flags. With no fault, a ready byte
    /// is consumed and returned; with nothing ready the poll is refused and
    /// has no effect on the device state.
    pub fn poll_read(&mut self) -> (r: ReadResult)
        ensures
            read_rel(*old(self), *final(self), r),
    {
        let sr = self.read_status();
        let err: Option<Error> = if sr.pe {
            Some(Error::Parity)
        } else if sr.fe {
            Some(Error::Framing)
        } else if sr.ne {
            Some(Error::Noise)
        } else if sr.ore {
            Some(Error::Overrun)
        } else {
            None
        };
        match err {
            Some(e) => {
                // The hardware de-latches a fault only on a status register
                // read followed by a data register read, in that order.
                let _ = self.read_status();
                let _ = self.read_data();
                ReadResult::Faulted(e)
            },
            None => {
                if sr.rxne {
                    let byte = self.read_data();
                    ReadResult::Ready(byte)
                } else {
                    ReadResult::WouldBlock
                }
            },
        }
    }

    /// One non-blocking transmit poll: the byte is accepted exactly when the
    /// holding register is empty. Refusal is the only negative outcome.
    pub fn poll_write(&mut self, byte: u8) -> (r: TxPoll)
        ensures
            write_rel(*old(self), *final(self), byte, r),
    {
        let sr = self.read_status();
        if sr.txe {
            self.write_data(byte);
            TxPoll::Ready
        } else {
            TxPoll::WouldBlock
        }
    }

    /// One flush poll: ready exactly when the last byte has physically left
    /// the shift register, distinguishing "fully sent" from "accepted for
    /// send".
    pub fn poll_flush(&mut self) -> (r: TxPoll)
        ensures
            flush_rel(*old(self), *final(self), r),
    {
        let sr = self.read_status();
        if sr.tc {
            TxPoll::Ready
        } else {
            TxPoll::WouldBlock
        }
    }

    /// Sets or clears one event's interrupt-enable bit.
    fn set_event(&mut self, event: Event, on: bool)
        ensures
            event_rel(*old(self), *final(self), event, on),
    {
        match event {
            Event::Rxne => self.set_rxneie(on),
            Event::Txe => self.set_txeie(on),
            Event::Idle => self.set_idleie(on),
        }
    }
}

/// The combined, exclusively-owned handle to one configured serial line:
/// the peripheral's registers and its pin pair.
pub struct Serial {
    pub regs: UsartRegs,
    pub pins: Pins,
}

/// The register state of a line just initialized with `config` at clock
/// frequency `clock_hz`: baud divisor programmed, parity coupled to word
/// length, stop bits encoded, line enabled in both directions, no interrupt
/// enabled, no DMA request enabled, receiver and transmitter idle.
pub open spec fn initialized(regs: UsartRegs, id: Instance, config: Config, clock_hz: u32) -> bool {
    &&& regs.id == id
    &&& regs.brr == plan_of(config, clock_hz).divisor
    &&& regs.m == plan_of(config, clock_hz).word_length
    &&& regs.pce == plan_of(config, clock_hz).parity_enable
    &&& regs.ps == plan_of(config, clock_hz).parity_odd
    &&& regs.stop == plan_of(config, clock_hz).stop_code
    &&& regs.ue && regs.re && regs.te
    &&& !regs.rxneie && !regs.txeie && !regs.idleie
    &&& !regs.dmar && !regs.dmat
    &&& !regs.pe && !regs.fe && !regs.ne && !regs.ore && !regs.rxne
    &&& regs.txe && regs.tc
    &&& regs.dr == 0 && regs.tx_last == 0
}

impl Serial {
    /// Configures a serial line and creates its handle.
    ///
    /// Enables the instance in the reset controller, resets the peripheral,
    /// programs the pin remap, the baud divisor, the coupled parity/word-
    /// length flags and the stop bits, then enables the line in both
    /// directions. The pin pair must be legal for the instance, and the baud
    /// rate must be reachable from the instance's bus clock (divisor at
    /// least 16): an unreachable rate is a programming error, which the
    /// caller rules out up front, never a clamped one.
    pub fn init(usart: UsartRegs, pins: Pins, mapr: &mut Mapr, config: Config, clocks: &Clocks,
        rcc: &mut Rcc) -> (s: Serial)
        requires
            remap_of(pins, usart.id) is Some,
            feasible(config, bus_freq(*clocks, usart.id)),
        ensures
            s.pins == pins,
            initialized(s.regs, usart.id, config, bus_freq(*clocks, usart.id)),
            s.regs.accesses@ == usart.accesses@,
            rcc_after_init(*old(rcc), *final(rcc), usart.id),
            mapr_after_init(*old(mapr), *final(mapr), usart.id, remap_of(pins, usart.id)->0),
    {
        let mut u = usart;
        // Enable and reset the instance, exactly once each.
        rcc.enable(u.id);
        u.reset();
        // Program the pin remap from the legality table.
        let code = match remap_code(pins, u.id) {
            Some(code) => code,
            None => 0,  // unreachable: the pin pair is legal by precondition
        };
        match u.id {
            Instance::Usart1 => mapr.usart1_remap = code == 1,
            Instance::Usart2 => mapr.usart2_remap = code == 1,
            Instance::Usart3 => mapr.usart3_remap = code,
        }
        // Configure the baud rate.
        let brr = clocks.frequency(u.id) / config.baudrate;
        u.brr = brr;
        // Configure parity and word length. The parity bit occupies a data
        // bit position on this family, so enabling parity widens the frame:
        // one coupled flag, not two options.
        let (word_length, parity_control_enable, parity) = match config.parity {
            Parity::ParityNone => (false, false, false),
            Parity::ParityEven => (true, true, false),
            Parity::ParityOdd => (true, true, true),
        };
        u.m = word_length;
        u.pce = parity_control_enable;
        u.ps = parity;
        // Configure the stop bits.
        let stop_bits: u8 = match config.stopbits {
            StopBits::STOP1 => 0b00,
            StopBits::STOP0P5 => 0b01,
            StopBits::STOP2 => 0b10,
            StopBits::STOP1P5 => 0b11,
        };
        u.stop = stop_bits;
        // Enable the line, the receiver and the transmitter.
        u.ue = true;
        u.re = true;
        u.te = true;
        Serial { regs: u, pins }
    }

    /// One non-blocking receive poll, see [`read_rel`].
    pub fn read(&mut self) -> (r: ReadResult)
        ensures
            read_rel(old(self).regs, final(self).regs, r),
            final(self).pins == old(self).pins,
    {
        self.regs.poll_read()
    }

    /// One non-blocking transmit poll, see [`write_rel`].
    pub fn write(&mut self, byte: u8) -> (r: TxPoll)
        ensures
            write_rel(old(self).regs, final(self).regs, byte, r),
            final(self).pins == old(self).pins,
    {
        self.regs.poll_write(byte)
    }

    /// One flush poll, see [`flush_rel`].
    pub fn flush(&mut self) -> (r: TxPoll)
        ensures
            flush_rel(old(self).regs, final(self).regs, r),
            final(self).pins == old(self).pins,
    {
        self.regs.poll_flush()
    }

    /// Starts listening to one event by setting its interrupt-enable bit.
    /// Only notification is affected, never the polling protocol.
    pub fn listen(&mut self, event: Event)
        ensures
            event_rel(old(self).regs, final(self).regs, event, true),
            final(self).pins == old(self).pins,
    {
        self.regs.set_event(event, true);
    }

    /// Stops listening to one event by clearing its interrupt-enable bit.
    pub fn unlisten(&mut self, event: Event)
        ensures
            event_rel(old(self).regs, final(self).regs, event, false),
            final(self).pins == old(self).pins,
    {
        self.regs.set_event(event, false);
    }

    /// Returns ownership of the register block and the pins to the caller,
    /// leaving the hardware line enabled: any further teardown is the
    /// caller's decision.
    pub fn release(self) -> (r: (UsartRegs, Pins))
        ensures
            r.0 == self.regs,
            r.1 == self.pins,
    {
        (self.regs, self.pins)
    }

    /// Irreversibly partitions the line into a transmit and a receive
    /// capability, handing the register block back alongside them. No
    /// combined handle remains; the two halves operate independently on the
    /// block they are given.
    pub fn split(self) -> (r: (Tx, Rx, UsartRegs))
        ensures
            r.0.usart == self.regs.id,
            r.1.usart == self.regs.id,
            r.2 == self.regs,
    {
        let Serial { regs, pins: _ } = self;
        (Tx { usart: regs.id }, Rx { usart: regs.id }, regs)
    }
}

/// Reset-controller state after initializing one instance: that instance
/// enabled, every other left as it was.
pub open spec fn rcc_after_init(pre: Rcc, post: Rcc, id: Instance) -> bool {
    &&& rcc_enabled(post, id)
    &&& forall|other: Instance|
        other != id ==> rcc_enabled(post, other) == rcc_enabled(pre, other)
}

/// Remap-register state after initializing one instance with the given
/// remap code: that instance's field programmed, the others left as they
/// were. The first two instances encode "code equals one" in their single
/// bit; the third stores the two-bit code.
pub open spec fn mapr_after_init(pre: Mapr, post: Mapr, id: Instance, code: u8) -> bool {
    match id {
        Instance::Usart1 => post == (Mapr { usart1_remap: code == 1, ..pre }),
        Instance::Usart2 => post == (Mapr { usart2_remap: code == 1, ..pre }),
        Instance::Usart3 => post == (Mapr { usart3_remap: code, ..pre }),
    }
}

/// Receive capability for one instance: a move-only token produced by
/// [`Serial::split`]. It operates only on the register block of its own
/// instance.
pub struct Rx {
    pub usart: Instance,
}

/// Transmit capability for one instance, the counterpart of [`Rx`].
pub struct Tx {
    pub usart: Instance,
}

impl Rx {
    /// One non-blocking receive poll through the receive capability.
    pub fn read(&mut self, regs: &mut UsartRegs) -> (r: ReadResult)
        requires
            old(regs).id == self.usart,
        ensures
            read_rel(*old(regs), *final(regs), r),
            *final(self) == *old(self),
    {
        regs.poll_read()
    }

    /// Starts listening to the data-ready event. Only the receive-side
    /// enable bit moves; the transmit side is untouched.
    pub fn listen(&mut self, regs: &mut UsartRegs)
        requires
            old(regs).id == self.usart,
        ensures
            event_rel(*old(regs), *final(regs), Event::Rxne, true),
            *final(self) == *old(self),
    {
        regs.set_event(Event::Rxne, true);
    }

    /// Stops listening to the data-ready event.
    pub fn unlisten(&mut self, regs: &mut UsartRegs)
        requires
            old(regs).id == self.usart,
        ensures
            event_rel(*old(regs), *final(regs), Event::Rxne, false),
            *final(self) == *old(self),
    {
        regs.set_event(Event::Rxne, false);
    }
}

impl Tx {
    /// One non-blocking transmit poll through the transmit capability.
    pub fn write(&mut self, regs: &mut UsartRegs, byte: u8) -> (r: TxPoll)
        requires
            old(regs).id == self.usart,
        ensures
            write_rel(*old(regs), *final(regs), byte, r),
            *final(self) == *old(self),
    {
        regs.poll_write(byte)
    }

    /// One flush poll through the transmit capability.
    pub fn flush(&mut self, regs: &mut UsartRegs) -> (r: TxPoll)
        requires
            old(regs).id == self.usart,
        ensures
            flush_rel(*old(regs), *final(regs), r),
            *final(self) == *old(self),
    {
        regs.poll_flush()
    }

    /// Starts listening to the transmit-empty event. Only the transmit-side
    /// enable bit moves; the receive side is untouched.
    pub fn listen(&mut self, regs: &mut UsartRegs)
        requires
            old(regs).id == self.usart,
        ensures
            event_rel(*old(regs), *final(regs), Event::Txe, true),
            *final(self) == *old(self),
    {
        regs.set_event(Event::Txe, true);
    }

    /// Stops listening to the transmit-empty event.
    pub fn unlisten(&mut self, regs: &mut UsartRegs)
        requires
            old(regs).id == self.usart,
        ensures
            event_rel(*old(regs), *final(regs), Event::Txe, false),
            *final(self) == *old(self),
    {
        regs.set_event(Event::Txe, false);
    }
}

/// A receive poll on a quiet line — no fault latched, no data ready — is
/// refused, never ready and never a fault, and moves no device state: polling
/// is idempotent.
pub proof fn lemma_quiet_poll_would_block(pre: UsartRegs, post: UsartRegs, r: ReadResult)
    requires
        read_rel(pre, post, r),
        fault_of(pre) is None,
        !pre.rxne,
    ensures
        r is WouldBlock,
        ctrl_unchanged(pre, post),
        rx_side_unchanged(pre, post),
        tx_side_unchanged(pre, post),
{
}

/// On a latched fault, a receive poll reports the highest-priority fault and
/// runs the clear sequence: exactly two more register reads, the status
/// register and then the data register, after the initial status inspection.
/// The sequence is exactly sufficient: afterwards no fault is latched, so an
/// immediately following poll cannot report the same fault again.
pub proof fn lemma_fault_reported_once(pre: UsartRegs, post: UsartRegs, r: ReadResult)
    requires
        read_rel(pre, post, r),
        fault_of(pre) is Some,
    ensures
        r == ReadResult::Faulted(fault_of(pre)->0),
        post.accesses@ =~= pre.accesses@ + seq![
            RegAccess::StatusRead,
            RegAccess::StatusRead,
            RegAccess::DataRead,
        ],
        fault_of(post) is None,
        forall|post2: UsartRegs, r2: ReadResult|
            read_rel(post, post2, r2) ==> !(r2 is Faulted),
{
    assert forall|post2: UsartRegs, r2: ReadResult|
        read_rel(post, post2, r2) implies !(r2 is Faulted) by {
        assert(fault_of(post) is None);
    }
}

/// An accepted write leaves the transmission-complete flag cleared, so an
/// immediately following flush is refused; flush reports ready exactly when
/// the transmission-complete flag is set; and whether a write is accepted
/// depends only on the holding-register flag, never on flush state.
pub proof fn lemma_write_then_flush(
    s0: UsartRegs,
    s1: UsartRegs,
    byte: u8,
    r1: TxPoll,
    s2: UsartRegs,
    r2: TxPoll,
)
    requires
        write_rel(s0, s1, byte, r1),
        r1 is Ready,
        flush_rel(s1, s2, r2),
    ensures
        r2 is WouldBlock,
        s1.tx_last == byte,
{
}

/// Flush is ready exactly when the transmission-complete flag is set, and a
/// write is accepted exactly when the holding register is empty — the two
/// polls are decided by independent flags.
pub proof fn lemma_write_flush_independent(
    pre: UsartRegs,
    post: UsartRegs,
    byte: u8,
    rw: TxPoll,
    fpre: UsartRegs,
    fpost: UsartRegs,
    rf: TxPoll,
)
    requires
        write_rel(pre, post, byte, rw),
        flush_rel(fpre, fpost, rf),
    ensures
        rw is Ready <==> pre.txe,
        rf is Ready <==> fpre.tc,
{
}

/// A flush reports ready for as long as the transmission-complete flag
/// stands — and the streak ends exactly with the next accepted write, which
/// clears the flag, so flush is refused again until the device signals
/// completion anew.
pub proof fn lemma_flush_ready_until_next_write(
    s0: UsartRegs,
    s1: UsartRegs,
    rf: TxPoll,
    s2: UsartRegs,
    byte: u8,
    rw: TxPoll,
    s3: UsartRegs,
    rf2: TxPoll,
)
    requires
        flush_rel(s0, s1, rf),
        s0.tc,
        write_rel(s1, s2, byte, rw),
        rw is Ready,
        flush_rel(s2, s3, rf2),
    ensures
        rf is Ready,
        rf2 is WouldBlock,
{
}

/// Operating the receive capability never observes or moves the transmit
/// side's interrupt enable, and the transmit capability never the receive
/// side's: the split is a true partition.
pub proof fn lemma_split_isolation(pre: UsartRegs, post: UsartRegs, on: bool)
    ensures
        event_rel(pre, post, Event::Rxne, on) ==> post.txeie == pre.txeie && post.idleie
            == pre.idleie && tx_side_unchanged(pre, post),
        event_rel(pre, post, Event::Txe, on) ==> post.rxneie == pre.rxneie && post.idleie
            == pre.idleie && rx_side_unchanged(pre, post),
{
}

} // verus!
