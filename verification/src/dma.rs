//! The DMA transfer model: one-shot and circular bulk transfers over a
//! receive or transmit capability.
//!
//! A [`DmaChannel`] models one channel of the DMA engine as its programmed
//! register state. Promoting a capability with `with_dma` arms the
//! peripheral's DMA request enable; creating a transfer programs the channel
//! (addresses, length, direction, circular mode), issues the memory-ordering
//! fence and starts the engine, taking ownership of the buffer for the
//! transfer's duration; `release` stops the channel — necessarily before the
//! request enable is cleared — and hands every owned resource back.

use core::sync::atomic::{compiler_fence, Ordering};
use vstd::prelude::*;

use crate::device::{ctrl_frame_but_dma, Instance, UsartRegs};
use crate::serial::{Rx, Tx};

verus! {

/// Identity of a DMA channel. Which channel serves which direction of which
/// USART instance is fixed in hardware, see [`rx_channel_of`] and
/// [`tx_channel_of`].
#[derive(Clone, Copy, Debug, PartialEq, Eq, Structural)]
pub enum ChannelId {
    C2,
    C3,
    C4,
    C5,
    C6,
    C7,
}

/// Transfer direction of a channel.
#[derive(Clone, Copy, Debug, PartialEq, Eq, Structural)]
pub enum Direction {
    /// The engine copies from the peripheral's data register into memory.
    PeripheralToMemory,
    /// The engine copies from memory into the peripheral's data register.
    MemoryToPeripheral,
}

/// Bus priority of a channel.
#[derive(Clone, Copy, Debug, PartialEq, Eq, Structural)]
pub enum Priority {
    Low,
    Medium,
    High,
    VeryHigh,
}

/// Element size of one side of a transfer.
#[derive(Clone, Copy, Debug, PartialEq, Eq, Structural)]
pub enum WordSize {
    Bits8,
    Bits16,
    Bits32,
}

/// The DMA channel that serves the receive side of an instance.
pub open spec fn rx_channel_of(id: Instance) -> ChannelId {
    match id {
        Instance::Usart1 => ChannelId::C5,
        Instance::Usart2 => ChannelId::C6,
        Instance::Usart3 => ChannelId::C3,
    }
}

/// The DMA channel that serves the transmit side of an instance.
pub open spec fn tx_channel_of(id: Instance) -> ChannelId {
    match id {
        Instance::Usart1 => ChannelId::C4,
        Instance::Usart2 => ChannelId::C7,
        Instance::Usart3 => ChannelId::C2,
    }
}

/// The fixed bus address of an instance's data register, the peripheral-side
/// address of every transfer.
pub open spec fn data_register_addr(id: Instance) -> u32 {
    match id {
        Instance::Usart1 => 0x4001_3804u32,
        Instance::Usart2 => 0x4000_4404u32,
        Instance::Usart3 => 0x4000_4804u32,
    }
}

/// The data register address of an instance.
pub fn dr_addr(id: Instance) -> (a: u32)
    ensures
        a == data_register_addr(id),
{
    match id {
        Instance::Usart1 => 0x4001_3804,
        Instance::Usart2 => 0x4000_4404,
        Instance::Usart3 => 0x4000_4804,
    }
}

/// Register state of one DMA channel.
#[derive(Clone, Copy, Debug, PartialEq, Eq, Structural)]
pub struct DmaChannel {
    pub id: ChannelId,
    /// Peripheral-side address and whether it increments.
    pub peripheral_addr: u32,
    pub periph_inc: bool,
    /// Memory-side address and whether it increments.
    pub memory_addr: u32,
    pub mem_inc: bool,
    /// Number of elements to move.
    pub transfer_length: u16,
    /// Memory-to-memory mode.
    pub mem2mem: bool,
    pub priority: Priority,
    /// Memory-side element size.
    pub msize: WordSize,
    /// Peripheral-side element size.
    pub psize: WordSize,
    /// Circular mode.
    pub circ: bool,
    pub dir: Direction,
    /// Whether the engine is armed on this channel.
    pub running: bool,
    /// Half-transfer-complete flag, raised by the engine.
    pub htif: bool,
    /// Transfer-complete flag, raised by the engine.
    pub tcif: bool,
}

impl DmaChannel {
    /// An idle, unprogrammed channel.
    pub fn new(id: ChannelId) -> (c: DmaChannel)
        ensures
            c == (DmaChannel {
                id,
                peripheral_addr: 0u32,
                periph_inc: false,
                memory_addr: 0u32,
                mem_inc: false,
                transfer_length: 0u16,
                mem2mem: false,
                priority: Priority::Low,
                msize: WordSize::Bits8,
                psize: WordSize::Bits8,
                circ: false,
                dir: Direction::PeripheralToMemory,
                running: false,
                htif: false,
                tcif: false,
            }),
    {
        DmaChannel {
            id,
            peripheral_addr: 0,
            periph_inc: false,
            memory_addr: 0,
            mem_inc: false,
            transfer_length: 0,
            mem2mem: false,
            priority: Priority::Low,
            msize: WordSize::Bits8,
            psize: WordSize::Bits8,
            circ: false,
            dir: Direction::PeripheralToMemory,
            running: false,
            htif: false,
            tcif: false,
        }
    }

    /// Programs the peripheral-side address.
    pub fn set_peripheral_address(&mut self, addr: u32, inc: bool)
        ensures
            *final(self) == (DmaChannel { peripheral_addr: addr, periph_inc: inc, ..*old(self) }),
    {
        self.peripheral_addr = addr;
        self.periph_inc = inc;
    }

    /// Programs the memory-side address.
    pub fn set_memory_address(&mut self, addr: u32, inc: bool)
        ensures
            *final(self) == (DmaChannel { memory_addr: addr, mem_inc: inc, ..*old(self) }),
    {
        self.memory_addr = addr;
        self.mem_inc = inc;
    }

    /// Programs the number of elements to move.
    pub fn set_transfer_length(&mut self, len: u16)
        ensures
            *final(self) == (DmaChannel { transfer_length: len, ..*old(self) }),
    {
        self.transfer_length = len;
    }

    /// One write of the channel's configuration register: mode, priority,
    /// element sizes, circular flag and direction.
    pub fn set_control(&mut self, mem2mem: bool, priority: Priority, msize: WordSize,
        psize: WordSize, circ: bool, dir: Direction)
        ensures
            *final(self) == (DmaChannel {
                mem2mem,
                priority,
                msize,
                psize,
                circ,
                dir,
                ..*old(self)
            }),
    {
        self.mem2mem = mem2mem;
        self.priority = priority;
        self.msize = msize;
        self.psize = psize;
        self.circ = circ;
        self.dir = dir;
    }

    /// Arms the engine on this channel; the completion flags start cleared.
    pub fn start(&mut self)
        ensures
            *final(self) == (DmaChannel { running: true, htif: false, tcif: false, ..*old(self) }),
    {
        self.running = true;
        self.htif = false;
        self.tcif = false;
    }

    /// Halts the engine on this channel, synchronously and deterministically.
    pub fn stop(&mut self)
        ensures
            *final(self) == (DmaChannel { running: false, ..*old(self) }),
    {
        self.running = false;
    }

    /// Engine side: the first half of a circular transfer has been filled.
    pub fn device_half_complete(&mut self)
        requires
            old(self).running,
        ensures
            *final(self) == (DmaChannel { htif: true, ..*old(self) }),
    {
        self.htif = true;
    }

    /// Engine side: the transfer (or the second half, in circular mode) has
    /// completed.
    pub fn device_transfer_complete(&mut self)
        requires
            old(self).running,
        ensures
            *final(self) == (DmaChannel { tcif: true, ..*old(self) }),
    {
        self.tcif = true;
    }
}

/// Issues the release-ordering fence that makes every CPU write to a
/// transfer buffer visible before the DMA engine — an independent bus
/// master — can be started.
///
/// Relies on core::sync::atomic::compiler_fence with release ordering: it
/// prevents the compiler from reordering memory accesses across the engine
/// hand-off point and computes nothing, so there is nothing further to state.
#[verifier::external_body]
fn release_fence() {
    compiler_fence(Ordering::Release);
}

/// A caller-supplied transfer buffer: a fixed region of memory, whose base
/// address and length stay valid and unchanged for a transfer's duration —
/// which is why transfers take it by ownership.
pub struct DmaBuffer {
    /// Base address of the region in the memory the engine sees.
    pub base: u32,
    /// The bytes of the region.
    pub data: Vec<u8>,
}

/// A caller-supplied two-half circular buffer: a fixed region holding two
/// equally sized halves that the engine fills in alternation.
pub struct DoubleBuffer {
    /// Base address of the region in the memory the engine sees.
    pub base: u32,
    /// The half the engine fills first.
    pub first: Vec<u8>,
    /// The half the engine fills second.
    pub second: Vec<u8>,
}

/// A receive capability promoted with a DMA channel: the peripheral's
/// receive request line is armed for as long as this pair exists.
pub struct RxDma {
    pub payload: Rx,
    pub channel: DmaChannel,
}

/// A transmit capability promoted with a DMA channel.
pub struct TxDma {
    pub payload: Tx,
    pub channel: DmaChannel,
}

/// Writes the peripheral's DMA request enables (a whole-register write of
/// the third control register: both bits take the given values).
///
/// The write is only lawful while the channel is halted: clearing an enable
/// under a running engine could tear a half-programmed handoff. The
/// precondition is what forces `release` to stop the channel first.
pub fn write_dma_requests(regs: &mut UsartRegs, ch: &DmaChannel, dmar: bool, dmat: bool)
    requires
        !ch.running,
    ensures
        final(regs).dmar == dmar,
        final(regs).dmat == dmat,
        ctrl_frame_but_dma(*old(regs), *final(regs)),
{
    regs.write_cr3(dmar, dmat);
}

/// The channel state programmed for a transfer of this peripheral: fixed
/// peripheral-side data register address, incrementing memory-side address at
/// the buffer's base, element count of the buffer, byte-sized elements on
/// both sides, medium priority, the given circular flag and direction, and
/// the engine armed with fresh completion flags.
pub open spec fn programmed(post: DmaChannel, pre: DmaChannel, id: Instance, mem_base: u32,
    len: u16, circ: bool, dir: Direction) -> bool {
    post == (DmaChannel {
        peripheral_addr: data_register_addr(id),
        periph_inc: false,
        memory_addr: mem_base,
        mem_inc: true,
        transfer_length: len,
        mem2mem: false,
        priority: Priority::Medium,
        msize: WordSize::Bits8,
        psize: WordSize::Bits8,
        circ,
        dir,
        running: true,
        htif: false,
        tcif: false,
        ..pre
    })
}

impl Rx {
    /// Promotes this receive capability with a DMA channel: arms the
    /// peripheral's receive request enable (a whole-register write: the
    /// transmit request enable is cleared by it). The channel must be the
    /// one hard-wired to this instance's receive side, and halted.
    pub fn with_dma(self, channel: DmaChannel, regs: &mut UsartRegs) -> (r: RxDma)
        requires
            old(regs).id == self.usart,
            channel.id == rx_channel_of(self.usart),
            !channel.running,
        ensures
            r.payload == self,
            r.channel == channel,
            final(regs).dmar && !final(regs).dmat,
            ctrl_frame_but_dma(*old(regs), *final(regs)),
    {
        write_dma_requests(regs, &channel, true, false);
        RxDma { payload: self, channel }
    }
}

impl Tx {
    /// Promotes this transmit capability with a DMA channel, arming the
    /// peripheral's transmit request enable; the counterpart of
    /// [`Rx::with_dma`].
    pub fn with_dma(self, channel: DmaChannel, regs: &mut UsartRegs) -> (r: TxDma)
        requires
            old(regs).id == self.usart,
            channel.id == tx_channel_of(self.usart),
            !channel.running,
        ensures
            r.payload == self,
            r.channel == channel,
            !final(regs).dmar && final(regs).dmat,
            ctrl_frame_but_dma(*old(regs), *final(regs)),
    {
        write_dma_requests(regs, &channel, false, true);
        TxDma { payload: self, channel }
    }
}

/// A one-shot transfer filling a buffer from the receive side. While it
/// exists, buffer, channel and capability are owned here and inaccessible to
/// the caller.
pub struct RxTransfer {
    pub buffer: DmaBuffer,
    pub payload: RxDma,
}

/// A one-shot transfer draining a buffer into the transmit side.
pub struct TxTransfer {
    pub buffer: DmaBuffer,
    pub payload: TxDma,
}

impl RxDma {
    /// Starts the engine on the programmed channel.
    pub fn start(&mut self)
        ensures
            final(self).payload == old(self).payload,
            final(self).channel == (DmaChannel {
                running: true,
                htif: false,
                tcif: false,
                ..old(self).channel
            }),
    {
        self.channel.start();
    }

    /// Halts the engine on the channel.
    pub fn stop(&mut self)
        ensures
            final(self).payload == old(self).payload,
            final(self).channel == (DmaChannel { running: false, ..old(self).channel }),
    {
        self.channel.stop();
    }

    /// Tears the promotion down: stops the channel, and only then — the
    /// request write demands a halted channel — clears both peripheral DMA
    /// request enables, then returns the capability and the channel.
    pub fn release(self, regs: &mut UsartRegs) -> (r: (Rx, DmaChannel))
        requires
            old(regs).id == self.payload.usart,
        ensures
            r.0 == self.payload,
            r.1 == (DmaChannel { running: false, ..self.channel }),
            !final(regs).dmar && !final(regs).dmat,
            ctrl_frame_but_dma(*old(regs), *final(regs)),
    {
        let RxDma { payload, mut channel } = self;
        channel.stop();
        write_dma_requests(regs, &channel, false, false);
        (payload, channel)
    }

    /// Creates a one-shot transfer that fills the buffer from this
    /// instance's data register: peripheral-to-memory, circular mode off,
    /// transfer length equal to the buffer's element count. The buffer is
    /// owned by the returned transfer until release.
    pub fn read(self, buffer: DmaBuffer) -> (t: RxTransfer)
        requires
            !self.channel.running,
            buffer.data.len() <= 0xFFFF,
        ensures
            t.payload.payload == self.payload,
            t.buffer.base == buffer.base,
            t.buffer.data@ == buffer.data@,
            programmed(
                t.payload.channel,
                self.channel,
                self.payload.usart,
                buffer.base,
                buffer.data.len() as u16,
                false,
                Direction::PeripheralToMemory,
            ),
    {
        let RxDma { payload, mut channel } = self;
        channel.set_peripheral_address(dr_addr(payload.usart), false);
        channel.set_memory_address(buffer.base, true);
        channel.set_transfer_length(buffer.data.len() as u16);
        // All CPU writes to the buffer must be visible before the engine is
        // armed.
        release_fence();
        channel.set_control(false, Priority::Medium, WordSize::Bits8, WordSize::Bits8, false,
            Direction::PeripheralToMemory);
        channel.start();
        RxTransfer { buffer, payload: RxDma { payload, channel } }
    }

    /// Creates a circular transfer over a two-half buffer: the same
    /// programming as a one-shot read except that circular mode is on and
    /// the length covers both halves; the engine refills the halves in
    /// alternation without CPU intervention.
    pub fn circ_read(self, buffer: DoubleBuffer) -> (t: CircBuffer)
        requires
            !self.channel.running,
            buffer.first.len() == buffer.second.len(),
            buffer.first.len() + buffer.second.len() <= 0xFFFF,
        ensures
            t.payload.payload == self.payload,
            t.buffer.base == buffer.base,
            t.buffer.first@ == buffer.first@,
            t.buffer.second@ == buffer.second@,
            programmed(
                t.payload.channel,
                self.channel,
                self.payload.usart,
                buffer.base,
                (buffer.first.len() + buffer.second.len()) as u16,
                true,
                Direction::PeripheralToMemory,
            ),
    {
        let RxDma { payload, mut channel } = self;
        channel.set_peripheral_address(dr_addr(payload.usart), false);
        channel.set_memory_address(buffer.base, true);
        channel.set_transfer_length((buffer.first.len() + buffer.second.len()) as u16);
        release_fence();
        channel.set_control(false, Priority::Medium, WordSize::Bits8, WordSize::Bits8, true,
            Direction::PeripheralToMemory);
        channel.start();
        CircBuffer { buffer, payload: RxDma { payload, channel } }
    }
}

impl TxDma {
    /// Starts the engine on the programmed channel.
    pub fn start(&mut self)
        ensures
            final(self).payload == old(self).payload,
            final(self).channel == (DmaChannel {
                running: true,
                htif: false,
                tcif: false,
                ..old(self).channel
            }),
    {
        self.channel.start();
    }

    /// Halts the engine on the channel.
    pub fn stop(&mut self)
        ensures
            final(self).payload == old(self).payload,
            final(self).channel == (DmaChannel { running: false, ..old(self).channel }),
    {
        self.channel.stop();
    }

    /// Tears the promotion down: stops the channel before clearing both
    /// peripheral DMA request enables, then returns the capability and the
    /// channel.
    pub fn release(self, regs: &mut UsartRegs) -> (r: (Tx, DmaChannel))
        requires
            old(regs).id == self.payload.usart,
        ensures
            r.0 == self.payload,
            r.1 == (DmaChannel { running: false, ..self.channel }),
            !final(regs).dmar && !final(regs).dmat,
            ctrl_frame_but_dma(*old(regs), *final(regs)),
    {
        let TxDma { payload, mut channel } = self;
        channel.stop();
        write_dma_requests(regs, &channel, false, false);
        (payload, channel)
    }

    /// Creates a one-shot transfer that drains the buffer into this
    /// instance's data register: memory-to-peripheral, circular mode off,
    /// transfer length equal to the buffer's element count.
    pub fn write(self, buffer: DmaBuffer) -> (t: TxTransfer)
        requires
            !self.channel.running,
            buffer.data.len() <= 0xFFFF,
        ensures
            t.payload.payload == self.payload,
            t.buffer.base == buffer.base,
            t.buffer.data@ == buffer.data@,
            programmed(
                t.payload.channel,
                self.channel,
                self.payload.usart,
                buffer.base,
                buffer.data.len() as u16,
                false,
                Direction::MemoryToPeripheral,
            ),
    {
        let TxDma { payload, mut channel } = self;
        channel.set_peripheral_address(dr_addr(payload.usart), false);
        channel.set_memory_address(buffer.base, true);
        channel.set_transfer_length(buffer.data.len() as u16);
        // The bytes to send must be visible before the engine is armed.
        release_fence();
        channel.set_control(false, Priority::Medium, WordSize::Bits8, WordSize::Bits8, false,
            Direction::MemoryToPeripheral);
        channel.start();
        TxTransfer { buffer, payload: TxDma { payload, channel } }
    }
}

impl RxTransfer {
    /// Whether the engine has signalled completion.
    pub fn is_done(&self) -> (r: bool)
        ensures
            r == self.payload.channel.tcif,
    {
        self.payload.channel.tcif
    }

    /// Engine side: the transfer deposits bytes in the owned buffer, one for
    /// each element it was programmed for.
    pub fn device_fill(&mut self, bytes: Vec<u8>)
        requires
            old(self).payload.channel.running,
            bytes.len() == old(self).buffer.data.len(),
        ensures
            final(self).buffer.data@ == bytes@,
            final(self).buffer.base == old(self).buffer.base,
            final(self).payload == old(self).payload,
    {
        self.buffer.data = bytes;
    }

    /// Ends the transfer: stops the channel, then — only once it is halted —
    /// clears the peripheral DMA request enables, and returns capability,
    /// channel and buffer to the caller.
    pub fn release(self, regs: &mut UsartRegs) -> (r: (Rx, DmaChannel, DmaBuffer))
        requires
            old(regs).id == self.payload.payload.usart,
        ensures
            r.0 == self.payload.payload,
            r.1 == (DmaChannel { running: false, ..self.payload.channel }),
            r.2.base == self.buffer.base,
            r.2.data@ == self.buffer.data@,
            !final(regs).dmar && !final(regs).dmat,
            ctrl_frame_but_dma(*old(regs), *final(regs)),
    {
        let RxTransfer { buffer, payload } = self;
        let (rx, channel) = payload.release(regs);
        (rx, channel, buffer)
    }
}

impl TxTransfer {
    /// Whether the engine has signalled completion.
    pub fn is_done(&self) -> (r: bool)
        ensures
            r == self.payload.channel.tcif,
    {
        self.payload.channel.tcif
    }

    /// Ends the transfer: stops the channel before clearing the peripheral
    /// DMA request enables, and returns capability, channel and buffer.
    pub fn release(self, regs: &mut UsartRegs) -> (r: (Tx, DmaChannel, DmaBuffer))
        requires
            old(regs).id == self.payload.payload.usart,
        ensures
            r.0 == self.payload.payload,
            r.1 == (DmaChannel { running: false, ..self.payload.channel }),
            r.2.base == self.buffer.base,
            r.2.data@ == self.buffer.data@,
            !final(regs).dmar && !final(regs).dmat,
            ctrl_frame_but_dma(*old(regs), *final(regs)),
    {
        let TxTransfer { buffer, payload } = self;
        let (tx, channel) = payload.release(regs);
        (tx, channel, buffer)
    }
}

/// One half of a circular buffer.
#[derive(Clone, Copy, Debug, PartialEq, Eq, Structural)]
pub enum Half {
    First,
    Second,
}

/// The half of a circular transfer that is ready to be read, decoded from
/// the engine's completion flags: after the half-complete signal the engine
/// is writing the second half, so the first is readable; after the
/// transfer-complete signal it has wrapped into the first, so the second is
/// readable; before either, no half may be touched.
pub open spec fn readable_of(ch: DmaChannel) -> Option<Half> {
    if ch.tcif {
        Some(Half::Second)
    } else if ch.htif {
        Some(Half::First)
    } else {
        None
    }
}

/// A running circular transfer over a two-half buffer. The engine fills the
/// halves in alternation; only the half it is not writing may be read, and
/// [`CircBuffer::peek`] enforces exactly that.
pub struct CircBuffer {
    pub buffer: DoubleBuffer,
    pub payload: RxDma,
}

impl CircBuffer {
    /// The half currently ready to be read, or `None` while the engine is
    /// still filling the first half.
    pub fn readable_half(&self) -> (r: Option<Half>)
        ensures
            r == readable_of(self.payload.channel),
    {
        if self.payload.channel.tcif {
            Some(Half::Second)
        } else if self.payload.channel.htif {
            Some(Half::First)
        } else {
            None
        }
    }

    /// Reads the given half. Only the readable half — the one the engine is
    /// not currently writing — can be requested: reading the other would be
    /// a data race with the engine.
    pub fn peek(&self, half: Half) -> (r: &Vec<u8>)
        requires
            readable_of(self.payload.channel) == Some(half),
        ensures
            half is First ==> r@ == self.buffer.first@,
            half is Second ==> r@ == self.buffer.second@,
    {
        match half {
            Half::First => &self.buffer.first,
            Half::Second => &self.buffer.second,
        }
    }

    /// Engine side: the engine deposits bytes in the half it is writing.
    pub fn device_fill_half(&mut self, half: Half, bytes: Vec<u8>)
        requires
            old(self).payload.channel.running,
            half is First ==> bytes.len() == old(self).buffer.first.len(),
            half is Second ==> bytes.len() == old(self).buffer.second.len(),
        ensures
            final(self).payload == old(self).payload,
            final(self).buffer.base == old(self).buffer.base,
            half is First ==> final(self).buffer.first@ == bytes@ && final(self).buffer.second@
                == old(self).buffer.second@,
            half is Second ==> final(self).buffer.second@ == bytes@ && final(self).buffer.first@
                == old(self).buffer.first@,
    {
        match half {
            Half::First => self.buffer.first = bytes,
            Half::Second => self.buffer.second = bytes,
        }
    }

    /// Ends the circular transfer: stops the channel before clearing the
    /// peripheral DMA request enables, and returns capability, channel and
    /// the two-half buffer.
    pub fn release(self, regs: &mut UsartRegs) -> (r: (Rx, DmaChannel, DoubleBuffer))
        requires
            old(regs).id == self.payload.payload.usart,
        ensures
            r.0 == self.payload.payload,
            r.1 == (DmaChannel { running: false, ..self.payload.channel }),
            r.2.base == self.buffer.base,
            r.2.first@ == self.buffer.first@,
            r.2.second@ == self.buffer.second@,
            !final(regs).dmar && !final(regs).dmat,
            ctrl_frame_but_dma(*old(regs), *final(regs)),
    {
        let CircBuffer { buffer, payload } = self;
        let (rx, channel) = payload.release(regs);
        (rx, channel, buffer)
    }
}

/// A one-shot receive transfer is programmed with the transfer length equal
/// to the buffer's element count, direction peripheral-to-memory and
/// circular mode off; a transmit transfer with direction
/// memory-to-peripheral; a circular read differs from the one-shot read only
/// in the circular flag and in covering both halves.
pub proof fn lemma_transfer_programming(post: DmaChannel, pre: DmaChannel, id: Instance,
    mem_base: u32, len: u16, circ: bool, dir: Direction)
    requires
        programmed(post, pre, id, mem_base, len, circ, dir),
    ensures
        post.transfer_length == len,
        post.circ == circ,
        post.dir == dir,
        post.peripheral_addr == data_register_addr(id),
        post.memory_addr == mem_base,
        post.running,
{
}

} // verus!
