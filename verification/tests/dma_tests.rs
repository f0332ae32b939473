use usart_hal::config::Config;
use usart_hal::device::{Clocks, Instance, Mapr, Rcc, UsartRegs};
use usart_hal::dma::{
    dr_addr, ChannelId, CircBuffer, Direction, DmaBuffer, DmaChannel, DoubleBuffer, Half, Priority,
    RxTransfer, WordSize,
};
use usart_hal::serial::{Pins, Serial};

fn split_usart1() -> (usart_hal::serial::Tx, usart_hal::serial::Rx, UsartRegs) {
    let usart = UsartRegs::new(Instance::Usart1);
    let mut mapr = Mapr::new();
    let mut rcc = Rcc::new();
    let clocks = Clocks { pclk1: 36_000_000, pclk2: 72_000_000 };
    let s = Serial::init(usart, Pins::Pa9Pa10, &mut mapr, Config::default(), &clocks, &mut rcc);
    s.split()
}

#[test]
fn data_register_addresses() {
    assert_eq!(dr_addr(Instance::Usart1), 0x4001_3804);
    assert_eq!(dr_addr(Instance::Usart2), 0x4000_4404);
    assert_eq!(dr_addr(Instance::Usart3), 0x4000_4804);
}

#[test]
fn with_dma_arms_request_enables() {
    let (tx, rx, mut regs) = split_usart1();
    let rxdma = rx.with_dma(DmaChannel::new(ChannelId::C5), &mut regs);
    assert!(regs.dmar && !regs.dmat);
    let (rx, ch) = rxdma.release(&mut regs);
    assert!(!regs.dmar && !regs.dmat);
    assert!(!ch.running);
    let _ = rx;
    let txdma = tx.with_dma(DmaChannel::new(ChannelId::C4), &mut regs);
    assert!(!regs.dmar && regs.dmat);
    let (_tx, _ch) = txdma.release(&mut regs);
    assert!(!regs.dmar && !regs.dmat);
}

#[test]
fn one_shot_read_programming() {
    let (_tx, rx, mut regs) = split_usart1();
    let rxdma = rx.with_dma(DmaChannel::new(ChannelId::C5), &mut regs);
    let buffer = DmaBuffer { base: 0x2000_0000, data: vec![0u8; 8] };
    let transfer = rxdma.read(buffer);
    let ch = &transfer.payload.channel;
    assert_eq!(ch.transfer_length, 8);
    assert!(matches!(ch.dir, Direction::PeripheralToMemory));
    assert!(!ch.circ);
    assert_eq!(ch.peripheral_addr, 0x4001_3804);
    assert!(!ch.periph_inc);
    assert_eq!(ch.memory_addr, 0x2000_0000);
    assert!(ch.mem_inc);
    assert!(!ch.mem2mem);
    assert!(matches!(ch.priority, Priority::Medium));
    assert!(matches!(ch.msize, WordSize::Bits8));
    assert!(matches!(ch.psize, WordSize::Bits8));
    assert!(ch.running && !ch.htif && !ch.tcif);
}

#[test]
fn one_shot_write_programming() {
    let (tx, _rx, mut regs) = split_usart1();
    let txdma = tx.with_dma(DmaChannel::new(ChannelId::C4), &mut regs);
    let buffer = DmaBuffer { base: 0x2000_0100, data: vec![1, 2, 3] };
    let transfer = txdma.write(buffer);
    let ch = &transfer.payload.channel;
    assert_eq!(ch.transfer_length, 3);
    assert!(matches!(ch.dir, Direction::MemoryToPeripheral));
    assert!(!ch.circ);
    assert_eq!(ch.peripheral_addr, 0x4001_3804);
    assert_eq!(ch.memory_addr, 0x2000_0100);
    assert!(ch.running);
    // the buffer is owned and carried unchanged
    assert_eq!(transfer.buffer.data, vec![1, 2, 3]);
}

#[test]
fn circular_read_programming() {
    let (_tx, rx, mut regs) = split_usart1();
    let rxdma = rx.with_dma(DmaChannel::new(ChannelId::C5), &mut regs);
    let buffer = DoubleBuffer { base: 0x2000_0200, first: vec![0u8; 4], second: vec![0u8; 4] };
    let circ = rxdma.circ_read(buffer);
    let ch = &circ.payload.channel;
    // circular differs from one-shot only in the circular flag and in
    // covering both halves
    assert!(ch.circ);
    assert_eq!(ch.transfer_length, 8);
    assert!(matches!(ch.dir, Direction::PeripheralToMemory));
    assert_eq!(ch.peripheral_addr, 0x4001_3804);
    assert!(ch.running);
}

#[test]
fn transfer_completion_and_fill() {
    let (_tx, rx, mut regs) = split_usart1();
    let rxdma = rx.with_dma(DmaChannel::new(ChannelId::C5), &mut regs);
    let buffer = DmaBuffer { base: 0x2000_0000, data: vec![0u8; 4] };
    let mut transfer: RxTransfer = rxdma.read(buffer);
    assert!(!transfer.is_done());
    transfer.device_fill(vec![9, 8, 7, 6]);
    transfer.payload.channel.device_transfer_complete();
    assert!(transfer.is_done());
    let (_rx, ch, buffer) = transfer.release(&mut regs);
    assert!(!ch.running);
    assert!(!regs.dmar && !regs.dmat);
    assert_eq!(buffer.data, vec![9, 8, 7, 6]);
    assert_eq!(buffer.base, 0x2000_0000);
}

#[test]
fn release_stops_channel_before_disarming() {
    let (_tx, rx, mut regs) = split_usart1();
    let rxdma = rx.with_dma(DmaChannel::new(ChannelId::C5), &mut regs);
    let buffer = DmaBuffer { base: 0x2000_0000, data: vec![0u8; 4] };
    let transfer = rxdma.read(buffer);
    assert!(transfer.payload.channel.running && regs.dmar);
    let (_rx, ch, _buffer) = transfer.release(&mut regs);
    // after release the channel is halted and the request enables cleared;
    // the request write itself demands a halted channel, so the stop came
    // first
    assert!(!ch.running);
    assert!(!regs.dmar && !regs.dmat);
}

#[test]
fn circular_half_handoff() {
    let (_tx, rx, mut regs) = split_usart1();
    let rxdma = rx.with_dma(DmaChannel::new(ChannelId::C5), &mut regs);
    let buffer = DoubleBuffer { base: 0x2000_0200, first: vec![0u8; 2], second: vec![0u8; 2] };
    let mut circ: CircBuffer = rxdma.circ_read(buffer);
    // before any completion signal, no half may be read
    assert!(circ.readable_half().is_none());
    // the engine fills the first half and signals half-complete
    circ.device_fill_half(Half::First, vec![1, 2]);
    circ.payload.channel.device_half_complete();
    assert!(matches!(circ.readable_half(), Some(Half::First)));
    assert_eq!(circ.peek(Half::First), &vec![1, 2]);
    // the engine fills the second half and signals transfer-complete
    circ.device_fill_half(Half::Second, vec![3, 4]);
    circ.payload.channel.device_transfer_complete();
    assert!(matches!(circ.readable_half(), Some(Half::Second)));
    assert_eq!(circ.peek(Half::Second), &vec![3, 4]);
    let (_rx, ch, buffer) = circ.release(&mut regs);
    assert!(!ch.running);
    assert_eq!(buffer.first, vec![1, 2]);
    assert_eq!(buffer.second, vec![3, 4]);
}

#[test]
fn transmit_transfer_release_returns_buffer() {
    let (tx, _rx, mut regs) = split_usart1();
    let txdma = tx.with_dma(DmaChannel::new(ChannelId::C4), &mut regs);
    let transfer = txdma.write(DmaBuffer { base: 0x2000_0300, data: vec![5, 5] });
    assert!(transfer.payload.channel.running);
    let (_tx, ch, buffer) = transfer.release(&mut regs);
    assert!(!ch.running);
    assert_eq!(buffer.data, vec![5, 5]);
    assert!(!regs.dmat);
}

#[test]
fn fresh_channel_is_idle() {
    let ch = DmaChannel::new(ChannelId::C7);
    assert_eq!(ch.id, ChannelId::C7);
    assert!(!ch.running && !ch.htif && !ch.tcif);
    assert_eq!(ch.transfer_length, 0);
}
