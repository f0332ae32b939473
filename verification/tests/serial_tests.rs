use usart_hal::config::{Config, Parity, RegisterPlan, StopBits};
use usart_hal::config::{resolve, try_resolve};
use usart_hal::device::{Clocks, Instance, Mapr, Rcc, RegAccess, UsartRegs};
use usart_hal::serial::{remap_code, Error, Event, Pins, ReadResult, Serial, TxPoll};

fn clocks() -> Clocks {
    Clocks { pclk1: 36_000_000, pclk2: 72_000_000 }
}

fn make_serial(config: Config) -> Serial {
    let usart = UsartRegs::new(Instance::Usart1);
    let mut mapr = Mapr::new();
    let mut rcc = Rcc::new();
    Serial::init(usart, Pins::Pa9Pa10, &mut mapr, config, &clocks(), &mut rcc)
}

#[test]
fn default_config() {
    let c = Config::default();
    assert_eq!(c.baudrate, 115_200);
    assert!(matches!(c.parity, Parity::ParityNone));
    assert!(matches!(c.stopbits, StopBits::STOP1));
}

#[test]
fn config_builders() {
    let c = Config::default().baudrate(9_600).parity_odd().stopbits(StopBits::STOP2);
    assert_eq!(c.baudrate, 9_600);
    assert!(matches!(c.parity, Parity::ParityOdd));
    assert!(matches!(c.stopbits, StopBits::STOP2));
    let c = c.parity_even();
    assert!(matches!(c.parity, Parity::ParityEven));
    let c = c.parity_none();
    assert!(matches!(c.parity, Parity::ParityNone));
}

#[test]
fn resolver_exact_divisor() {
    let c = Config::default().baudrate(115_200);
    let p = resolve(&c, 72_000_000);
    assert_eq!(p.divisor, 625);
    let p = resolve(&Config::default().baudrate(9_600), 8_000_000);
    assert_eq!(p.divisor, 833);
}

#[test]
fn resolver_rejects_unreachable_baud_rate() {
    // divisor would be 72_000_000 / 6_000_000 = 12 < 16
    let c = Config::default().baudrate(6_000_000);
    assert!(try_resolve(&c, 72_000_000).is_none());
    // divisor exactly 16 is the smallest accepted one
    let c = Config::default().baudrate(4_500_000);
    let p = try_resolve(&c, 72_000_000).unwrap();
    assert_eq!(p.divisor, 16);
    // a zero baud rate is infeasible, not a crash
    assert!(try_resolve(&Config::default().baudrate(0), 72_000_000).is_none());
}

#[test]
fn parity_couples_word_length() {
    let none = resolve(&Config::default().parity_none(), 72_000_000);
    assert!(!none.word_length && !none.parity_enable && !none.parity_odd);
    let even = resolve(&Config::default().parity_even(), 72_000_000);
    assert!(even.word_length && even.parity_enable && !even.parity_odd);
    let odd = resolve(&Config::default().parity_odd(), 72_000_000);
    assert!(odd.word_length && odd.parity_enable && odd.parity_odd);
}

#[test]
fn stop_bits_codes() {
    let code = |s: StopBits| -> u8 { resolve(&Config::default().stopbits(s), 72_000_000).stop_code };
    assert_eq!(code(StopBits::STOP1), 0b00);
    assert_eq!(code(StopBits::STOP0P5), 0b01);
    assert_eq!(code(StopBits::STOP2), 0b10);
    assert_eq!(code(StopBits::STOP1P5), 0b11);
}

#[test]
fn plan_equality_derives() {
    let a = resolve(&Config::default(), 72_000_000);
    let b = RegisterPlan {
        divisor: 625,
        word_length: false,
        parity_enable: false,
        parity_odd: false,
        stop_code: 0,
    };
    assert_eq!(a, b);
}

#[test]
fn remap_table() {
    assert_eq!(remap_code(Pins::Pa9Pa10, Instance::Usart1), Some(0));
    assert_eq!(remap_code(Pins::Pb6Pb7, Instance::Usart1), Some(1));
    assert_eq!(remap_code(Pins::Pa2Pa3, Instance::Usart2), Some(0));
    assert_eq!(remap_code(Pins::Pd5Pd6, Instance::Usart2), Some(0));
    assert_eq!(remap_code(Pins::Pb10Pb11, Instance::Usart3), Some(0));
    assert_eq!(remap_code(Pins::Pc10Pc11, Instance::Usart3), Some(1));
    assert_eq!(remap_code(Pins::Pd8Pd9, Instance::Usart3), Some(3));
    // illegal pairings are rejected, not remapped
    assert_eq!(remap_code(Pins::Pa9Pa10, Instance::Usart2), None);
    assert_eq!(remap_code(Pins::Pd8Pd9, Instance::Usart1), None);
}

#[test]
fn init_programs_registers() {
    let config = Config::default().baudrate(115_200).parity_odd().stopbits(StopBits::STOP2);
    let usart = UsartRegs::new(Instance::Usart3);
    let mut mapr = Mapr::new();
    let mut rcc = Rcc::new();
    let s = Serial::init(usart, Pins::Pd8Pd9, &mut mapr, config, &clocks(), &mut rcc);
    assert!(rcc.usart3_on && !rcc.usart1_on && !rcc.usart2_on);
    assert_eq!(mapr.usart3_remap, 3);
    assert_eq!(s.regs.brr, 36_000_000 / 115_200);
    assert!(s.regs.m && s.regs.pce && s.regs.ps);
    assert_eq!(s.regs.stop, 0b10);
    assert!(s.regs.ue && s.regs.re && s.regs.te);
    assert!(!s.regs.rxneie && !s.regs.txeie && !s.regs.idleie);
    assert!(!s.regs.dmar && !s.regs.dmat);
    assert!(s.regs.txe && s.regs.tc && !s.regs.rxne);
}

#[test]
fn init_single_bit_remap() {
    let usart = UsartRegs::new(Instance::Usart1);
    let mut mapr = Mapr::new();
    let mut rcc = Rcc::new();
    let s = Serial::init(usart, Pins::Pb6Pb7, &mut mapr, Config::default(), &clocks(), &mut rcc);
    assert!(mapr.usart1_remap);
    assert!(!mapr.usart2_remap);
    assert_eq!(s.regs.id, Instance::Usart1);
}

#[test]
fn quiet_read_would_blocks_without_side_effects() {
    let mut s = make_serial(Config::default());
    let before_dr = s.regs.dr;
    assert!(matches!(s.read(), ReadResult::WouldBlock));
    assert!(matches!(s.read(), ReadResult::WouldBlock));
    assert_eq!(s.regs.dr, before_dr);
    assert!(!s.regs.rxne && !s.regs.pe && !s.regs.fe && !s.regs.ne && !s.regs.ore);
    // only status reads were performed
    assert_eq!(s.regs.accesses, vec![RegAccess::StatusRead, RegAccess::StatusRead]);
}

#[test]
fn read_consumes_ready_byte() {
    let mut s = make_serial(Config::default());
    s.regs.device_receive(0x5A);
    assert!(matches!(s.read(), ReadResult::Ready(0x5A)));
    // consumed: a second poll is refused again
    assert!(matches!(s.read(), ReadResult::WouldBlock));
}

#[test]
fn fault_priority_order() {
    let mut s = make_serial(Config::default());
    s.regs.device_parity_fault();
    s.regs.device_framing_fault();
    s.regs.device_noise_fault();
    s.regs.device_overrun_fault();
    assert!(matches!(s.read(), ReadResult::Faulted(Error::Parity)));
    let mut s = make_serial(Config::default());
    s.regs.device_framing_fault();
    s.regs.device_overrun_fault();
    assert!(matches!(s.read(), ReadResult::Faulted(Error::Framing)));
    let mut s = make_serial(Config::default());
    s.regs.device_noise_fault();
    s.regs.device_overrun_fault();
    assert!(matches!(s.read(), ReadResult::Faulted(Error::Noise)));
    let mut s = make_serial(Config::default());
    s.regs.device_overrun_fault();
    assert!(matches!(s.read(), ReadResult::Faulted(Error::Overrun)));
}

#[test]
fn fault_clear_sequence_and_no_repeat() {
    let mut s = make_serial(Config::default());
    s.regs.device_framing_fault();
    assert!(matches!(s.read(), ReadResult::Faulted(Error::Framing)));
    // the clear sequence performed exactly two more reads, status then data,
    // after the initial status inspection
    assert_eq!(
        s.regs.accesses,
        vec![RegAccess::StatusRead, RegAccess::StatusRead, RegAccess::DataRead]
    );
    // with the fault condition removed, the same fault is not reported again
    assert!(matches!(s.read(), ReadResult::WouldBlock));
}

#[test]
fn overrun_on_unread_byte() {
    let mut s = make_serial(Config::default());
    s.regs.device_receive(1);
    s.regs.device_receive(2);
    assert!(matches!(s.read(), ReadResult::Faulted(Error::Overrun)));
}

#[test]
fn write_then_flush_until_complete() {
    let mut s = make_serial(Config::default());
    assert!(matches!(s.write(0x42), TxPoll::Ready));
    assert_eq!(s.regs.tx_last, 0x42);
    // accepted for send is not fully sent
    assert!(matches!(s.flush(), TxPoll::WouldBlock));
    assert!(matches!(s.flush(), TxPoll::WouldBlock));
    // the byte moves to the shift register: write is independent of flush
    s.regs.device_tx_shift();
    assert!(matches!(s.write(0x43), TxPoll::Ready));
    assert!(matches!(s.flush(), TxPoll::WouldBlock));
    // once the wire is idle, flush reports ready
    s.regs.device_tx_complete();
    assert!(matches!(s.flush(), TxPoll::Ready));
    // the next accepted write ends the ready streak
    assert!(matches!(s.write(0x44), TxPoll::Ready));
    assert!(matches!(s.flush(), TxPoll::WouldBlock));
}

#[test]
fn write_refused_while_holding_full() {
    let mut s = make_serial(Config::default());
    assert!(matches!(s.write(1), TxPoll::Ready));
    assert!(matches!(s.write(2), TxPoll::WouldBlock));
    assert_eq!(s.regs.tx_last, 1);
}

#[test]
fn listen_unlisten_events() {
    let mut s = make_serial(Config::default());
    s.listen(Event::Rxne);
    assert!(s.regs.rxneie && !s.regs.txeie && !s.regs.idleie);
    s.listen(Event::Txe);
    s.listen(Event::Idle);
    assert!(s.regs.rxneie && s.regs.txeie && s.regs.idleie);
    s.unlisten(Event::Txe);
    assert!(s.regs.rxneie && !s.regs.txeie && s.regs.idleie);
    s.unlisten(Event::Rxne);
    s.unlisten(Event::Idle);
    assert!(!s.regs.rxneie && !s.regs.txeie && !s.regs.idleie);
}

#[test]
fn split_halves_are_isolated() {
    let s = make_serial(Config::default());
    let (mut tx, mut rx, mut regs) = s.split();
    rx.listen(&mut regs);
    assert!(regs.rxneie && !regs.txeie);
    tx.listen(&mut regs);
    assert!(regs.rxneie && regs.txeie);
    rx.unlisten(&mut regs);
    assert!(!regs.rxneie && regs.txeie);
    tx.unlisten(&mut regs);
    assert!(!regs.rxneie && !regs.txeie);
}

#[test]
fn split_halves_operate_independently() {
    let s = make_serial(Config::default());
    let (mut tx, mut rx, mut regs) = s.split();
    regs.device_receive(9);
    assert!(matches!(tx.write(&mut regs, 7), TxPoll::Ready));
    assert!(matches!(rx.read(&mut regs), ReadResult::Ready(9)));
    assert!(matches!(tx.flush(&mut regs), TxPoll::WouldBlock));
    regs.device_tx_complete();
    assert!(matches!(tx.flush(&mut regs), TxPoll::Ready));
}

#[test]
fn release_returns_resources_unchanged() {
    let s = make_serial(Config::default());
    let brr = s.regs.brr;
    let (regs, pins) = s.release();
    // the line is left enabled, not torn down
    assert!(regs.ue && regs.re && regs.te);
    assert_eq!(regs.brr, brr);
    assert!(matches!(pins, Pins::Pa9Pa10));
}
