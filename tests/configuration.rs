use tedium_soc::config::{channel_programs, timeslot_programs, CHANNEL_PROGRAMS, TIMESLOT_PROGRAMS};
use tedium_soc::registers::{ClockSelect, CSR, LIUCCR0, LIUGCR4, PRCR, RSSR, TCCR};
use tedium_soc::words::{build_csr, build_liugcr4, build_prcr};
use tedium_soc::{apply, AccessError, Bus, Device, DeviceAccess, Transaction};

/// A register space in memory that records every call and can be told to
/// fail the k-th write or the k-th read.
struct Mock {
    mem: Vec<u8>,
    calls: Vec<(bool, u16, u8)>,
    writes: usize,
    reads: usize,
    fail_write: Option<usize>,
    fail_read: Option<usize>,
}

impl Mock {
    fn new(seed: u8) -> Mock {
        Mock { mem: vec![seed; 0x10000], calls: Vec::new(), writes: 0, reads: 0, fail_write: None, fail_read: None }
    }
}

impl DeviceAccess for Mock {
    fn read(&mut self, address: u16) -> Result<u8, AccessError> {
        self.reads += 1;
        if self.fail_read == Some(self.reads) {
            return Err(AccessError::Bus);
        }
        let v = self.mem[address as usize];
        self.calls.push((false, address, v));
        Ok(v)
    }

    fn write(&mut self, address: u16, value: u8) -> Result<(), AccessError> {
        self.writes += 1;
        self.calls.push((true, address, value));
        if self.fail_write == Some(self.writes) {
            return Err(AccessError::Bus);
        }
        self.mem[address as usize] = value;
        Ok(())
    }
}

fn writes_of(m: &Mock) -> Vec<(u16, u8)> {
    m.calls.iter().filter(|c| c.0).map(|c| (c.1, c.2)).collect()
}

fn is_timeslot_register(c: u16, a: u16) -> bool {
    a >= c * 0x1000 + TCCR && a < c * 0x1000 + RSSR + 32
}

#[test]
fn write_ignores_prior_register_value() {
    let mut bus = Bus::new(Mock::new(0xff));
    let w = build_csr();
    // LCV_Insert 0, Set_T1_Mode 1, Sync 0, Clock_Loss_Detect 1, CSS External (2).
    assert_eq!(w.value, 0x4a);
    assert_eq!(w.touched, 0xeb);
    let t = Transaction::Write { address: CSR, value: w.value };
    assert_eq!(apply(&mut bus, t), Ok(()));
    let m = bus.into_inner();
    assert_eq!(m.mem[CSR as usize], 0x4a);
    assert_eq!(m.reads, 0);
}

#[test]
fn modify_preserves_untouched_bits() {
    let w = build_prcr();
    assert_eq!(w.touched, 0xfb);
    assert_eq!(w.value, 0x01);
    for seed in [0xffu8, 0x00, 0xa5, 0x5a] {
        let mut bus = Bus::new(Mock::new(seed));
        let t = Transaction::Modify { address: PRCR, mask: w.touched, value: w.value };
        assert_eq!(apply(&mut bus, t), Ok(()));
        let m = bus.into_inner();
        let got = m.mem[PRCR as usize];
        assert_eq!(got & !0xfb, seed & !0xfb);
        assert_eq!(got & 0xfb, 0x01);
        assert_eq!(m.reads, 1);
        assert_eq!(m.writes, 1);
    }
}

#[test]
fn clock_select_word() {
    assert_eq!(build_liugcr4().value, ClockSelect::M16_384.value());
    assert_eq!(build_liugcr4().value, 3);
}

#[test]
fn program_counts() {
    let d = Device::new();
    let ch = d.channel(3);
    assert_eq!(channel_programs(&ch).len(), CHANNEL_PROGRAMS);
    assert_eq!(timeslot_programs(&ch.timeslot(5)).len(), TIMESLOT_PROGRAMS);
    assert_eq!(channel_programs(&ch)[0], Transaction::Write { address: 0x3000 + CSR, value: 0x4a });
    assert_eq!(channel_programs(&ch)[11].clone(), Transaction::Write { address: 0x0f30 + LIUCCR0, value: 0x28 });
}

#[test]
fn end_to_end_two_channels_two_timeslots() {
    let d = Device::with_geometry(2, 2);
    let mut bus = Bus::new(Mock::new(0));
    assert_eq!(d.configure(&mut bus), Ok(()));
    let m = bus.into_inner();
    let w = writes_of(&m);
    assert_eq!(w.len(), 1 + 2 * (CHANNEL_PROGRAMS + 2 * TIMESLOT_PROGRAMS));
    assert_eq!(w.len(), 57);
    // The clock select is written once, before anything else.
    assert_eq!(w[0], (LIUGCR4, 3));
    assert_eq!(w.iter().filter(|x| x.0 == LIUGCR4).count(), 1);
    // Each channel's registers are all written before its first timeslot register.
    let per = CHANNEL_PROGRAMS + 2 * TIMESLOT_PROGRAMS;
    for c in 0..2u16 {
        let block = &w[1 + c as usize * per..1 + (c as usize + 1) * per];
        let first_ts = block.iter().position(|x| is_timeslot_register(c, x.0)).unwrap();
        assert_eq!(first_ts, CHANNEL_PROGRAMS);
        assert!(block[CHANNEL_PROGRAMS..].iter().all(|x| is_timeslot_register(c, x.0)));
        assert!(block[..CHANNEL_PROGRAMS].iter().all(|x| !is_timeslot_register(c, x.0)));
    }
    // Timeslot 1 of channel 1: TCCR then the rest.
    assert_eq!(w[1 + per + CHANNEL_PROGRAMS + TIMESLOT_PROGRAMS].0, 0x1000 + TCCR + 1);
    // Three read-modify-writes per channel.
    assert_eq!(m.reads, 6);
}

#[test]
fn failing_write_aborts_configuration() {
    let d = Device::with_geometry(2, 2);
    for k in 1..=57usize {
        let mut mock = Mock::new(0);
        mock.fail_write = Some(k);
        let mut bus = Bus::new(mock);
        assert_eq!(d.configure(&mut bus), Err(AccessError::Bus));
        let m = bus.into_inner();
        assert_eq!(m.writes, k);
        let last = m.calls.last().unwrap();
        assert!(last.0);
    }
}

#[test]
fn failing_read_aborts_configuration() {
    let d = Device::with_geometry(2, 2);
    let mut mock = Mock::new(0);
    mock.fail_read = Some(1);
    let mut bus = Bus::new(mock);
    assert_eq!(d.configure(&mut bus), Err(AccessError::Bus));
    let m = bus.into_inner();
    // Global write and the five full writes before DLCR1's read.
    assert_eq!(m.writes, 6);
    assert_eq!(m.calls.len(), 6);
}

#[test]
fn empty_device_writes_only_clock_select() {
    let d = Device::with_geometry(0, 0);
    let mut bus = Bus::new(Mock::new(0));
    assert_eq!(d.configure(&mut bus), Ok(()));
    assert_eq!(writes_of(bus.access()), vec![(LIUGCR4, build_liugcr4().value)]);
}

#[test]
fn full_device_plan_length() {
    let d = Device::new();
    assert_eq!(d.plan().len(), 1 + 8 * (CHANNEL_PROGRAMS + 24 * TIMESLOT_PROGRAMS));
}

#[test]
fn register_handles_write_and_modify() {
    let d = Device::new();
    let ch = d.channel(1);
    assert_eq!(ch.csr().address, 0x1100);
    assert_eq!(ch.liuccr2().address, 0x0f12);
    assert_eq!(ch.timeslot(4).tscr().address, 0x1344);
    assert_eq!(d.liugcr4().address, 0x0fe9);
    let mut bus = Bus::new(Mock::new(0xff));
    assert_eq!(ch.csr().write(&mut bus, build_csr()), Ok(()));
    assert_eq!(ch.prcr().modify(&mut bus, build_prcr()), Ok(()));
    let m = bus.into_inner();
    assert_eq!(m.mem[0x1100], 0x4a);
    assert_eq!(m.mem[0x1111], 0x05);
    assert_eq!(m.calls, vec![(true, 0x1100, 0x4a), (false, 0x1111, 0xff), (true, 0x1111, 0x05)]);
}

#[test]
fn register_handle_write_error() {
    let mut mock = Mock::new(0);
    mock.fail_write = Some(1);
    let mut bus = Bus::new(mock);
    let ch = Device::new().channel(0);
    assert_eq!(ch.fsr().write(&mut bus, tedium_soc::words::build_fsr()), Err(AccessError::Bus));
    assert_eq!(bus.access().mem[0x107], 0);
}
