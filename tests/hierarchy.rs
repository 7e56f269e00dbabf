use tedium_soc::{Channel, Device, Timeslot, CHANNEL_STRIDE, TIMESLOT_STRIDE};

#[test]
fn timeslot_base_addresses() {
    let d = Device::with_geometry(8, 32);
    for ch in d.channels() {
        for ts in ch.timeslots() {
            let expected = ch.index * CHANNEL_STRIDE + ts.index * TIMESLOT_STRIDE;
            assert_eq!(ts.base(), expected);
            let again = d.channel(ch.index).timeslot(ts.index);
            assert_eq!(again.base(), expected);
            assert_eq!(Timeslot { channel: ch.index, index: ts.index }.base(), expected);
        }
    }
    assert_eq!(Timeslot { channel: 7, index: 31 }.base(), 0x701f);
}

#[test]
fn channels_in_order_and_restartable() {
    let d = Device::new();
    let first: Vec<u16> = d.channels().iter().map(|c| c.base()).collect();
    let second: Vec<u16> = d.channels().iter().map(|c| c.base()).collect();
    assert_eq!(first.len(), 8);
    assert_eq!(first, second);
    assert_eq!(first, vec![0x0000, 0x1000, 0x2000, 0x3000, 0x4000, 0x5000, 0x6000, 0x7000]);
    for (i, c) in d.channels().iter().enumerate() {
        assert_eq!(*c, Channel { index: i as u16, timeslot_count: 24 });
    }
}

#[test]
fn channel_addresses() {
    let ch = Device::new().channel(2);
    assert_eq!(ch.framer(0x100), 0x2100);
    assert_eq!(ch.liu(1), 0x0f21);
    assert_eq!(ch.timeslots().len(), 24);
    assert_eq!(ch.timeslot(3).register(0x340), 0x2343);
}
