use tedium_soc::dump::{dump_registers, format_dump, hex_char};
use tedium_soc::{AccessError, Bus, DeviceAccess};

struct Pattern {
    fail_at: Option<u16>,
    reads: Vec<u16>,
}

impl DeviceAccess for Pattern {
    fn read(&mut self, address: u16) -> Result<u8, AccessError> {
        self.reads.push(address);
        if self.fail_at == Some(address) {
            return Err(AccessError::Bus);
        }
        Ok((address & 0xff) as u8 ^ 0x5a)
    }

    fn write(&mut self, _address: u16, _value: u8) -> Result<(), AccessError> {
        Err(AccessError::Bus)
    }
}

fn expected_line(start: u16) -> String {
    let mut s = format!("\n{:04x}", start);
    for a in start..start + 16 {
        s.push_str(&format!(" {:02x}", (a & 0xff) as u8 ^ 0x5a));
    }
    s
}

#[test]
fn dump_of_thirty_two_registers_has_two_lines() {
    let mut bus = Bus::new(Pattern { fail_at: None, reads: Vec::new() });
    let text = dump_registers(&mut bus, 0x100, 32).unwrap();
    let text = String::from_utf8(text).unwrap();
    assert_eq!(text, format!("{}{}\n", expected_line(0x100), expected_line(0x110)));
    let lines: Vec<&str> = text.split('\n').filter(|l| !l.is_empty()).collect();
    assert_eq!(lines.len(), 2);
    assert!(lines[0].starts_with("0100 "));
    assert!(lines[1].starts_with("0110 "));
    assert_eq!(lines[0].split(' ').count(), 17);
    assert_eq!(bus.access().reads, (0x100..0x120).collect::<Vec<u16>>());
}

#[test]
fn dump_read_failure_stops() {
    let mut bus = Bus::new(Pattern { fail_at: Some(0x105), reads: Vec::new() });
    assert_eq!(dump_registers(&mut bus, 0x100, 32), Err(AccessError::Bus));
    assert_eq!(bus.access().reads.len(), 6);
}

#[test]
fn format_unaligned_start_and_empty() {
    assert_eq!(format_dump(0x0ffe, &vec![0xab, 0x01, 0x2f]), b" ab 01\n1000 2f\n".to_vec());
    assert_eq!(format_dump(0, &vec![]), b"\n".to_vec());
    assert_eq!(format_dump(0xfff0, &vec![0xff]), b"\nfff0 ff\n".to_vec());
}

#[test]
fn hex_digits() {
    assert_eq!(hex_char(0), b'0');
    assert_eq!(hex_char(9), b'9');
    assert_eq!(hex_char(10), b'a');
    assert_eq!(hex_char(15), b'f');
}
