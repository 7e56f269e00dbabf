use vstd::prelude::*;

use crate::access::{AccessError, Bus, Call, DeviceAccess};
use crate::transaction::{extends, since};

verus! {

/// Line feed, which starts each line of a dump and ends the dump.
pub const EOL: u8 = 0x0a;

/// Space, which precedes each register value.
pub const SPACE: u8 = 0x20;

/// The lower-case ASCII hex digit for `n < 16`.
pub open spec fn hex_digit(n: int) -> u8 {
    if n < 10 {
        (0x30 + n) as u8
    } else {
        (0x61 + n - 10) as u8
    }
}

/// The dump text of one register: a new line with the 4-digit address where
/// the address is a multiple of 16, then a space and the 2-digit value.
pub open spec fn entry_text(address: int, value: u8) -> Seq<u8> {
    (if address % 16 == 0 {
        seq![
            EOL,
            hex_digit((address / 0x1000) % 16),
            hex_digit((address / 0x100) % 16),
            hex_digit((address / 0x10) % 16),
            hex_digit(address % 16),
        ]
    } else {
        Seq::empty()
    }) + seq![SPACE, hex_digit(value as int / 16), hex_digit(value as int % 16)]
}

/// The entries of registers `start`, `start + 1`, ... holding `values`.
pub open spec fn dump_body(start: int, values: Seq<u8>) -> Seq<u8>
    decreases values.len(),
{
    if values.len() == 0 {
        Seq::empty()
    } else {
        dump_body(start, values.drop_last()) + entry_text(
            start + values.len() - 1,
            values.last(),
        )
    }
}

/// The whole dump: the entries, then a final line feed.
pub open spec fn dump_text(start: int, values: Seq<u8>) -> Seq<u8> {
    dump_body(start, values) + seq![EOL]
}

/// The values that the reads among `calls` returned, in order.
pub open spec fn read_values(calls: Seq<Call>) -> Seq<u8> {
    calls.map_values(
        |c: Call|
            match c {
                Call::Read { value, .. } => value,
                _ => 0,
            },
    )
}

/// The lower-case ASCII hex digit for `n`.
pub fn hex_char(n: u8) -> (r: u8)
    requires
        n < 16,
    ensures
        r == hex_digit(n as int),
{
    if n < 10 {
        0x30 + n
    } else {
        0x61 + n - 10
    }
}

fn push_entry(text: &mut Vec<u8>, address: u16, value: u8)
    ensures
        final(text)@ == old(text)@ + entry_text(address as int, value),
{
    let ghost before = text@;
    if address % 16 == 0 {
        text.push(EOL);
        text.push(hex_char(((address / 0x1000) % 16) as u8));
        text.push(hex_char(((address / 0x100) % 16) as u8));
        text.push(hex_char(((address / 0x10) % 16) as u8));
        text.push(hex_char((address % 16) as u8));
    }
    text.push(SPACE);
    text.push(hex_char(value / 16));
    text.push(hex_char(value % 16));
    assert(text@ =~= before + entry_text(address as int, value));
}

/// Formats the values of registers `start`, `start + 1`, ... as dump text:
/// lines of up to 16 values, each line opened by a line feed and the address
/// of its first register, the whole ended by a line feed.
pub fn format_dump(start: u16, values: &Vec<u8>) -> (r: Vec<u8>)
    requires
        start + values@.len() <= 0x10000,
    ensures
        r@ == dump_text(start as int, values@),
{
    let mut r: Vec<u8> = Vec::new();
    let mut i: usize = 0;
    assert(values@.take(0) =~= Seq::<u8>::empty());
    while i < values.len()
        invariant
            start + values@.len() <= 0x10000,
            i <= values@.len(),
            r@ == dump_body(start as int, values@.take(i as int)),
        decreases values@.len() - i,
    {
        push_entry(&mut r, start + i as u16, values[i]);
        assert(values@.take(i + 1).drop_last() =~= values@.take(i as int));
        i = i + 1;
    }
    assert(values@.take(values@.len() as int) =~= values@);
    r.push(EOL);
    r
}

/// Reads registers `start .. start + count` through `bus`, one read each in
/// address order, and formats them as dump text. A failing read ends the
/// dump: it is the last call made, and its error is returned.
pub fn dump_registers<A: DeviceAccess>(bus: &mut Bus<A>, start: u16, count: u16) -> (r: Result<
    Vec<u8>,
    AccessError,
>)
    requires
        start + count <= 0x10000,
    ensures
        extends(old(bus).calls(), final(bus).calls()),
        ({
            let new = since(old(bus).calls(), final(bus).calls());
            &&& new.len() <= count
            &&& forall|i: int|
                0 <= i < new.len() ==> match #[trigger] new[i] {
                    Call::Read { address, .. } => i < new.len() - 1 || r is Ok,
                    Call::ReadFailed { .. } => i == new.len() - 1 && r is Err,
                    _ => false,
                } && match new[i] {
                    Call::Read { address, .. } => address == start + i,
                    Call::ReadFailed { address } => address == start + i,
                    _ => false,
                }
            &&& r is Err ==> new.len() > 0
            &&& r is Ok ==> new.len() == count && r->Ok_0@ == dump_text(
                start as int,
                read_values(new),
            )
        }),
{
    let ghost first = bus.calls();
    let mut values: Vec<u8> = Vec::new();
    let mut i: u16 = 0;
    assert(since(first, bus.calls()) =~= Seq::<Call>::empty());
    assert(bus.calls().subrange(0, first.len() as int) =~= first);
    while i < count
        invariant
            start + count <= 0x10000,
            first == old(bus).calls(),
            i <= count,
            extends(first, bus.calls()),
            since(first, bus.calls()).len() == i,
            values@ == read_values(since(first, bus.calls())),
            forall|k: int|
                0 <= k < i ==> match #[trigger] since(first, bus.calls())[k] {
                    Call::Read { address, .. } => address == start + k,
                    _ => false,
                },
        decreases count - i,
    {
        let ghost before = bus.calls();
        let r = bus.read(start + i);
        assert(since(first, bus.calls()) =~= since(first, before).push(bus.calls().last()));
        assert(bus.calls().subrange(0, first.len() as int) =~= first) by {
            assert(bus.calls().subrange(0, first.len() as int) =~= before.subrange(
                0,
                first.len() as int,
            ));
        }
        match r {
            Ok(v) => {
                values.push(v);
                assert(values@ =~= read_values(since(first, bus.calls())));
            },
            Err(e) => {
                return Err(e);
            },
        }
        i = i + 1;
    }
    Ok(format_dump(start, &values))
}

} // verus!
