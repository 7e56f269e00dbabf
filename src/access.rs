use vstd::prelude::*;

verus! {

/// Failure of a raw register transaction on the bus.
#[derive(Clone, Copy, Debug, PartialEq, Eq, Structural)]
pub enum AccessError {
    Bus,
}

/// The raw access provider: one word-sized read or write at a register
/// address, relative to the device's base. Each call is a single bus
/// transaction; either may fail.
pub trait DeviceAccess {
    fn read(&mut self, address: u16) -> Result<u8, AccessError>;

    fn write(&mut self, address: u16, value: u8) -> Result<(), AccessError>;
}

/// One call made to the raw access provider, with its outcome.
pub enum Call {
    Read { address: u16, value: u8 },
    ReadFailed { address: u16 },
    Write { address: u16, value: u8 },
    WriteFailed { address: u16, value: u8 },
}

impl Call {
    /// The call failed.
    pub open spec fn failed(self) -> bool {
        self is ReadFailed || self is WriteFailed
    }
}

/// The value a successful read of `address` returned, if `c` is one.
pub open spec fn read_of(c: Call, address: u16) -> Option<u8> {
    match c {
        Call::Read { address: a, value } => if a == address {
            Some(value)
        } else {
            None
        },
        _ => None,
    }
}

/// The bus: the access provider, with the record of every call made to it.
///
/// All register traffic of the library goes through here, so `calls` is the
/// exact history of transactions issued to the device.
pub struct Bus<A> {
    access: A,
    log: Ghost<Seq<Call>>,
}

impl<A: DeviceAccess> Bus<A> {
    /// Every call made through this bus, in order.
    pub closed spec fn calls(&self) -> Seq<Call> {
        self.log@
    }

    pub fn new(access: A) -> (r: Bus<A>)
        ensures
            r.calls() == Seq::<Call>::empty(),
    {
        Bus { access, log: Ghost(Seq::empty()) }
    }

    /// The access provider.
    pub fn access(&self) -> &A {
        &self.access
    }

    /// Gives the access provider back.
    pub fn into_inner(self) -> A {
        self.access
    }

    /// One read of `address`.
    pub fn read(&mut self, address: u16) -> (r: Result<u8, AccessError>)
        ensures
            final(self).calls() == old(self).calls().push(
                match r {
                    Ok(v) => Call::Read { address, value: v },
                    Err(_) => Call::ReadFailed { address },
                },
            ),
    {
        let r = self.access.read(address);
        self.log = Ghost(
            self.log@.push(
                match r {
                    Ok(v) => Call::Read { address, value: v },
                    Err(_) => Call::ReadFailed { address },
                },
            ),
        );
        r
    }

    /// One write of `value` to `address`.
    pub fn write(&mut self, address: u16, value: u8) -> (r: Result<(), AccessError>)
        ensures
            final(self).calls() == old(self).calls().push(
                if r is Ok {
                    Call::Write { address, value }
                } else {
                    Call::WriteFailed { address, value }
                },
            ),
    {
        let r = self.access.write(address, value);
        self.log = Ghost(
            self.log@.push(
                if r is Ok {
                    Call::Write { address, value }
                } else {
                    Call::WriteFailed { address, value }
                },
            ),
        );
        r
    }
}

} // verus!
