use vstd::prelude::*;

use crate::access::{AccessError, Bus, Call, DeviceAccess};
use crate::device::{framer_address, liu_address, timeslot_address, Channel, Device, Timeslot};
use crate::field::RegisterWord;
use crate::registers::{
    CSR, DLCR1, FCR, FSR, LICR, LIUCCR0, LIUCCR1, LIUCCR2, PRCR, RCCR, RICR, RSCR, RSSR, RUCR,
    SBCR, SMR, TCCR, TICR, TSCR, TSPRMCR, TUCR, LIUGCR4,
};
use crate::transaction::{apply, extends, since, Transaction};

verus! {

/// One register of one unit, bound to its computed address.
#[derive(Clone, Copy, Debug, PartialEq, Eq, Structural)]
pub struct Register {
    pub address: u16,
}

impl Register {
    /// The full write of `word`: its value is written as it is.
    pub fn full(&self, word: RegisterWord) -> (r: Transaction)
        ensures
            r == (Transaction::Write { address: self.address, value: word.value }),
    {
        Transaction::Write { address: self.address, value: word.value }
    }

    /// The read-modify-write of `word`: only the fields set in it change.
    pub fn partial(&self, word: RegisterWord) -> (r: Transaction)
        ensures
            r == (Transaction::Modify { address: self.address, mask: word.touched, value: word.value }),
    {
        Transaction::Modify { address: self.address, mask: word.touched, value: word.value }
    }

    /// Writes `word`, built from zero, in one bus write; the register's
    /// current value is never read.
    pub fn write<A: DeviceAccess>(&self, bus: &mut Bus<A>, word: RegisterWord) -> (r: Result<
        (),
        AccessError,
    >)
        ensures
            extends(old(bus).calls(), final(bus).calls()),
            since(old(bus).calls(), final(bus).calls()) == if r is Ok {
                seq![Call::Write { address: self.address, value: word.value }]
            } else {
                seq![Call::WriteFailed { address: self.address, value: word.value }]
            },
    {
        apply(bus, self.full(word))
    }

    /// Reads the register, replaces the bits of the fields set in `word`,
    /// keeps the others, and writes the result back.
    pub fn modify<A: DeviceAccess>(&self, bus: &mut Bus<A>, word: RegisterWord) -> (r: Result<
        (),
        AccessError,
    >)
        ensures
            extends(old(bus).calls(), final(bus).calls()),
            r is Ok ==> (Transaction::Modify {
                address: self.address,
                mask: word.touched,
                value: word.value,
            }).performed_by(since(old(bus).calls(), final(bus).calls())),
            r is Err ==> (Transaction::Modify {
                address: self.address,
                mask: word.touched,
                value: word.value,
            }).failed_by(since(old(bus).calls(), final(bus).calls())),
    {
        apply(bus, self.partial(word))
    }
}

impl Device {
    /// LIUGCR4, the global clock select register.
    pub fn liugcr4(&self) -> (r: Register)
        ensures
            r.address == LIUGCR4,
    {
        Register { address: LIUGCR4 }
    }
}

impl Channel {
    /// CSR of this channel.
    pub fn csr(&self) -> (r: Register)
        requires
            self.wf(),
        ensures
            r.address == framer_address(self.index, CSR),
    {
        Register { address: self.framer(CSR) }
    }

    /// LICR of this channel.
    pub fn licr(&self) -> (r: Register)
        requires
            self.wf(),
        ensures
            r.address == framer_address(self.index, LICR),
    {
        Register { address: self.framer(LICR) }
    }

    /// FSR of this channel.
    pub fn fsr(&self) -> (r: Register)
        requires
            self.wf(),
        ensures
            r.address == framer_address(self.index, FSR),
    {
        Register { address: self.framer(FSR) }
    }

    /// SMR of this channel.
    pub fn smr(&self) -> (r: Register)
        requires
            self.wf(),
        ensures
            r.address == framer_address(self.index, SMR),
    {
        Register { address: self.framer(SMR) }
    }

    /// FCR of this channel.
    pub fn fcr(&self) -> (r: Register)
        requires
            self.wf(),
        ensures
            r.address == framer_address(self.index, FCR),
    {
        Register { address: self.framer(FCR) }
    }

    /// DLCR1 of this channel.
    pub fn dlcr1(&self) -> (r: Register)
        requires
            self.wf(),
        ensures
            r.address == framer_address(self.index, DLCR1),
    {
        Register { address: self.framer(DLCR1) }
    }

    /// TSPRMCR of this channel.
    pub fn tsprmcr(&self) -> (r: Register)
        requires
            self.wf(),
        ensures
            r.address == framer_address(self.index, TSPRMCR),
    {
        Register { address: self.framer(TSPRMCR) }
    }

    /// PRCR of this channel.
    pub fn prcr(&self) -> (r: Register)
        requires
            self.wf(),
        ensures
            r.address == framer_address(self.index, PRCR),
    {
        Register { address: self.framer(PRCR) }
    }

    /// SBCR of this channel.
    pub fn sbcr(&self) -> (r: Register)
        requires
            self.wf(),
        ensures
            r.address == framer_address(self.index, SBCR),
    {
        Register { address: self.framer(SBCR) }
    }

    /// TICR of this channel.
    pub fn ticr(&self) -> (r: Register)
        requires
            self.wf(),
        ensures
            r.address == framer_address(self.index, TICR),
    {
        Register { address: self.framer(TICR) }
    }

    /// RICR of this channel.
    pub fn ricr(&self) -> (r: Register)
        requires
            self.wf(),
        ensures
            r.address == framer_address(self.index, RICR),
    {
        Register { address: self.framer(RICR) }
    }

    /// LIUCCR0 of this channel.
    pub fn liuccr0(&self) -> (r: Register)
        requires
            self.wf(),
        ensures
            r.address == liu_address(self.index, LIUCCR0),
    {
        Register { address: self.liu(LIUCCR0) }
    }

    /// LIUCCR1 of this channel.
    pub fn liuccr1(&self) -> (r: Register)
        requires
            self.wf(),
        ensures
            r.address == liu_address(self.index, LIUCCR1),
    {
        Register { address: self.liu(LIUCCR1) }
    }

    /// LIUCCR2 of this channel.
    pub fn liuccr2(&self) -> (r: Register)
        requires
            self.wf(),
        ensures
            r.address == liu_address(self.index, LIUCCR2),
    {
        Register { address: self.liu(LIUCCR2) }
    }

}

impl Timeslot {
    /// TCCR of this timeslot.
    pub fn tccr(&self) -> (r: Register)
        requires
            self.wf(),
        ensures
            r.address == timeslot_address(self.channel, self.index, TCCR),
    {
        Register { address: self.register(TCCR) }
    }

    /// TUCR of this timeslot.
    pub fn tucr(&self) -> (r: Register)
        requires
            self.wf(),
        ensures
            r.address == timeslot_address(self.channel, self.index, TUCR),
    {
        Register { address: self.register(TUCR) }
    }

    /// TSCR of this timeslot.
    pub fn tscr(&self) -> (r: Register)
        requires
            self.wf(),
        ensures
            r.address == timeslot_address(self.channel, self.index, TSCR),
    {
        Register { address: self.register(TSCR) }
    }

    /// RCCR of this timeslot.
    pub fn rccr(&self) -> (r: Register)
        requires
            self.wf(),
        ensures
            r.address == timeslot_address(self.channel, self.index, RCCR),
    {
        Register { address: self.register(RCCR) }
    }

    /// RUCR of this timeslot.
    pub fn rucr(&self) -> (r: Register)
        requires
            self.wf(),
        ensures
            r.address == timeslot_address(self.channel, self.index, RUCR),
    {
        Register { address: self.register(RUCR) }
    }

    /// RSCR of this timeslot.
    pub fn rscr(&self) -> (r: Register)
        requires
            self.wf(),
        ensures
            r.address == timeslot_address(self.channel, self.index, RSCR),
    {
        Register { address: self.register(RSCR) }
    }

    /// RSSR of this timeslot.
    pub fn rssr(&self) -> (r: Register)
        requires
            self.wf(),
        ensures
            r.address == timeslot_address(self.channel, self.index, RSSR),
    {
        Register { address: self.register(RSSR) }
    }

}

} // verus!
