use vstd::prelude::*;

use crate::access::{AccessError, Bus, DeviceAccess};
use crate::handles::Register;
use crate::device::{framer_address, liu_address, timeslot_address, Channel, Device, Timeslot};
use crate::registers::{
    CSR, DLCR1, FCR, FSR, LICR, LIUCCR0, LIUCCR1, LIUCCR2, PRCR, RCCR, RICR, RSCR, RSSR, RUCR,
    SBCR, SMR, TCCR, TICR, TSCR, TSPRMCR, TUCR, LIUGCR4,
};
use crate::transaction::{execute, performs_all, since, extends, Transaction};
use crate::words::{
    build_csr, build_dlcr1, build_fcr, build_fsr, build_licr, build_liuccr0, build_liuccr1,
    build_liuccr2, build_prcr, build_rccr, build_ricr, build_rscr, build_rssr, build_rucr,
    build_sbcr, build_smr, build_tccr, build_ticr, build_tscr, build_tsprmcr, build_tucr,
    build_liugcr4, csr_word, dlcr1_word, fcr_word, fsr_word, licr_word, liuccr0_word,
    liuccr1_word, liuccr2_word, prcr_word, rccr_word, ricr_word, rscr_word, rssr_word,
    rucr_word, sbcr_word, smr_word, tccr_word, ticr_word, tscr_word, tsprmcr_word, tucr_word,
    liugcr4_word,
};

verus! {

/// Register programs applied to each channel, before its timeslots.
pub const CHANNEL_PROGRAMS: usize = 14;

/// Register programs applied to each timeslot.
pub const TIMESLOT_PROGRAMS: usize = 7;

/// The global phase: the master clock select, written once.
pub open spec fn global_program_spec() -> Transaction {
    Transaction::Write { address: LIUGCR4, value: liugcr4_word().value }
}

/// The register programs of channel `c`, in the order they are applied:
/// framing, line coding, loss of clock, loopback, data link, performance
/// reports, slip buffer, interfaces, LIU termination and test patterns.
///
/// Clock loss detection is enabled although the transmit clock comes from
/// outside; whether it takes effect in that timing mode is for hardware to
/// confirm. DLCR1 selects MOS data link mode here, in the channel phase,
/// before the channel's timeslots are set up, so that the far end sees MOS
/// idle codes from the start.
pub open spec fn channel_programs_spec(c: u16) -> Seq<Transaction> {
    seq![
        Transaction::Write { address: framer_address(c, CSR), value: csr_word().value },
        Transaction::Write { address: framer_address(c, LICR), value: licr_word().value },
        Transaction::Write { address: framer_address(c, FSR), value: fsr_word().value },
        Transaction::Write { address: framer_address(c, SMR), value: smr_word().value },
        Transaction::Write { address: framer_address(c, FCR), value: fcr_word().value },
        Transaction::Modify { address: framer_address(c, DLCR1), mask: dlcr1_word().touched, value: dlcr1_word().value },
        Transaction::Modify { address: framer_address(c, TSPRMCR), mask: tsprmcr_word().touched, value: tsprmcr_word().value },
        Transaction::Modify { address: framer_address(c, PRCR), mask: prcr_word().touched, value: prcr_word().value },
        Transaction::Write { address: framer_address(c, SBCR), value: sbcr_word().value },
        Transaction::Write { address: framer_address(c, TICR), value: ticr_word().value },
        Transaction::Write { address: framer_address(c, RICR), value: ricr_word().value },
        Transaction::Write { address: liu_address(c, LIUCCR0), value: liuccr0_word().value },
        Transaction::Write { address: liu_address(c, LIUCCR1), value: liuccr1_word().value },
        Transaction::Write { address: liu_address(c, LIUCCR2), value: liuccr2_word().value },
    ]
}

/// The register programs of timeslot `t` of channel `c`: signaling source,
/// zero code suppression, conditioning and signaling bits.
pub open spec fn timeslot_programs_spec(c: u16, t: u16) -> Seq<Transaction> {
    seq![
        Transaction::Write { address: timeslot_address(c, t, TCCR), value: tccr_word().value },
        Transaction::Write { address: timeslot_address(c, t, TUCR), value: tucr_word().value },
        Transaction::Write { address: timeslot_address(c, t, TSCR), value: tscr_word().value },
        Transaction::Write { address: timeslot_address(c, t, RCCR), value: rccr_word().value },
        Transaction::Write { address: timeslot_address(c, t, RUCR), value: rucr_word().value },
        Transaction::Write { address: timeslot_address(c, t, RSCR), value: rscr_word().value },
        Transaction::Write { address: timeslot_address(c, t, RSSR), value: rssr_word().value },
    ]
}

/// The global phase's transaction.
pub fn global_program() -> (r: Transaction)
    ensures
        r == global_program_spec(),
{
    Register { address: LIUGCR4 }.full(build_liugcr4())
}

/// The register programs of a channel.
pub fn channel_programs(channel: &Channel) -> (r: Vec<Transaction>)
    requires
        channel.wf(),
    ensures
        r@ == channel_programs_spec(channel.index),
{
    let mut r: Vec<Transaction> = Vec::new();
    r.push(channel.csr().full(build_csr()));
    r.push(channel.licr().full(build_licr()));
    r.push(channel.fsr().full(build_fsr()));
    r.push(channel.smr().full(build_smr()));
    r.push(channel.fcr().full(build_fcr()));
    r.push(channel.dlcr1().partial(build_dlcr1()));
    r.push(channel.tsprmcr().partial(build_tsprmcr()));
    r.push(channel.prcr().partial(build_prcr()));
    r.push(channel.sbcr().full(build_sbcr()));
    r.push(channel.ticr().full(build_ticr()));
    r.push(channel.ricr().full(build_ricr()));
    r.push(channel.liuccr0().full(build_liuccr0()));
    r.push(channel.liuccr1().full(build_liuccr1()));
    r.push(channel.liuccr2().full(build_liuccr2()));
    assert(r@ =~= channel_programs_spec(channel.index));
    r
}

/// The register programs of a timeslot.
pub fn timeslot_programs(timeslot: &Timeslot) -> (r: Vec<Transaction>)
    requires
        timeslot.wf(),
    ensures
        r@ == timeslot_programs_spec(timeslot.channel, timeslot.index),
{
    let mut r: Vec<Transaction> = Vec::new();
    r.push(timeslot.tccr().full(build_tccr()));
    r.push(timeslot.tucr().full(build_tucr()));
    r.push(timeslot.tscr().full(build_tscr()));
    r.push(timeslot.rccr().full(build_rccr()));
    r.push(timeslot.rucr().full(build_rucr()));
    r.push(timeslot.rscr().full(build_rscr()));
    r.push(timeslot.rssr().full(build_rssr()));
    assert(r@ =~= timeslot_programs_spec(timeslot.channel, timeslot.index));
    r
}

/// The programs of the first `m` timeslots of channel `c`, timeslot by timeslot.
pub open spec fn timeslots_plan(c: u16, m: nat) -> Seq<Transaction>
    decreases m,
{
    if m == 0 {
        Seq::empty()
    } else {
        timeslots_plan(c, (m - 1) as nat) + timeslot_programs_spec(c, (m - 1) as u16)
    }
}

/// Channel `c`'s part of the configuration: its own programs, then its
/// first `m` timeslots'.
pub open spec fn channel_block(c: u16, m: nat) -> Seq<Transaction> {
    channel_programs_spec(c) + timeslots_plan(c, m)
}

/// The blocks of the first `n` channels, channel by channel.
pub open spec fn channels_plan(n: nat, m: nat) -> Seq<Transaction>
    decreases n,
{
    if n == 0 {
        Seq::empty()
    } else {
        channels_plan((n - 1) as nat, m) + channel_block((n - 1) as u16, m)
    }
}

/// The whole configuration of `d`: the global phase, then each channel's block.
pub open spec fn configuration_plan(d: Device) -> Seq<Transaction> {
    seq![global_program_spec()] + channels_plan(d.channel_count as nat, d.timeslot_count as nat)
}

impl Device {
    /// The transactions that configure this device, in order.
    pub fn plan(&self) -> (r: Vec<Transaction>)
        requires
            self.wf(),
        ensures
            r@ == configuration_plan(*self),
    {
        let m = Ghost(self.timeslot_count as nat);
        let mut r: Vec<Transaction> = Vec::new();
        r.push(global_program());
        let channels = self.channels();
        let mut i: usize = 0;
        assert(r@ =~= seq![global_program_spec()] + channels_plan(0, m@));
        while i < channels.len()
            invariant
                self.wf(),
                m@ == self.timeslot_count,
                channels@.len() == self.channel_count,
                forall|k: int|
                    0 <= k < channels@.len() ==> #[trigger] channels@[k] == (Channel {
                        index: k as u16,
                        timeslot_count: self.timeslot_count,
                    }),
                i <= channels@.len(),
                r@ == seq![global_program_spec()] + channels_plan(i as nat, m@),
            decreases channels@.len() - i,
        {
            let channel = channels[i];
            let ghost head = r@;
            let mut programs = channel_programs(&channel);
            r.append(&mut programs);
            let timeslots = channel.timeslots();
            let mut j: usize = 0;
            assert(timeslots_plan(i as u16, 0) =~= Seq::<Transaction>::empty());
            assert(r@ =~= head + channel_programs_spec(i as u16) + timeslots_plan(i as u16, 0));
            while j < timeslots.len()
                invariant
                    channel == (Channel { index: i as u16, timeslot_count: self.timeslot_count }),
                    channel.wf(),
                    timeslots@.len() == channel.timeslot_count,
                    forall|k: int|
                        0 <= k < timeslots@.len() ==> #[trigger] timeslots@[k] == (Timeslot {
                            channel: i as u16,
                            index: k as u16,
                        }),
                    j <= timeslots@.len(),
                    r@ == head + channel_programs_spec(i as u16) + timeslots_plan(
                        i as u16,
                        j as nat,
                    ),
                decreases timeslots@.len() - j,
            {
                let ghost before = r@;
                let mut programs = timeslot_programs(&timeslots[j]);
                r.append(&mut programs);
                assert(r@ =~= head + channel_programs_spec(i as u16) + timeslots_plan(
                    i as u16,
                    (j + 1) as nat,
                ));
                j = j + 1;
            }
            assert(channels_plan((i + 1) as nat, m@) =~= channels_plan(i as nat, m@)
                + channel_block(i as u16, m@));
            assert(r@ =~= seq![global_program_spec()] + channels_plan((i + 1) as nat, m@));
            i = i + 1;
        }
        r
    }

    /// Configures the device through `bus`: the global phase, then for each
    /// channel in order its programs followed by its timeslots' programs.
    /// The first failing call ends the configuration; its error is returned.
    pub fn configure<A: DeviceAccess>(&self, bus: &mut Bus<A>) -> (r: Result<(), AccessError>)
        requires
            self.wf(),
        ensures
            extends(old(bus).calls(), final(bus).calls()),
            r is Ok ==> performs_all(
                configuration_plan(*self),
                since(old(bus).calls(), final(bus).calls()),
            ),
            r is Err ==> exists|k: int, j: int|
                0 <= k < configuration_plan(*self).len() && 0 <= j <= since(
                    old(bus).calls(),
                    final(bus).calls(),
                ).len() && #[trigger] performs_all(
                    configuration_plan(*self).take(k),
                    since(old(bus).calls(), final(bus).calls()).take(j),
                ) && configuration_plan(*self)[k].failed_by(
                    since(old(bus).calls(), final(bus).calls()).skip(j),
                ),
    {
        let plan = self.plan();
        execute(bus, &plan)
    }
}

proof fn lemma_timeslots_plan(c: u16, m: nat)
    requires
        c < 8,
        m <= 32,
    ensures
        timeslots_plan(c, m).len() == TIMESLOT_PROGRAMS * m,
        forall|i: int|
            0 <= i < timeslots_plan(c, m).len() ==> (#[trigger] timeslots_plan(c, m)[i]).address()
                != LIUGCR4,
    decreases m,
{
    if m > 0 {
        lemma_timeslots_plan(c, (m - 1) as nat);
        let p = timeslots_plan(c, (m - 1) as nat);
        let q = timeslot_programs_spec(c, (m - 1) as u16);
        assert forall|i: int| 0 <= i < q.len() implies (#[trigger] q[i]).address() != LIUGCR4 by {}
        assert forall|i: int| 0 <= i < (p + q).len() implies (#[trigger] (p + q)[i]).address()
            != LIUGCR4 by {
            if i >= p.len() {
                assert((p + q)[i] == q[i - p.len()]);
            }
        }
    }
}

proof fn lemma_channels_plan(n: nat, m: nat)
    requires
        n <= 8,
        m <= 32,
    ensures
        channels_plan(n, m).len() == n * (CHANNEL_PROGRAMS + TIMESLOT_PROGRAMS * m),
        forall|i: int|
            0 <= i < channels_plan(n, m).len() ==> (#[trigger] channels_plan(n, m)[i]).address()
                != LIUGCR4,
        forall|c: int|
            0 <= c < n ==> #[trigger] channels_plan(n, m).subrange(
                c * (CHANNEL_PROGRAMS + TIMESLOT_PROGRAMS * m),
                (c + 1) * (CHANNEL_PROGRAMS + TIMESLOT_PROGRAMS * m),
            ) == channel_block(c as u16, m),
    decreases n,
{
    let k = CHANNEL_PROGRAMS + TIMESLOT_PROGRAMS * m;
    if n > 0 {
        lemma_channels_plan((n - 1) as nat, m);
        lemma_timeslots_plan((n - 1) as u16, m);
        let p = channels_plan((n - 1) as nat, m);
        let b = channel_block((n - 1) as u16, m);
        let q = channel_programs_spec((n - 1) as u16);
        assert(b.len() == k);
        assert((n - 1) * k + k == n * k) by (nonlinear_arith);
        assert forall|i: int| 0 <= i < q.len() implies (#[trigger] q[i]).address() != LIUGCR4 by {}
        assert forall|i: int| 0 <= i < (p + b).len() implies (#[trigger] (p + b)[i]).address()
            != LIUGCR4 by {
            if i >= p.len() {
                assert((p + b)[i] == b[i - p.len()]);
                if i - p.len() >= q.len() {
                    assert(b[i - p.len()] == timeslots_plan((n - 1) as u16, m)[i - p.len()
                        - q.len()]);
                }
            }
        }
        assert forall|c: int| 0 <= c < n implies #[trigger] (p + b).subrange(
            c * k,
            (c + 1) * k,
        ) == channel_block(c as u16, m) by {
            if c < n - 1 {
                assert((c + 1) * k <= (n - 1) * k) by (nonlinear_arith)
                    requires
                        c + 1 <= n - 1,
                        k >= 0,
                ;
                assert(c * k >= 0) by (nonlinear_arith)
                    requires
                        c >= 0,
                        k >= 0,
                ;
                assert((c + 1) * k == c * k + k) by (nonlinear_arith);
                assert((p + b).subrange(c * k, (c + 1) * k) =~= p.subrange(c * k, (c + 1) * k));
            } else {
                assert((p + b).subrange(c * k, (c + 1) * k) =~= b);
            }
        }
    }
}

/// The configuration's shape: the clock select is the first transaction and
/// no other addresses it; then channel after channel, each channel's own
/// programs come before its timeslots' programs, timeslot after timeslot.
/// There are `1 + N * (CHANNEL_PROGRAMS + M * TIMESLOT_PROGRAMS)`
/// transactions in all.
pub proof fn lemma_configuration_shape(d: Device)
    requires
        d.wf(),
    ensures
        configuration_plan(d).len() == 1 + d.channel_count * (CHANNEL_PROGRAMS + TIMESLOT_PROGRAMS
            * d.timeslot_count),
        configuration_plan(d)[0] == global_program_spec(),
        global_program_spec().address() == LIUGCR4,
        forall|i: int|
            1 <= i < configuration_plan(d).len() ==> (#[trigger] configuration_plan(d)[i]).address()
                != LIUGCR4,
        forall|c: int|
            0 <= c < d.channel_count ==> #[trigger] configuration_plan(d).subrange(
                1 + c * (CHANNEL_PROGRAMS + TIMESLOT_PROGRAMS * d.timeslot_count),
                1 + (c + 1) * (CHANNEL_PROGRAMS + TIMESLOT_PROGRAMS * d.timeslot_count),
            ) == channel_programs_spec(c as u16) + timeslots_plan(c as u16, d.timeslot_count as nat),
        forall|c: u16, t: u16|
            c < d.channel_count && t < d.timeslot_count ==> #[trigger] timeslots_plan(
                c,
                d.timeslot_count as nat,
            ).subrange(TIMESLOT_PROGRAMS * t, TIMESLOT_PROGRAMS * (t + 1))
                == timeslot_programs_spec(c, t),
{
    let n = d.channel_count as nat;
    let m = d.timeslot_count as nat;
    let k = CHANNEL_PROGRAMS + TIMESLOT_PROGRAMS * m;
    lemma_channels_plan(n, m);
    let g = seq![global_program_spec()];
    let p = channels_plan(n, m);
    assert forall|i: int| 1 <= i < (g + p).len() implies (#[trigger] (g + p)[i]).address()
        != LIUGCR4 by {
        assert((g + p)[i] == p[i - 1]);
    }
    assert forall|c: int| 0 <= c < n implies #[trigger] (g + p).subrange(1 + c * k, 1 + (c + 1) * k)
        == channel_programs_spec(c as u16) + timeslots_plan(c as u16, m) by {
        assert(c * k >= 0 && (c + 1) * k <= n * k) by (nonlinear_arith)
            requires
                0 <= c < n,
                k >= 0,
        ;
        assert((c + 1) * k == c * k + k) by (nonlinear_arith);
        assert((g + p).subrange(1 + c * k, 1 + (c + 1) * k) =~= p.subrange(c * k, (c + 1) * k));
    }
    assert forall|c: u16, t: u16| c < n && t < m implies #[trigger] timeslots_plan(c, m).subrange(
        TIMESLOT_PROGRAMS * t,
        TIMESLOT_PROGRAMS * (t + 1),
    ) == timeslot_programs_spec(c, t) by {
        lemma_timeslot_block(c, m, t);
    }
}

proof fn lemma_timeslot_block(c: u16, m: nat, t: u16)
    requires
        c < 8,
        t < m <= 32,
    ensures
        timeslots_plan(c, m).subrange(TIMESLOT_PROGRAMS * t, TIMESLOT_PROGRAMS * (t + 1))
            == timeslot_programs_spec(c, t),
    decreases m,
{
    let p = timeslots_plan(c, (m - 1) as nat);
    let q = timeslot_programs_spec(c, (m - 1) as u16);
    lemma_timeslots_plan(c, (m - 1) as nat);
    if t < m - 1 {
        lemma_timeslot_block(c, (m - 1) as nat, t);
        assert((p + q).subrange(TIMESLOT_PROGRAMS * t, TIMESLOT_PROGRAMS * (t + 1)) =~= p.subrange(
            TIMESLOT_PROGRAMS * t,
            TIMESLOT_PROGRAMS * (t + 1),
        ));
    } else {
        assert((p + q).subrange(TIMESLOT_PROGRAMS * t, TIMESLOT_PROGRAMS * (t + 1)) =~= q);
    }
}

} // verus!
