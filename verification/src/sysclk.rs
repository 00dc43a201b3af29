//! The timestamp and deadline driver: one free-running counter and one
//! compare-match interrupt turned into a multi-client "resume me at
//! tick T" service.
//!
//! Deadlines are kept in counter units together with the continuation
//! to resume. The armed compare register always holds the earliest
//! deadline that has not yet passed, or the interrupt is disarmed when
//! none remain ([`Driver::armed_ok`]). A deadline that has already
//! passed when it is scheduled is resumed synchronously, before
//! `schedule_wake` returns. There is no cancellation: an abandoned
//! request still fires and resumes its continuation, which is harmless
//! because every resumed computation rechecks its own condition.

use vstd::prelude::*;
use crate::critical::{Cpu, CriticalSection};
use crate::pfic::{Pfic, PficExt};
use crate::sys::{spec_fsys, Sys, SysExt};

verus! {

/// Interrupt line of the system-tick compare-match interrupt.
pub const SYS_TICK_LINE: u8 = 12;

/// Priority assigned to the compare-match interrupt.
pub const SYS_TICK_PRIORITY: u8 = 15;

/// The system-tick counter block: a free-running 64-bit counter, a
/// compare register, and its control and status bits. The counter is
/// never reset during normal operation, and at its clock rate the
/// 64-bit value cannot wrap within the device's lifetime, so it only
/// grows.
#[derive(Clone, Copy, PartialEq, Eq, Structural)]
pub struct Systick {
    /// Free-running counter value.
    pub cnt: u64,
    /// Compare register: the counter value at which the compare-match
    /// interrupt fires.
    pub cmp: u64,
    /// Counter initialization bit.
    pub ctl_init: bool,
    /// Counter enable bit.
    pub ctl_ste: bool,
    /// Compare-match interrupt enable: the "armed" bit.
    pub ctl_stie: bool,
    /// Compare-match pending flag.
    pub s_cntif: bool,
}

impl Systick {
    /// The counter block before initialization: everything clear.
    pub fn new() -> (systick: Systick)
        ensures
            systick == (Systick {
                cnt: 0,
                cmp: 0,
                ctl_init: false,
                ctl_ste: false,
                ctl_stie: false,
                s_cntif: false,
            }),
    {
        Systick { cnt: 0, cmp: 0, ctl_init: false, ctl_ste: false, ctl_stie: false, s_cntif: false }
    }
}

/// The entries of `q` whose deadline is at or before `now`: the ones a
/// rearm at counter value `now` resumes.
pub open spec fn due(q: Seq<(u64, u32)>, now: u64) -> Seq<(u64, u32)> {
    q.filter(|e: (u64, u32)| e.0 <= now)
}

/// The entries of `q` whose deadline is after `now`: the ones a rearm
/// at counter value `now` keeps pending.
pub open spec fn remaining(q: Seq<(u64, u32)>, now: u64) -> Seq<(u64, u32)> {
    q.filter(|e: (u64, u32)| e.0 > now)
}

/// The continuation ids of the entries of `q`, in order.
pub open spec fn ids(q: Seq<(u64, u32)>) -> Seq<u32> {
    q.map_values(|e: (u64, u32)| e.1)
}

/// The earliest deadline in `q`, or `u64::MAX` when `q` is empty.
pub open spec fn min_deadline(q: Seq<(u64, u32)>) -> u64
    decreases q.len(),
{
    if q.len() == 0 {
        u64::MAX
    } else {
        let m = min_deadline(q.drop_last());
        if q.last().0 < m {
            q.last().0
        } else {
            m
        }
    }
}

/// The earliest deadline bounds every entry from below and, when the
/// queue is not empty, is itself one of the deadlines.
pub proof fn lemma_min_deadline(q: Seq<(u64, u32)>)
    ensures
        forall|i: int| 0 <= i < q.len() ==> (#[trigger] q[i]).0 >= min_deadline(q),
        q.len() > 0 ==> exists|i: int| 0 <= i < q.len() && (#[trigger] q[i]).0 == min_deadline(q),
    decreases q.len(),
{
    if q.len() > 0 {
        lemma_min_deadline(q.drop_last());
        if q.last().0 < min_deadline(q.drop_last()) {
            assert(q[q.len() - 1].0 == min_deadline(q));
        } else {
            if q.drop_last().len() > 0 {
                let i = choose|i: int|
                    0 <= i < q.drop_last().len() && (#[trigger] q.drop_last()[i]).0 == min_deadline(
                        q.drop_last(),
                    );
                assert(q[i].0 == min_deadline(q));
            } else {
                assert(q[q.len() - 1].0 == min_deadline(q));
            }
        }
        assert forall|i: int| 0 <= i < q.len() implies (#[trigger] q[i]).0 >= min_deadline(q) by {
            if i < q.len() - 1 {
                assert(q.drop_last()[i] == q[i]);
            }
        }
    }
}

/// A filter keeps a sequence whole when every element satisfies the
/// predicate.
proof fn lemma_filter_of_all<A>(q: Seq<A>, pred: spec_fn(A) -> bool)
    requires
        forall|i: int| 0 <= i < q.len() ==> pred(#[trigger] q[i]),
    ensures
        q.filter(pred) == q,
    decreases q.len(),
{
    reveal(Seq::filter);
    if q.len() > 0 {
        lemma_filter_of_all(q.drop_last(), pred);
        assert(q.drop_last().push(q.last()) =~= q);
        assert(q.filter(pred) =~= q);
    } else {
        assert(q.filter(pred) =~= q);
    }
}

/// A filter drops a sequence entirely when no element satisfies the
/// predicate.
proof fn lemma_filter_of_none<A>(q: Seq<A>, pred: spec_fn(A) -> bool)
    requires
        forall|i: int| 0 <= i < q.len() ==> !pred(#[trigger] q[i]),
    ensures
        q.filter(pred) == Seq::<A>::empty(),
    decreases q.len(),
{
    reveal(Seq::filter);
    if q.len() > 0 {
        lemma_filter_of_none(q.drop_last(), pred);
        assert(q.filter(pred) =~= Seq::<A>::empty());
    } else {
        assert(q.filter(pred) =~= Seq::<A>::empty());
    }
}

/// The deadline driver's own state: the counter-units-per-tick ratio
/// computed once at initialization, and the pending deadline queue.
pub struct Driver {
    /// How many counter increments make one logical tick.
    pub cnt_per_tick: u32,
    /// Pending wake requests: deadline in counter units, and the
    /// continuation to resume when it passes.
    pub queue: Vec<(u64, u32)>,
}

impl Driver {
    /// The ratio has been computed: initialization has run.
    pub open spec fn wf(self) -> bool {
        self.cnt_per_tick >= 1
    }

    /// The compare-match invariant between interrupts: no pending
    /// deadline has passed, and the compare register is armed at the
    /// earliest pending deadline, or disarmed when none remain. The
    /// counter advancing past the earliest deadline breaks this state
    /// and fires the interrupt, whose rearm re-establishes it.
    pub open spec fn armed_ok(self, systick: Systick) -> bool {
        &&& forall|i: int|
            0 <= i < self.queue@.len() ==> (#[trigger] self.queue@[i]).0 > systick.cnt
        &&& if self.queue@.len() == 0 {
            !systick.ctl_stie
        } else {
            systick.ctl_stie && systick.cmp == min_deadline(self.queue@) && systick.cmp
                > systick.cnt
        }
    }

    /// A driver that has not yet been initialized: no ratio, nothing
    /// pending.
    pub fn new() -> (driver: Driver)
        ensures
            driver.cnt_per_tick == 0,
            driver.queue@ == Seq::<(u64, u32)>::empty(),
    {
        let driver = Driver { cnt_per_tick: 0, queue: Vec::new() };
        proof {
            assert(driver.queue@ =~= Seq::<(u64, u32)>::empty());
        }
        driver
    }

    /// Computes the counter-units-per-tick ratio from the system
    /// frequency (the counter runs at an eighth of it) and starts the
    /// counter with the compare-match interrupt disarmed.
    ///
    /// Requesting more ticks per second than the counter can count
    /// would make the ratio zero and every division by it meaningless,
    /// so it is excluded.
    pub fn init(&mut self, systick: &mut Systick, sys: &Sys, tick_hz: u64)
        requires
            old(self).queue@.len() == 0,
            1 <= tick_hz,
            sys.clk_sys_cfg.clk_sys_mod == 0 || sys.clk_sys_cfg.clk_sys_mod == 1
                ==> sys.clk_sys_cfg.clk_pll_div != 0,
            tick_hz <= spec_fsys(sys.clk_sys_cfg) as int / 8,
        ensures
            final(self).wf(),
            final(self).queue@ == old(self).queue@,
            final(self).cnt_per_tick as int == spec_fsys(sys.clk_sys_cfg) as int / 8 / tick_hz
                as int,
            *final(systick) == (Systick {
                cnt: old(systick).cnt,
                cmp: 0,
                ctl_init: true,
                ctl_ste: true,
                ctl_stie: false,
                s_cntif: false,
            }),
            final(self).armed_ok(*final(systick)),
    {
        let cnt_per_second: u64 = (sys.fsys() as u64) / 8;
        let cnt_per_tick: u64 = cnt_per_second / tick_hz;
        proof {
            vstd::arithmetic::div_mod::lemma_div_non_zero(cnt_per_second as int, tick_hz as int);
            vstd::arithmetic::div_mod::lemma_div_nonincreasing(
                cnt_per_second as int,
                tick_hz as int,
            );
        }
        self.cnt_per_tick = cnt_per_tick as u32;
        systick.ctl_init = true;
        systick.ctl_ste = true;
        systick.ctl_stie = false;
        systick.cmp = 0;
        systick.s_cntif = false;
    }

    /// The raw counter value.
    pub fn now_cnt(&self, systick: &Systick) -> (r: u64)
        ensures
            r == systick.cnt,
    {
        systick.cnt
    }

    /// The current logical tick: the raw counter divided by the ratio,
    /// truncating toward zero — a tick boundary is crossed only once
    /// the counter fully reaches it.
    pub fn now(&self, systick: &Systick) -> (r: u64)
        requires
            self.wf(),
        ensures
            r == systick.cnt as int / self.cnt_per_tick as int,
    {
        systick.cnt / (self.cnt_per_tick as u64)
    }

    /// Arms the compare register at `next_cnt`. Arming fails when the
    /// counter has already reached or passed the target, in which case
    /// nothing is changed and the caller resumes that deadline's
    /// continuation synchronously. Runs under the caller's critical
    /// section: on hardware the counter can pass the target between
    /// the check and the compare write, which the caller's retry
    /// absorbs; in this register model the counter holds still within
    /// a call, so an armed compare always lies in the future.
    pub fn set(&self, cpu: &Cpu, systick: &mut Systick, next_cnt: u64) -> (armed: bool)
        requires
            !cpu.interrupts_enabled,
        ensures
            armed == (next_cnt > old(systick).cnt),
            armed ==> *final(systick) == (Systick {
                cmp: next_cnt,
                ctl_stie: true,
                s_cntif: false,
                ..*old(systick)
            }),
            !armed ==> *final(systick) == *old(systick),
    {
        // Already passed: report failure so that the caller resumes
        // the continuation itself.
        if next_cnt <= systick.cnt {
            return false;
        }
        systick.cmp = next_cnt;
        systick.ctl_stie = true;
        systick.s_cntif = false;
        true
    }

    /// Pops every deadline at or before the current counter value,
    /// reporting their continuations for synchronous resumption, and
    /// arms the compare register at the earliest remaining deadline,
    /// or disarms it when none remain. Runs under the caller's
    /// critical section.
    fn rearm(&mut self, cpu: &Cpu, systick: &mut Systick) -> (woken: Vec<u32>)
        requires
            !cpu.interrupts_enabled,
            old(self).wf(),
        ensures
            final(self).wf(),
            final(self).cnt_per_tick == old(self).cnt_per_tick,
            final(self).queue@ == remaining(old(self).queue@, old(systick).cnt),
            woken@ == ids(due(old(self).queue@, old(systick).cnt)),
            final(systick).cnt == old(systick).cnt,
            final(systick).ctl_init == old(systick).ctl_init,
            final(systick).ctl_ste == old(systick).ctl_ste,
            final(self).armed_ok(*final(systick)),
    {
        let ghost q0 = self.queue@;
        let ghost gt = |e: (u64, u32)| e.0 > systick.cnt;
        let now: u64 = systick.cnt;
        let mut kept: Vec<(u64, u32)> = Vec::new();
        let mut woken: Vec<u32> = Vec::new();
        let mut next: u64 = u64::MAX;
        let n: usize = self.queue.len();
        let mut i: usize = 0;
        proof {
            reveal(Seq::filter);
            assert(q0.take(0) =~= Seq::<(u64, u32)>::empty());
        }
        while i < n
            invariant
                i <= n,
                n == q0.len(),
                self.queue@ == q0,
                self.wf(),
                kept@ == remaining(q0.take(i as int), now),
                woken@ == ids(due(q0.take(i as int), now)),
                next == min_deadline(kept@),
            decreases n - i,
        {
            let e: (u64, u32) = self.queue[i];
            let ghost kept0 = kept@;
            let ghost woken0 = woken@;
            if e.0 <= now {
                woken.push(e.1);
            } else {
                kept.push(e);
                if e.0 < next {
                    next = e.0;
                }
            }
            proof {
                reveal(Seq::filter);
                let t1 = q0.take(i + 1);
                assert(t1.drop_last() =~= q0.take(i as int));
                assert(t1.last() == e);
                if e.0 <= now {
                    assert(due(t1, now) == due(q0.take(i as int), now).push(e));
                    assert(ids(due(t1, now)) =~= ids(due(q0.take(i as int), now)).push(e.1));
                    assert(remaining(t1, now) == remaining(q0.take(i as int), now));
                } else {
                    assert(remaining(t1, now) == remaining(q0.take(i as int), now).push(e));
                    assert(due(t1, now) == due(q0.take(i as int), now));
                    assert((kept0.push(e)).drop_last() =~= kept0);
                    assert(kept@ == kept0.push(e));
                }
            }
            i = i + 1;
        }
        proof {
            assert(q0.take(n as int) =~= q0);
        }
        self.queue = kept;
        if self.queue.len() == 0 {
            // Nothing left to wait for: disarm.
            systick.ctl_stie = false;
            systick.s_cntif = false;
        } else {
            proof {
                lemma_min_deadline(self.queue@);
                let k = choose|k: int|
                    0 <= k < self.queue@.len() && (#[trigger] self.queue@[k]).0 == min_deadline(
                        self.queue@,
                    );
                q0.lemma_filter_pred(gt, k);
            }
            let armed = self.set(cpu, systick, next);
            proof {
                assert(armed);
                assert forall|j: int| 0 <= j < self.queue@.len() implies (
                #[trigger] self.queue@[j]).0 > systick.cnt by {
                    q0.lemma_filter_pred(gt, j);
                }
            }
        }
        woken
    }

    /// The compare-match interrupt handler's work: acknowledge and
    /// disarm the alarm, then, under a critical section, resume every
    /// deadline the counter has passed and re-arm for the earliest
    /// remaining one. Returns the continuations to resume.
    pub fn wake(&mut self, cpu: &mut Cpu, systick: &mut Systick) -> (woken: Vec<u32>)
        requires
            old(self).wf(),
        ensures
            final(self).wf(),
            final(self).cnt_per_tick == old(self).cnt_per_tick,
            final(self).queue@ == remaining(old(self).queue@, old(systick).cnt),
            woken@ == ids(due(old(self).queue@, old(systick).cnt)),
            final(systick).cnt == old(systick).cnt,
            final(systick).ctl_init == old(systick).ctl_init,
            final(systick).ctl_ste == old(systick).ctl_ste,
            final(self).armed_ok(*final(systick)),
            *final(cpu) == *old(cpu),
    {
        // Disarm the alarm and acknowledge the compare-match flag.
        systick.ctl_stie = false;
        systick.s_cntif = false;
        let token = CriticalSection::acquire(cpu);
        let woken = self.rearm(cpu, systick);
        CriticalSection::release(cpu, token);
        woken
    }

    /// Schedules "resume `waker` at logical tick `at`". The deadline
    /// is converted to counter units; when it is now the earliest
    /// pending one the compare register is reprogrammed, and any
    /// deadline the counter has already passed — the new one included —
    /// is resumed synchronously, before this returns.
    pub fn schedule_wake(&mut self, cpu: &mut Cpu, systick: &mut Systick, at: u64, waker: u32) -> (woken: Vec<
        u32,
    >)
        requires
            old(self).wf(),
            old(self).armed_ok(*old(systick)),
            at * old(self).cnt_per_tick <= u64::MAX,
        ensures
            final(self).wf(),
            final(self).cnt_per_tick == old(self).cnt_per_tick,
            final(self).queue@ == remaining(
                old(self).queue@.push(((at * old(self).cnt_per_tick) as u64, waker)),
                old(systick).cnt,
            ),
            woken@ == ids(
                due(
                    old(self).queue@.push(((at * old(self).cnt_per_tick) as u64, waker)),
                    old(systick).cnt,
                ),
            ),
            at * old(self).cnt_per_tick <= old(systick).cnt ==> woken@.contains(waker),
            at * old(self).cnt_per_tick > old(systick).cnt ==> woken@ == Seq::<u32>::empty()
                && final(self).queue@ == old(self).queue@.push(
                ((at * old(self).cnt_per_tick) as u64, waker),
            ),
            final(systick).cnt == old(systick).cnt,
            final(systick).ctl_init == old(systick).ctl_init,
            final(systick).ctl_ste == old(systick).ctl_ste,
            final(self).armed_ok(*final(systick)),
            *final(cpu) == *old(cpu),
    {
        let deadline: u64 = at * (self.cnt_per_tick as u64);
        let token = CriticalSection::acquire(cpu);
        let ghost q0 = self.queue@;
        let ghost q1 = q0.push((deadline, waker));
        let ghost le = |e: (u64, u32)| e.0 <= systick.cnt;
        let ghost gt = |e: (u64, u32)| e.0 > systick.cnt;
        let now: u64 = systick.cnt;
        self.queue.push((deadline, waker));
        let woken: Vec<u32>;
        if !systick.ctl_stie || deadline < systick.cmp {
            // The new deadline is the earliest pending one (or already
            // passed): rearm, which also resumes it synchronously when
            // it lies in the past.
            woken = self.rearm(cpu, systick);
            proof {
                if deadline <= now {
                    q1.lemma_filter_contains(le, q1.len() - 1);
                    let j = choose|j: int|
                        0 <= j < due(q1, now).len() && #[trigger] due(q1, now)[j] == (
                        deadline,
                        waker,
                    );
                    assert(ids(due(q1, now))[j] == waker);
                }
            }
        } else {
            // The compare register already holds an earlier deadline:
            // the queue grows and nothing else moves. Every pending
            // entry, the new one included, still lies in the future.
            woken = Vec::new();
            proof {
                assert(q1.drop_last() =~= q0);
                lemma_min_deadline(q0);
                assert(min_deadline(q1) == min_deadline(q0));
                assert(woken@ =~= Seq::<u32>::empty());
            }
        }
        CriticalSection::release(cpu, token);
        proof {
            if deadline > now {
                assert forall|i: int| 0 <= i < q1.len() implies gt(#[trigger] q1[i]) by {
                    if i < q0.len() {
                        assert(q0[i] == q1[i]);
                        assert(q0[i].0 > now);
                    }
                }
                lemma_filter_of_all(q1, gt);
                lemma_filter_of_none(q1, le);
                assert(ids(due(q1, now)) =~= Seq::<u32>::empty());
            }
        }
        woken
    }
}

/// Sets up the deadline driver: computes the tick ratio, starts the
/// counter, and enables the compare-match interrupt line at its
/// priority.
pub fn init(driver: &mut Driver, systick: &mut Systick, sys: &Sys, pfic: &mut Pfic, tick_hz: u64)
    requires
        old(driver).queue@.len() == 0,
        1 <= tick_hz,
        sys.clk_sys_cfg.clk_sys_mod == 0 || sys.clk_sys_cfg.clk_sys_mod == 1
            ==> sys.clk_sys_cfg.clk_pll_div != 0,
        tick_hz <= spec_fsys(sys.clk_sys_cfg) as int / 8,
        old(pfic).model().wf(),
    ensures
        final(driver).wf(),
        final(driver).queue@ == old(driver).queue@,
        final(driver).cnt_per_tick as int == spec_fsys(sys.clk_sys_cfg) as int / 8 / tick_hz
            as int,
        final(driver).armed_ok(*final(systick)),
        final(pfic).model() == old(pfic).model().enable(SYS_TICK_LINE, Some(SYS_TICK_PRIORITY)),
{
    driver.init(systick, sys, tick_hz);
    pfic.enable(SYS_TICK_LINE, Some(SYS_TICK_PRIORITY));
}

/// The current tick never decreases: the 64-bit counter only grows
/// while the device runs — at the counter's rate a wrap of the raw
/// 64-bit value lies beyond any realistic uptime, which pins the
/// rollover policy to "never wraps" — and dividing two ordered counter
/// values by the fixed ratio preserves their order.
pub proof fn lemma_now_monotonic(cnt_per_tick: u32, earlier: u64, later: u64)
    requires
        1 <= cnt_per_tick,
        earlier <= later,
    ensures
        earlier as int / cnt_per_tick as int <= later as int / cnt_per_tick as int,
{
    vstd::arithmetic::div_mod::lemma_div_is_ordered(
        earlier as int,
        later as int,
        cnt_per_tick as int,
    );
}

/// Deadlines are resumed in strictly increasing order: everything a
/// rearm at counter value `c1` resumes has an earlier deadline than
/// anything a later rearm at `c2` resumes out of what the first left
/// pending.
pub proof fn lemma_resumed_in_deadline_order(q: Seq<(u64, u32)>, c1: u64, c2: u64)
    requires
        c1 <= c2,
    ensures
        forall|i: int, j: int|
            0 <= i < due(q, c1).len() && 0 <= j < due(remaining(q, c1), c2).len() ==> (
            #[trigger] due(q, c1)[i]).0 < (#[trigger] due(remaining(q, c1), c2)[j]).0,
{
    let le1 = |e: (u64, u32)| e.0 <= c1;
    let gt1 = |e: (u64, u32)| e.0 > c1;
    let le2 = |e: (u64, u32)| e.0 <= c2;
    assert forall|i: int, j: int|
        0 <= i < due(q, c1).len() && 0 <= j < due(remaining(q, c1), c2).len() implies (
    #[trigger] due(q, c1)[i]).0 < (#[trigger] due(remaining(q, c1), c2)[j]).0 by {
        q.lemma_filter_pred(le1, i);
        let e = due(remaining(q, c1), c2)[j];
        // The second batch's entries come from what the first rearm
        // kept, whose deadlines all lie above `c1`.
        assert(due(remaining(q, c1), c2).contains(e));
        remaining(q, c1).lemma_filter_contains_rev(le2, e);
        let k = choose|k: int| 0 <= k < remaining(q, c1).len() && remaining(q, c1)[k] == e;
        q.lemma_filter_pred(gt1, k);
    }
}

} // verus!
