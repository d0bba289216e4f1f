use vstd::prelude::*;

verus! {

/// What the program driving a burst does next.
#[derive(Debug, Clone, Copy, PartialEq, Eq, Structural)]
pub enum BurstAction {
    /// Start request `i` and go on at once, without waiting for its outcome.
    Launch(usize),
    /// Sleep this many milliseconds before the next launch.
    Wait(u64),
    /// Wait until request `i` has completed, whatever its outcome.
    Join(usize),
    /// Every request has completed; the burst has succeeded.
    Done,
}

/// The number of actions of a burst of `count` requests: `count` launches,
/// a wait between each two of them, and `count` joins.
pub open spec fn burst_len(count: nat) -> nat {
    if count == 0 {
        0
    } else {
        (3 * count - 1) as nat
    }
}

/// The whole schedule of a burst: launches alternating with waits of the
/// period, then one join per launched request.
pub open spec fn burst_script(period_ms: u64, count: nat) -> Seq<BurstAction> {
    Seq::new(
        burst_len(count),
        |k: int|
            if k < 2 * count - 1 {
                if k % 2 == 0 {
                    BurstAction::Launch((k / 2) as usize)
                } else {
                    BurstAction::Wait(period_ms)
                }
            } else {
                BurstAction::Join((k - (2 * count - 1)) as usize)
            },
    )
}

/// The milliseconds slept in the first `k` actions of `s`.
pub open spec fn elapsed_ms(s: Seq<BurstAction>, k: int) -> int
    decreases k,
{
    if k <= 0 {
        0
    } else {
        elapsed_ms(s, k - 1) + match s[k - 1] {
            BurstAction::Wait(ms) => ms as int,
            _ => 0,
        }
    }
}

/// The milliseconds slept before request `i` is launched are `i` periods.
proof fn lemma_elapsed_before_launch(period_ms: u64, count: nat, i: nat)
    requires
        i < count <= usize::MAX,
    ensures
        elapsed_ms(burst_script(period_ms, count), 2 * i as int) == i * period_ms,
    decreases i,
{
    let s = burst_script(period_ms, count);
    if i > 0 {
        let j: nat = (i - 1) as nat;
        lemma_elapsed_before_launch(period_ms, count, j);
        let k: int = 2 * i as int;
        let p: int = period_ms as int;
        assert(s[k - 2] is Launch && s[k - 1] == BurstAction::Wait(period_ms));
        assert(elapsed_ms(s, k - 1) == elapsed_ms(s, k - 2));
        assert(j * p + p == i * p) by (nonlinear_arith)
            requires
                j + 1 == i,
        ;
    } else {
        assert(elapsed_ms(s, 0) == 0);
    }
}

/// A burst launches each of its `count` requests exactly once and in order:
/// request `i` is action `2 i` of the schedule.
pub proof fn lemma_burst_launches_each_once(period_ms: u64, count: nat)
    requires
        count <= usize::MAX,
    ensures
        forall|i: int| 0 <= i < count ==> #[trigger] burst_script(period_ms, count)[2 * i] == BurstAction::Launch(i as usize),
        forall|k: int|
            0 <= k < burst_len(count) && (#[trigger] burst_script(period_ms, count)[k] is Launch) ==> k % 2 == 0 && k < 2 * count - 1,
{
}

/// Launches are spaced by the period and never wait on a request: request
/// `i` starts once `i` periods have been slept, and no join comes before the
/// last launch.
pub proof fn lemma_burst_spacing(period_ms: u64, count: nat)
    requires
        count <= usize::MAX,
    ensures
        forall|i: int| 0 <= i < count ==> #[trigger] elapsed_ms(burst_script(period_ms, count), 2 * i as int) == i * period_ms,
        forall|k: int| 0 <= k < 2 * count - 1 ==> !(#[trigger] burst_script(period_ms, count)[k] is Join),
{
    assert forall|i: int| 0 <= i < count implies #[trigger] elapsed_ms(burst_script(period_ms, count), 2 * i) == i * period_ms by {
        lemma_elapsed_before_launch(period_ms, count, i as nat);
    }
}

/// A burst ends only once every request has completed: after the last
/// launch, each request is joined exactly once.
pub proof fn lemma_burst_joins_all(period_ms: u64, count: nat)
    requires
        count <= usize::MAX,
    ensures
        forall|j: int| 0 <= j < count ==> #[trigger] burst_script(period_ms, count)[2 * count - 1 + j] == BurstAction::Join(j as usize),
        forall|k: int|
            0 <= k < burst_len(count) && (#[trigger] burst_script(period_ms, count)[k] is Join) ==> 2 * count - 1 <= k,
{
}

/// Drives a burst of `count` redeem requests launched every `period_ms`
/// milliseconds: scheduling, then all launched, then all completed.
/// It keeps no outcome, so no failed request can stop or fail the burst.
#[derive(Debug, Clone)]
pub struct BurstDispatcher {
    period_ms: u64,
    count: usize,
    launched: usize,
    waiting: bool,
    joined: usize,
}

impl BurstDispatcher {
    pub closed spec fn period(&self) -> u64 {
        self.period_ms
    }

    pub closed spec fn total(&self) -> nat {
        self.count as nat
    }

    pub closed spec fn wf(&self) -> bool {
        &&& self.launched <= self.count
        &&& self.joined <= self.count
        &&& self.joined > 0 ==> self.launched == self.count
        &&& self.waiting ==> 0 < self.launched < self.count
    }

    /// How many actions of the schedule have been handed out.
    pub closed spec fn position(&self) -> nat {
        if self.launched < self.count {
            (2 * self.launched - if self.waiting { 1int } else { 0int }) as nat
        } else if self.count == 0 {
            0
        } else {
            (2 * self.count - 1 + self.joined) as nat
        }
    }

    /// The actions handed out so far.
    pub open spec fn issued(&self) -> Seq<BurstAction> {
        burst_script(self.period(), self.total()).take(self.position() as int)
    }

    /// Every request has been launched.
    pub closed spec fn all_launched(&self) -> bool {
        self.launched == self.count
    }

    /// Every launched request has completed.
    pub closed spec fn all_completed(&self) -> bool {
        self.launched == self.count && self.joined == self.count
    }

    /// A dispatcher that reports all requests completed has handed out the
    /// whole schedule.
    pub proof fn lemma_completed_issued_all(&self)
        requires
            self.wf(),
            self.all_completed(),
        ensures
            self.issued() == burst_script(self.period(), self.total()),
    {
        assert(self.issued() =~= burst_script(self.period(), self.total()));
    }

    /// A burst that has not started.
    pub fn new(period_ms: u64, count: usize) -> (r: BurstDispatcher)
        ensures
            r.wf(),
            r.period() == period_ms,
            r.total() == count,
            r.position() == 0,
            r.issued() == Seq::<BurstAction>::empty(),
    {
        let r = BurstDispatcher { period_ms, count, launched: 0, waiting: false, joined: 0 };
        assert(r.issued() =~= Seq::<BurstAction>::empty());
        r
    }

    /// Hands out the next action of the schedule and moves past it; once the
    /// schedule is exhausted, `Done` and no change.
    pub fn step(&mut self) -> (r: BurstAction)
        requires
            old(self).wf(),
        ensures
            final(self).wf(),
            final(self).period() == old(self).period(),
            final(self).total() == old(self).total(),
            old(self).position() < burst_len(old(self).total()) ==> {
                &&& r == burst_script(old(self).period(), old(self).total())[old(self).position() as int]
                &&& final(self).position() == old(self).position() + 1
                &&& final(self).issued() == old(self).issued().push(r)
            },
            old(self).position() >= burst_len(old(self).total()) ==> {
                &&& r == BurstAction::Done
                &&& final(self).position() == old(self).position()
            },
            r == BurstAction::Done <==> old(self).all_completed(),
            final(self).all_completed() <==> final(self).position() == burst_len(final(self).total()),
            final(self).position() <= burst_len(final(self).total()),
    {
        let ghost s = burst_script(self.period_ms, self.count as nat);
        let ghost p0 = self.position();
        let r = if self.launched < self.count && !self.waiting {
            let i = self.launched;
            self.launched = i + 1;
            self.waiting = self.launched < self.count;
            BurstAction::Launch(i)
        } else if self.waiting {
            self.waiting = false;
            BurstAction::Wait(self.period_ms)
        } else if self.joined < self.count {
            let j = self.joined;
            self.joined = j + 1;
            BurstAction::Join(j)
        } else {
            BurstAction::Done
        };
        proof {
            if p0 < s.len() {
                assert(r == s[p0 as int]);
                assert(s.take(p0 + 1int) =~= s.take(p0 as int).push(r));
            }
        }
        r
    }
}

} // verus!
