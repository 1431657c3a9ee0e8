//! Choosing the companion's next behavior: weighted transitions conditioned on
//! the previous behavior, decided at most once per dwell interval.
use vstd::prelude::*;

use crate::chance::random_in;

verus! {

/// What the companion intends to do next.
#[derive(Debug, Clone, Copy, PartialEq, Eq, Structural)]
pub enum Behavior {
    Idle,
    WalkLeft,
    WalkRight,
    Fall,
    Jump,
}

/// Sum of the weights of the first `k` choices.
pub open spec fn prefix_weight(choices: Seq<(Behavior, u32)>, k: int) -> int
    decreases k,
{
    if k <= 0 || k > choices.len() {
        0
    } else {
        prefix_weight(choices, k - 1) + choices[k - 1].1
    }
}

/// Sum of all the weights of `choices`.
pub open spec fn total_weight(choices: Seq<(Behavior, u32)>) -> int {
    prefix_weight(choices, choices.len() as int)
}

/// A list of choices that a draw can be made from: not empty, with a positive
/// total weight that fits in a `u64`.
pub open spec fn valid_choices(choices: Seq<(Behavior, u32)>) -> bool {
    &&& choices.len() > 0
    &&& 0 < total_weight(choices) <= u64::MAX
}

/// The draw `draw` in `[0, total)` lands in the band of choice `i`: the bands
/// are laid end to end in list order, each as wide as its weight.
pub open spec fn lands_in(choices: Seq<(Behavior, u32)>, draw: int, i: int) -> bool {
    &&& 0 <= i < choices.len()
    &&& prefix_weight(choices, i) <= draw < prefix_weight(choices, i + 1)
}

/// The behavior that the draw `draw` selects from `choices`.
pub open spec fn selected(choices: Seq<(Behavior, u32)>, draw: int) -> Behavior {
    choices[choose|i: int| lands_in(choices, draw, i)].0
}

/// Partial sums are never negative.
pub proof fn lemma_prefix_nonneg(choices: Seq<(Behavior, u32)>, k: int)
    ensures
        0 <= prefix_weight(choices, k),
    decreases k,
{
    if 0 < k <= choices.len() {
        lemma_prefix_nonneg(choices, k - 1);
    }
}

/// Partial sums never decrease.
pub proof fn lemma_prefix_monotone(choices: Seq<(Behavior, u32)>, j: int, k: int)
    requires
        0 <= j <= k <= choices.len(),
    ensures
        0 <= prefix_weight(choices, j) <= prefix_weight(choices, k),
    decreases k - j,
{
    lemma_prefix_nonneg(choices, j);
    if j < k {
        lemma_prefix_monotone(choices, j, k - 1);
    }
}

/// Each draw below the total lands in exactly one band.
pub proof fn lemma_band_unique(choices: Seq<(Behavior, u32)>, draw: int, i: int, j: int)
    requires
        lands_in(choices, draw, i),
        lands_in(choices, draw, j),
    ensures
        i == j,
{
    if i < j {
        lemma_prefix_monotone(choices, i + 1, j);
    } else if j < i {
        lemma_prefix_monotone(choices, j + 1, i);
    }
}

/// Picks, from a draw in `[0, total)`, the index of the choice in whose band
/// the draw lands (cumulative-weight selection).
pub fn select_index(choices: &Vec<(Behavior, u32)>, draw: u64) -> (i: usize)
    requires
        valid_choices(choices@),
        draw < total_weight(choices@),
    ensures
        lands_in(choices@, draw as int, i as int),
        choices@[i as int].0 == selected(choices@, draw as int),
{
    let n = choices.len();
    let mut i: usize = 0;
    let mut acc: u64 = choices[0].1 as u64;
    assert(prefix_weight(choices@, 1) == choices@[0].1) by {
        reveal_with_fuel(prefix_weight, 2);
    }
    while acc <= draw
        invariant
            n == choices@.len(),
            valid_choices(choices@),
            draw < total_weight(choices@),
            i < n,
            acc == prefix_weight(choices@, i + 1),
            prefix_weight(choices@, i as int) <= draw,
        decreases n - i,
    {
        if i + 1 >= n {
            assert(false);
        }
        proof {
            lemma_prefix_monotone(choices@, i + 2, n as int);
        }
        i = i + 1;
        acc = acc + choices[i].1 as u64;
    }
    proof {
        assert(lands_in(choices@, draw as int, i as int));
        let k = choose|k: int| lands_in(choices@, draw as int, k);
        lemma_band_unique(choices@, draw as int, i as int, k);
    }
    i
}

/// The behavior that a draw in `[0, total)` selects from `choices`.
pub fn select_weighted(choices: &Vec<(Behavior, u32)>, draw: u64) -> (b: Behavior)
    requires
        valid_choices(choices@),
        draw < total_weight(choices@),
    ensures
        b == selected(choices@, draw as int),
{
    let i = select_index(choices, draw);
    choices[i].0
}

/// Sum of all the weights of `choices`, or `None` where it does not fit in a `u64`.
pub fn choices_total(choices: &Vec<(Behavior, u32)>) -> (r: Option<u64>)
    ensures
        r == (if total_weight(choices@) <= u64::MAX {
            Some(total_weight(choices@) as u64)
        } else {
            None::<u64>
        }),
{
    let n = choices.len();
    let mut i: usize = 0;
    let mut acc: u64 = 0;
    while i < n
        invariant
            n == choices@.len(),
            i <= n,
            acc == prefix_weight(choices@, i as int),
        decreases n - i,
    {
        match acc.checked_add(choices[i].1 as u64) {
            Some(next) => {
                acc = next;
                i = i + 1;
            },
            None => {
                proof {
                    lemma_prefix_monotone(choices@, i + 1, n as int);
                }
                return None;
            },
        }
    }
    Some(acc)
}

/// The choices of the first row keyed by `b`, or `fallback` where no row is.
pub open spec fn row_lookup(
    rows: Seq<(Behavior, Vec<(Behavior, u32)>)>,
    b: Behavior,
    fallback: Seq<(Behavior, u32)>,
) -> Seq<(Behavior, u32)>
    decreases rows.len(),
{
    if rows.len() == 0 {
        fallback
    } else if rows[0].0 == b {
        rows[0].1@
    } else {
        row_lookup(rows.drop_first(), b, fallback)
    }
}

/// Every row of `rows` holds a list that a draw can be made from.
pub open spec fn valid_rows(rows: Seq<(Behavior, Vec<(Behavior, u32)>)>) -> bool {
    forall|i: int| 0 <= i < rows.len() ==> valid_choices(#[trigger] rows[i].1@)
}

/// The weighted transitions: for a previous behavior, the behaviors that may
/// follow it with their relative weights. `initial` serves when there is no
/// previous behavior, and for a previous behavior that no row is keyed by.
pub struct TransitionTable {
    pub rows: Vec<(Behavior, Vec<(Behavior, u32)>)>,
    pub initial: Vec<(Behavior, u32)>,
}

/// A table whose lists all admit a draw.
pub open spec fn table_wf(rows: Seq<(Behavior, Vec<(Behavior, u32)>)>, initial: Seq<(Behavior, u32)>) -> bool {
    valid_choices(initial) && valid_rows(rows)
}

proof fn lemma_row_lookup_valid(
    rows: Seq<(Behavior, Vec<(Behavior, u32)>)>,
    b: Behavior,
    fallback: Seq<(Behavior, u32)>,
)
    requires
        table_wf(rows, fallback),
    ensures
        valid_choices(row_lookup(rows, b, fallback)),
    decreases rows.len(),
{
    if rows.len() > 0 {
        if rows[0].0 != b {
            assert forall|i: int| 0 <= i < rows.drop_first().len() implies valid_choices(
                #[trigger] rows.drop_first()[i].1@,
            ) by {
                assert(rows.drop_first()[i] == rows[i + 1]);
            }
            lemma_row_lookup_valid(rows.drop_first(), b, fallback);
        } else {
            assert(valid_choices(rows[0].1@));
        }
    }
}

impl TransitionTable {
    pub open spec fn wf(&self) -> bool {
        table_wf(self.rows@, self.initial@)
    }

    /// The weighted behaviors that may follow `previous`.
    pub open spec fn choices_after(&self, previous: Option<Behavior>) -> Seq<(Behavior, u32)> {
        match previous {
            Some(b) => row_lookup(self.rows@, b, self.initial@),
            None => self.initial@,
        }
    }

    pub proof fn lemma_choices_valid(&self, previous: Option<Behavior>)
        requires
            self.wf(),
        ensures
            valid_choices(self.choices_after(previous)),
    {
        if let Some(b) = previous {
            lemma_row_lookup_valid(self.rows@, b, self.initial@);
        }
    }

    /// Builds a table, checking that every list admits a draw: `None` where one
    /// is empty, has a zero total weight, or a total beyond a `u64`.
    pub fn new(rows: Vec<(Behavior, Vec<(Behavior, u32)>)>, initial: Vec<(Behavior, u32)>) -> (r:
        Option<TransitionTable>)
        ensures
            r is Some <==> table_wf(rows@, initial@),
            r matches Some(t) ==> t.rows == rows && t.initial == initial,
    {
        if !Self::admits_draw(&initial) {
            return None;
        }
        let n = rows.len();
        let mut i: usize = 0;
        while i < n
            invariant
                n == rows@.len(),
                i <= n,
                forall|j: int| 0 <= j < i ==> valid_choices(#[trigger] rows@[j].1@),
            decreases n - i,
        {
            if !Self::admits_draw(&rows[i].1) {
                return None;
            }
            i = i + 1;
        }
        Some(TransitionTable { rows, initial })
    }

    fn admits_draw(choices: &Vec<(Behavior, u32)>) -> (r: bool)
        ensures
            r == valid_choices(choices@),
    {
        if choices.len() == 0 {
            return false;
        }
        proof {
            lemma_prefix_nonneg(choices@, choices@.len() as int);
        }
        match choices_total(choices) {
            Some(total) => total > 0,
            None => false,
        }
    }

    /// The weighted behaviors that may follow `previous`.
    pub fn lookup(&self, previous: Option<Behavior>) -> (r: &Vec<(Behavior, u32)>)
        ensures
            r@ == self.choices_after(previous),
    {
        match previous {
            None => &self.initial,
            Some(b) => {
                let n = self.rows.len();
                let mut i: usize = 0;
                assert(self.rows@.subrange(0, n as int) =~= self.rows@);
                while i < n
                    invariant
                        n == self.rows@.len(),
                        i <= n,
                        previous == Some(b),
                        row_lookup(self.rows@, b, self.initial@) == row_lookup(
                            self.rows@.subrange(i as int, n as int),
                            b,
                            self.initial@,
                        ),
                    decreases n - i,
                {
                    let rest = Ghost(self.rows@.subrange(i as int, n as int));
                    assert(rest@.len() > 0 && rest@[0] == self.rows@[i as int]);
                    let row = &self.rows[i];
                    if row.0 == b {
                        assert(row_lookup(rest@, b, self.initial@) == row.1@);
                        return &row.1;
                    }
                    assert(rest@.drop_first() =~= self.rows@.subrange(i + 1, n as int));
                    i = i + 1;
                }
                assert(self.rows@.subrange(n as int, n as int).len() == 0);
                &self.initial
            },
        }
    }
}

/// Whether a decision is due at `now`: the first one always is; after that,
/// once more than `interval` has passed since the last change.
pub open spec fn due(current: Option<Behavior>, last_change: u64, interval: u64, now: u64) -> bool {
    current is None || now - last_change > interval
}

/// Chooses the companion's next behavior at most once per dwell interval,
/// with weights that depend on the behavior before.
pub struct BehaviorManager {
    pub current: Option<Behavior>,
    pub previous: Option<Behavior>,
    /// When the current behavior was chosen.
    pub last_change: u64,
    /// The least time between two decisions.
    pub interval: u64,
    pub table: TransitionTable,
}

impl BehaviorManager {
    pub open spec fn wf(&self) -> bool {
        self.table.wf()
    }

    pub open spec fn is_due(&self, now: u64) -> bool {
        due(self.current, self.last_change, self.interval, now)
    }

    /// The weighted behaviors that the next decision draws from.
    pub open spec fn next_choices(&self) -> Seq<(Behavior, u32)> {
        self.table.choices_after(self.current)
    }

    /// The manager after `b` was chosen at `now`.
    pub open spec fn decided(&self, now: u64, b: Behavior) -> BehaviorManager {
        BehaviorManager {
            current: Some(b),
            previous: self.current,
            last_change: now,
            interval: self.interval,
            table: self.table,
        }
    }

    /// The manager and the result after a poll at `now` with the draw `draw`.
    pub open spec fn decision(&self, now: u64, draw: int) -> (BehaviorManager, Option<Behavior>) {
        if self.is_due(now) {
            let b = selected(self.next_choices(), draw);
            (self.decided(now, b), Some(b))
        } else {
            (*self, None)
        }
    }

    fn due_at(&self, now: u64) -> (r: bool)
        ensures
            r == self.is_due(now),
    {
        self.current.is_none() || (now > self.last_change && now - self.last_change > self.interval)
    }

    /// Records `b` as chosen at `now`.
    fn record(&mut self, now: u64, b: Behavior)
        ensures
            *final(self) == old(self).decided(now, b),
    {
        self.previous = self.current;
        self.current = Some(b);
        self.last_change = now;
    }

    /// Polls for a decision at `now`, selecting with the given draw, which lies
    /// below the total weight of the choices that follow the current behavior.
    /// A behavior comes back on the first poll and on one made more than the
    /// dwell interval after the last change; otherwise nothing changes.
    pub fn update_with_draw(&mut self, now: u64, draw: u64) -> (r: Option<Behavior>)
        requires
            old(self).wf(),
            old(self).is_due(now) ==> draw < total_weight(old(self).next_choices()),
        ensures
            final(self).wf(),
            (*final(self), r) == old(self).decision(now, draw as int),
    {
        if self.due_at(now) {
            proof {
                self.table.lemma_choices_valid(self.current);
            }
            let b = select_weighted(self.table.lookup(self.current), draw);
            self.record(now, b);
            Some(b)
        } else {
            None
        }
    }

    /// Polls for a decision at `now`, drawing at random. Where one is due, the
    /// behavior that comes back is the selection of some draw below the total
    /// weight, and the manager records it; otherwise nothing changes.
    pub fn update(&mut self, now: u64) -> (r: Option<Behavior>)
        requires
            old(self).wf(),
        ensures
            final(self).wf(),
            exists|draw: int|
                0 <= draw < total_weight(old(self).next_choices()) && (*final(self), r) == old(
                    self,
                ).decision(now, draw),
            !old(self).is_due(now) ==> r is None && *final(self) == *old(self),
    {
        if self.due_at(now) {
            let (b, Ghost(draw)) = self.pick_behavior_random();
            self.record(now, b);
            assert(0 <= draw < total_weight(old(self).next_choices()) && (*self, Some(b)) == old(
                self,
            ).decision(now, draw));
            Some(b)
        } else {
            proof {
                self.table.lemma_choices_valid(self.current);
                assert(0 <= 0 < total_weight(old(self).next_choices()) && (*self, None::<Behavior>)
                    == old(self).decision(now, 0));
            }
            None
        }
    }

    /// Draws the behavior that follows the current one, and the draw that
    /// selected it.
    fn pick_behavior_random(&self) -> (r: (Behavior, Ghost<int>))
        requires
            self.wf(),
        ensures
            0 <= r.1@ < total_weight(self.next_choices()),
            r.0 == selected(self.next_choices(), r.1@),
    {
        proof {
            self.table.lemma_choices_valid(self.current);
        }
        let choices = self.table.lookup(self.current);
        let total = match choices_total(choices) {
            Some(t) => t,
            None => 1,
        };
        let draw = random_in(0, total);
        (select_weighted(choices, draw), Ghost(draw as int))
    }
}

/// The dwell interval that the companion uses: ten seconds.
pub const DECISION_INTERVAL_MS: u64 = 10000;

/// The companion's transitions after idling, in hundredths.
pub open spec fn after_idle() -> Seq<(Behavior, u32)> {
    seq![(Behavior::Idle, 20u32), (Behavior::WalkLeft, 30u32), (Behavior::WalkRight, 30u32), (Behavior::Jump, 10u32)]
}

/// The companion's transitions after walking left, in hundredths.
pub open spec fn after_walk_left() -> Seq<(Behavior, u32)> {
    seq![(Behavior::Idle, 40u32), (Behavior::WalkLeft, 10u32), (Behavior::WalkRight, 30u32), (Behavior::Jump, 10u32)]
}

/// The companion's transitions with no previous behavior, in hundredths.
pub open spec fn from_start() -> Seq<(Behavior, u32)> {
    seq![(Behavior::Idle, 25u32), (Behavior::WalkLeft, 25u32), (Behavior::WalkRight, 25u32), (Behavior::Jump, 15u32)]
}

/// `t` holds the companion's own transitions.
pub open spec fn is_standard(t: TransitionTable) -> bool {
    &&& t.choices_after(Some(Behavior::Idle)) == after_idle()
    &&& t.choices_after(Some(Behavior::WalkLeft)) == after_walk_left()
    &&& t.choices_after(None) == from_start()
    &&& forall|b: Behavior|
        b != Behavior::Idle && b != Behavior::WalkLeft ==> #[trigger] t.choices_after(Some(b))
            == from_start()
}

impl TransitionTable {
    /// The companion's own transitions.
    pub fn standard() -> (t: TransitionTable)
        ensures
            t.wf(),
            is_standard(t),
    {
        let idle: Vec<(Behavior, u32)> = vec![
            (Behavior::Idle, 20),
            (Behavior::WalkLeft, 30),
            (Behavior::WalkRight, 30),
            (Behavior::Jump, 10),
        ];
        let walk_left: Vec<(Behavior, u32)> = vec![
            (Behavior::Idle, 40),
            (Behavior::WalkLeft, 10),
            (Behavior::WalkRight, 30),
            (Behavior::Jump, 10),
        ];
        let initial: Vec<(Behavior, u32)> = vec![
            (Behavior::Idle, 25),
            (Behavior::WalkLeft, 25),
            (Behavior::WalkRight, 25),
            (Behavior::Jump, 15),
        ];
        assert(idle@ =~= after_idle());
        assert(walk_left@ =~= after_walk_left());
        assert(initial@ =~= from_start());
        assert(total_weight(after_idle()) == 90) by {
            reveal_with_fuel(prefix_weight, 5);
        }
        assert(total_weight(after_walk_left()) == 90) by {
            reveal_with_fuel(prefix_weight, 5);
        }
        assert(total_weight(from_start()) == 90) by {
            reveal_with_fuel(prefix_weight, 5);
        }
        let rows = vec![(Behavior::Idle, idle), (Behavior::WalkLeft, walk_left)];
        let t = TransitionTable { rows, initial };
        let r = Ghost(t.rows@);
        assert(r@.len() == 2 && r@[0].0 == Behavior::Idle && r@[0].1@ == after_idle() && r@[1].0
            == Behavior::WalkLeft && r@[1].1@ == after_walk_left());
        assert(r@.drop_first().len() == 1 && r@.drop_first()[0] == r@[1]);
        assert(r@.drop_first().drop_first().len() == 0);
        assert(t.choices_after(Some(Behavior::Idle)) == after_idle());
        assert(t.choices_after(Some(Behavior::WalkLeft)) == after_walk_left()) by {
            reveal_with_fuel(row_lookup, 2);
        }
        assert forall|b: Behavior|
            b != Behavior::Idle && b != Behavior::WalkLeft implies #[trigger] t.choices_after(
            Some(b),
        ) == from_start() by {
            reveal_with_fuel(row_lookup, 3);
        }
        t
    }
}

impl BehaviorManager {
    /// A manager with the companion's own transitions that has decided
    /// nothing yet, created at `now`, with the dwell interval `interval`.
    pub fn new(interval: u64, now: u64) -> (m: BehaviorManager)
        ensures
            m.wf(),
            is_standard(m.table),
            m.current is None,
            m.previous is None,
            m.last_change == now,
            m.interval == interval,
    {
        BehaviorManager {
            current: None,
            previous: None,
            last_change: now,
            interval,
            table: TransitionTable::standard(),
        }
    }
}

/// The decision cadence. The first poll always yields a behavior. After a
/// poll at `t1` yielded one, a poll at `t2` no later than the dwell interval
/// after `t1` yields none and changes nothing, and a later one yields a
/// behavior, records the one it replaces as previous and `t2` as the time of
/// the change.
pub proof fn lemma_decision_cadence(m: BehaviorManager, t1: u64, d1: int, t2: u64, d2: int)
    ensures
        m.current is None ==> m.decision(t1, d1).1 is Some,
        ({
            let (m1, r1) = m.decision(t1, d1);
            r1 is Some ==> {
                &&& m1.current == r1
                &&& m1.last_change == t1
                &&& m1.previous == m.current
                &&& t2 - t1 <= m.interval ==> m1.decision(t2, d2) == (m1, None::<Behavior>)
                &&& t2 - t1 > m.interval ==> {
                    let (m2, r2) = m1.decision(t2, d2);
                    &&& r2 is Some
                    &&& m2.current == r2
                    &&& m2.previous == m1.current
                    &&& m2.last_change == t2
                }
            }
        }),
{
}

} // verus!
