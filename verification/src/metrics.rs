//! The state that the monitoring loop fills and the overlay and tray read:
//! current loads and rolling histories of fixed length.
//!
//! Loads are generic (`V`): the program measures them as floating-point
//! percentages, which stay outside the verified code; what is verified here is
//! how samples move through the histories.

use std::collections::VecDeque;
use vstd::prelude::*;

verus! {

/// Number of samples in each history: one a second for a minute.
pub const HISTORY_LEN: usize = 60;

/// The last `HISTORY_LEN` of the samples `zero` repeated `HISTORY_LEN`
/// times and then `samples`, oldest first: the history after `samples` have
/// been recorded into one that started as all zeros.
pub open spec fn recent<V>(zero: V, samples: Seq<V>) -> Seq<V> {
    let all = Seq::new(HISTORY_LEN as nat, |i: int| zero) + samples;
    all.subrange(all.len() - HISTORY_LEN, all.len() as int)
}

/// Current loads and their histories.
pub struct MetricsState<V> {
    pub cpu_usage: V,
    pub ram_usage_pct: V,
    pub cpu_history: VecDeque<V>,
    pub ram_history: VecDeque<V>,
    pub cpu_cores_usage: Vec<V>,
}

impl<V: Copy> MetricsState<V> {
    /// Both histories hold exactly `HISTORY_LEN` samples.
    pub open spec fn wf(&self) -> bool {
        &&& self.cpu_history@.len() == HISTORY_LEN
        &&& self.ram_history@.len() == HISTORY_LEN
    }

    /// Whether both histories hold exactly `HISTORY_LEN` samples (`wf`).
    pub fn has_full_histories(&self) -> (r: bool)
        ensures
            r == self.wf(),
    {
        self.cpu_history.len() == HISTORY_LEN && self.ram_history.len() == HISTORY_LEN
    }

    fn filled(zero: V) -> (d: VecDeque<V>)
        ensures
            d@ == Seq::new(HISTORY_LEN as nat, |i: int| zero),
    {
        let mut d: VecDeque<V> = VecDeque::new();
        let mut i: usize = 0;
        while i < HISTORY_LEN
            invariant
                i <= HISTORY_LEN,
                d@ == Seq::new(i as nat, |j: int| zero),
            decreases HISTORY_LEN - i,
        {
            d.push_back(zero);
            i = i + 1;
            assert(d@ =~= Seq::new(i as nat, |j: int| zero));
        }
        d
    }

    /// The state before the first measurement: loads `zero`, histories of
    /// `HISTORY_LEN` zeros, no per-core loads.
    pub fn new(zero: V) -> (s: Self)
        ensures
            s.wf(),
            s.cpu_usage == zero,
            s.ram_usage_pct == zero,
            s.cpu_history@ == recent(zero, Seq::<V>::empty()),
            s.ram_history@ == recent(zero, Seq::<V>::empty()),
            s.cpu_cores_usage@ == Seq::<V>::empty(),
    {
        let cpu_history = Self::filled(zero);
        let ram_history = Self::filled(zero);
        let ghost all = Seq::new(HISTORY_LEN as nat, |i: int| zero) + Seq::<V>::empty();
        assert(all.subrange(all.len() - HISTORY_LEN, all.len() as int) =~= cpu_history@);
        MetricsState {
            cpu_usage: zero,
            ram_usage_pct: zero,
            cpu_history,
            ram_history,
            cpu_cores_usage: Vec::new(),
        }
    }

    fn push(d: &mut VecDeque<V>, val: V)
        requires
            old(d)@.len() == HISTORY_LEN,
        ensures
            final(d)@ == old(d)@.drop_first().push(val),
    {
        let _ = d.pop_front();
        d.push_back(val);
    }

    /// Drops the oldest CPU sample and appends `val` as the newest.
    pub fn push_cpu(&mut self, val: V)
        requires
            old(self).wf(),
        ensures
            final(self).wf(),
            final(self).cpu_history@ == old(self).cpu_history@.drop_first().push(val),
            final(self).ram_history@ == old(self).ram_history@,
            final(self).cpu_usage == old(self).cpu_usage,
            final(self).ram_usage_pct == old(self).ram_usage_pct,
            final(self).cpu_cores_usage@ == old(self).cpu_cores_usage@,
    {
        Self::push(&mut self.cpu_history, val);
    }

    /// Drops the oldest memory sample and appends `val` as the newest.
    pub fn push_ram(&mut self, val: V)
        requires
            old(self).wf(),
        ensures
            final(self).wf(),
            final(self).ram_history@ == old(self).ram_history@.drop_first().push(val),
            final(self).cpu_history@ == old(self).cpu_history@,
            final(self).cpu_usage == old(self).cpu_usage,
            final(self).ram_usage_pct == old(self).ram_usage_pct,
            final(self).cpu_cores_usage@ == old(self).cpu_cores_usage@,
    {
        Self::push(&mut self.ram_history, val);
    }

    /// One measurement of the monitoring loop: the current loads become
    /// `cpu` and `ram`, each is appended to its history, and the per-core
    /// loads are replaced.
    pub fn record(&mut self, cpu: V, ram: V, cores: Vec<V>)
        requires
            old(self).wf(),
        ensures
            final(self).wf(),
            final(self).cpu_usage == cpu,
            final(self).ram_usage_pct == ram,
            final(self).cpu_history@ == old(self).cpu_history@.drop_first().push(cpu),
            final(self).ram_history@ == old(self).ram_history@.drop_first().push(ram),
            final(self).cpu_cores_usage@ == cores@,
    {
        self.cpu_usage = cpu;
        self.ram_usage_pct = ram;
        self.push_cpu(cpu);
        self.push_ram(ram);
        self.cpu_cores_usage = cores;
    }
}

/// A history always holds the last `HISTORY_LEN` samples recorded, oldest
/// first, with the zeros it started with in front where fewer have been
/// recorded: pushing `val` onto the history of `samples` gives the history
/// of `samples` followed by `val`.
pub proof fn lemma_push_keeps_recent<V>(zero: V, samples: Seq<V>, val: V)
    ensures
        recent(zero, samples).len() == HISTORY_LEN,
        recent(zero, samples).drop_first().push(val) == recent(zero, samples.push(val)),
        recent(zero, samples.push(val)).last() == val,
{
    let pad = Seq::new(HISTORY_LEN as nat, |i: int| zero);
    let all = pad + samples;
    let all2 = pad + samples.push(val);
    assert(all2 =~= all.push(val));
    assert(recent(zero, samples).drop_first().push(val) =~= recent(zero, samples.push(val)));
}

} // verus!
