//! Per-name timing accumulation: a process-local ledger mapping a stage name
//! to the total time spent in it and the number of times it ran, kept
//! explicitly instead of in module-level state.

use vstd::prelude::*;
use vstd::string::StringExecFns;

verus! {

/// One ledger row: a stage name, the accumulated time (in whatever unit the
/// caller measures), and how many measurements were added.
pub struct TimingEntry {
    pub name: String,
    pub total: u128,
    pub count: u128,
}

/// `a + b`, stopping at the largest representable value instead of wrapping.
pub open spec fn spec_sat_add(a: u128, b: u128) -> u128 {
    if a + b > u128::MAX {
        u128::MAX
    } else {
        (a + b) as u128
    }
}

/// Whether some row of `s` carries `name`.
pub open spec fn has_name(s: Seq<TimingEntry>, name: Seq<char>) -> bool {
    exists|i: int| 0 <= i < s.len() && (#[trigger] s[i]).name@ == name
}

/// How a row changes when one more measurement of `value` is folded in.
pub open spec fn entry_accumulates(before: TimingEntry, after: TimingEntry, value: u128) -> bool {
    &&& after.name == before.name
    &&& after.total == spec_sat_add(before.total, value)
    &&& after.count == spec_sat_add(before.count, 1)
}

/// The timing ledger. Each name appears in at most one row.
pub struct Timings {
    pub times: Vec<TimingEntry>,
}

impl Timings {
    /// Each name appears in at most one row.
    pub open spec fn wf(self) -> bool {
        forall|i: int, j: int|
            0 <= i < j < self.times@.len() ==> (#[trigger] self.times@[i]).name@ != (
            #[trigger] self.times@[j]).name@
    }

    /// An empty ledger.
    pub fn new() -> (r: Timings)
        ensures
            r.times@.len() == 0,
            r.wf(),
    {
        Timings { times: Vec::new() }
    }

    /// Folds one measurement into the row named `name`, creating the row with
    /// this first measurement if no row carries the name yet. Accumulation
    /// saturates instead of wrapping.
    pub fn create_or_add_to_entry(&mut self, name: &str, value: u128)
        requires
            old(self).wf(),
        ensures
            final(self).wf(),
            has_name(old(self).times@, name@) ==> {
                &&& final(self).times@.len() == old(self).times@.len()
                &&& exists|i: int|
                    0 <= i < old(self).times@.len() && (#[trigger] old(self).times@[i]).name@
                        == name@ && entry_accumulates(
                        old(self).times@[i],
                        final(self).times@[i],
                        value,
                    ) && (forall|j: int|
                        0 <= j < old(self).times@.len() && j != i ==> final(self).times@[j] == old(
                            self,
                        ).times@[j])
            },
            !has_name(old(self).times@, name@) ==> {
                &&& final(self).times@.len() == old(self).times@.len() + 1
                &&& final(self).times@.take(old(self).times@.len() as int) == old(self).times@
                &&& final(self).times@.last().name@ == name@
                &&& final(self).times@.last().total == value
                &&& final(self).times@.last().count == 1
            },
    {
        let name_string: String = name.to_owned();
        let mut i: usize = 0;
        while i < self.times.len()
            invariant
                i <= self.times@.len(),
                self.times@ == old(self).times@,
                self.wf(),
                name_string@ == name@,
                forall|j: int| 0 <= j < i ==> (#[trigger] self.times@[j]).name@ != name@,
            decreases self.times@.len() - i,
        {
            if self.times[i].name == name_string {
                let ghost before = self.times@;
                let mut entry = self.times.remove(i);
                entry.total = sat_add(entry.total, value);
                entry.count = sat_add(entry.count, 1);
                self.times.insert(i, entry);
                proof {
                    assert(self.times@ =~= before.update(i as int, entry));
                    assert((old(self).times@[i as int]).name@ == name@);
                    assert(has_name(old(self).times@, name@));
                    assert(entry_accumulates(old(self).times@[i as int], self.times@[i as int], value));
                    assert(forall|j: int|
                        0 <= j < old(self).times@.len() && j != i ==> self.times@[j] == old(
                            self,
                        ).times@[j]);
                }
                return ;
            }
            i += 1;
        }
        self.times.push(TimingEntry { name: name_string, total: value, count: 1 });
        proof {
            assert(!has_name(old(self).times@, name@));
            assert(self.times@.take(self.times@.len() - 1) =~= old(self).times@);
        }
    }
}

/// Saturating addition on the accumulator width.
fn sat_add(a: u128, b: u128) -> (r: u128)
    ensures
        r == spec_sat_add(a, b),
{
    if b > u128::MAX - a {
        u128::MAX
    } else {
        a + b
    }
}

} // verus!
