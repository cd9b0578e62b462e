//! The in-memory spell registry: the spells currently known, in load order.
//!
//! The registry is replaced wholesale on refresh and never edited in place.
//! A trigger is looked up by exact, case-sensitive comparison; where several
//! records carry the same trigger, the first in load order answers.

use crate::spell::{info_of, info_views, record_views, SpellInfo, SpellInfoView, SpellRecord, SpellRecordView};
use vstd::prelude::*;

verus! {

/// Whether the record at position `i` exists and carries `trigger`.
pub open spec fn carries(records: Seq<SpellRecordView>, i: int, trigger: Seq<char>) -> bool {
    0 <= i < records.len() && records[i].trigger == trigger
}

/// The first position at or after `start` whose record carries `trigger`, or
/// the number of records where there is none.
pub open spec fn first_match(records: Seq<SpellRecordView>, trigger: Seq<char>, start: int) -> int
    decreases records.len() - start,
{
    if start < 0 || start >= records.len() {
        records.len() as int
    } else if records[start].trigger == trigger {
        start
    } else {
        first_match(records, trigger, start + 1)
    }
}

/// The record that answers to `trigger`: the first in load order that carries it.
pub open spec fn find_spell(records: Seq<SpellRecordView>, trigger: Seq<char>) -> Option<
    SpellRecordView,
> {
    let i = first_match(records, trigger, 0);
    if i < records.len() {
        Some(records[i])
    } else {
        None
    }
}

/// Whether some record carries `trigger`.
pub open spec fn has_trigger(records: Seq<SpellRecordView>, trigger: Seq<char>) -> bool {
    exists|i: int| carries(records, i, trigger)
}

/// The listing of a sequence of records: one entry per record, in the same order.
pub open spec fn listing(records: Seq<SpellRecordView>) -> Seq<SpellInfoView> {
    Seq::new(records.len(), |i: int| info_of(records[i]))
}

/// The position found by a search from `start` lies between `start` and the
/// end; a record there carries the trigger, and none between `start` and it does.
pub proof fn lemma_first_match(records: Seq<SpellRecordView>, trigger: Seq<char>, start: int)
    requires
        0 <= start <= records.len(),
    ensures
        start <= first_match(records, trigger, start) <= records.len(),
        first_match(records, trigger, start) < records.len() ==> carries(
            records,
            first_match(records, trigger, start),
            trigger,
        ),
        forall|j: int|
            start <= j < first_match(records, trigger, start) ==> !carries(records, j, trigger),
    decreases records.len() - start,
{
    if start < records.len() && records[start].trigger != trigger {
        lemma_first_match(records, trigger, start + 1);
    }
}

/// A lookup succeeds exactly for the triggers that some record carries. The
/// record it answers with carries the trigger, and no record before it does.
pub proof fn lemma_find_spell(records: Seq<SpellRecordView>, trigger: Seq<char>)
    ensures
        find_spell(records, trigger) is Some <==> has_trigger(records, trigger),
        find_spell(records, trigger) matches Some(found) ==> {
            &&& found.trigger == trigger
            &&& found == records[first_match(records, trigger, 0)]
            &&& forall|j: int|
                0 <= j < first_match(records, trigger, 0) ==> !carries(records, j, trigger)
        },
{
    lemma_first_match(records, trigger, 0);
    let i = first_match(records, trigger, 0);
    if i < records.len() {
        assert(carries(records, i, trigger));
    } else if has_trigger(records, trigger) {
        let k = choose|k: int| carries(records, k, trigger);
        assert(!carries(records, k, trigger));
    }
}

/// Whether no two records share a trigger.
pub open spec fn distinct_triggers(records: Seq<SpellRecordView>) -> bool {
    forall|a: int, b: int|
        0 <= a < b < records.len() ==> (#[trigger] records[a]).trigger != (
        #[trigger] records[b]).trigger
}

/// Where no two records share a trigger, a lookup answers with the one record
/// that carries the trigger, wherever it stands.
pub proof fn lemma_unique_trigger_found(records: Seq<SpellRecordView>, i: int)
    requires
        0 <= i < records.len(),
        distinct_triggers(records),
    ensures
        find_spell(records, records[i].trigger) == Some(records[i]),
{
    let trigger = records[i].trigger;
    lemma_first_match(records, trigger, 0);
    let k = first_match(records, trigger, 0);
    assert(carries(records, i, trigger));
    assert(k <= i);
    if k < i {
        assert(carries(records, k, trigger));
        assert(records[k].trigger != records[i].trigger);
    }
}

/// The spells currently known.
#[derive(Debug)]
pub struct SpellRegistry {
    spells: Vec<SpellRecord>,
}

impl View for SpellRegistry {
    type V = Seq<SpellRecordView>;

    closed spec fn view(&self) -> Seq<SpellRecordView> {
        record_views(self.spells@)
    }
}

impl SpellRegistry {
    /// A registry that holds `spells`, in that order.
    pub fn new(spells: Vec<SpellRecord>) -> (registry: SpellRegistry)
        ensures
            registry@ == record_views(spells@),
    {
        SpellRegistry { spells }
    }

    /// The number of spells held.
    pub fn len(&self) -> (n: usize)
        ensures
            n == self@.len(),
    {
        self.spells.len()
    }

    /// The record that answers to `trigger`, if any.
    pub fn lookup(&self, trigger: &str) -> (found: Option<&SpellRecord>)
        ensures
            match found {
                Some(record) => find_spell(self@, trigger@) == Some(record@),
                None => find_spell(self@, trigger@) is None,
            },
    {
        let key = trigger.to_owned();
        let mut i: usize = 0;
        while i < self.spells.len()
            invariant
                i <= self.spells@.len(),
                key@ == trigger@,
                first_match(self@, trigger@, 0) == first_match(self@, trigger@, i as int),
            decreases self.spells@.len() - i,
        {
            if self.spells[i].trigger == key {
                return Some(&self.spells[i]);
            }
            i = i + 1;
        }
        None
    }

    /// A snapshot of the registry for display: trigger and description of every
    /// spell, in load order.
    pub fn get_spells(&self) -> (infos: Vec<SpellInfo>)
        ensures
            info_views(infos@) == listing(self@),
    {
        let mut infos: Vec<SpellInfo> = Vec::new();
        let mut i: usize = 0;
        while i < self.spells.len()
            invariant
                i <= self.spells@.len(),
                info_views(infos@) == listing(self@).take(i as int),
            decreases self.spells@.len() - i,
        {
            let info = self.spells[i].info();
            let ghost listed = info_views(infos@);
            infos.push(info);
            assert(info_views(infos@) == listed.push(info@));
            assert(listing(self@).take(i + 1) == listing(self@).take(i as int).push(info@));
            i = i + 1;
        }
        assert(listing(self@).take(i as int) == listing(self@));
        infos
    }

    /// Replaces the whole registry by `spells`. Nothing of the old contents stays.
    pub fn refresh_spells(&mut self, spells: Vec<SpellRecord>)
        ensures
            final(self)@ == record_views(spells@),
    {
        self.spells = spells;
    }
}

} // verus!
