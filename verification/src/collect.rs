//! The directory collector: turns a sequence of raw entries into an
//! `EntrySet`, the ordered collection that the transformer and the
//! renderer work on.

use vstd::prelude::*;
use vstd::string::StrSliceExecFns;

use crate::entry::{Entry, EntryV, ListError, RawEntry, RawEntryV, normalize, normalized, raw_ok};

verus! {

/// The longest name length among the entries of a sequence; zero for an
/// empty sequence.
pub open spec fn max_name_len(s: Seq<EntryV>) -> nat
    decreases s.len(),
{
    if s.len() == 0 {
        0
    } else {
        let rest = max_name_len(s.drop_last());
        if s.last().name.len() > rest {
            s.last().name.len()
        } else {
            rest
        }
    }
}

/// `max_name_len` is an upper bound on every name length, and is
/// attained unless the sequence is empty.
pub proof fn lemma_max_name_len(s: Seq<EntryV>)
    ensures
        forall|i: int| 0 <= i < s.len() ==> #[trigger] s[i].name.len() <= max_name_len(s),
        s.len() > 0 ==> exists|i: int|
            0 <= i < s.len() && #[trigger] s[i].name.len() == max_name_len(s),
    decreases s.len(),
{
    if s.len() > 0 {
        lemma_max_name_len(s.drop_last());
        assert forall|i: int| 0 <= i < s.len() implies #[trigger] s[i].name.len()
            <= max_name_len(s) by {
            if i < s.len() - 1 {
                assert(s.drop_last()[i] == s[i]);
            }
        }
        if s.len() == 1 || s.last().name.len() > max_name_len(s.drop_last()) {
            assert(s[s.len() - 1].name.len() == max_name_len(s));
        } else {
            let j = choose|j: int|
                0 <= j < s.drop_last().len() && #[trigger] s.drop_last()[j].name.len()
                    == max_name_len(s.drop_last());
            assert(s[j].name.len() == max_name_len(s));
        }
    }
}

/// An ordered sequence of entries together with the derived width of the
/// name column: the longest name length across the set.
#[derive(Debug)]
pub struct EntrySet {
    pub entries: Vec<Entry>,
    pub name_len: usize,
}

impl View for EntrySet {
    type V = Seq<EntryV>;

    open spec fn view(&self) -> Seq<EntryV> {
        self.entries@.map_values(|e: Entry| e@)
    }
}

impl EntrySet {
    /// The derived width is exactly the longest name length of the set.
    pub open spec fn wf(&self) -> bool {
        self.name_len == max_name_len(self@)
    }
}

/// The sequence of normalized entries for a sequence of raw entries.
pub open spec fn collected(raws: Seq<RawEntryV>, now: u64) -> Seq<EntryV> {
    raws.map_values(|r: RawEntryV| normalized(r, now))
}

/// The directory collector: produces one normalized `Entry` per raw
/// entry, in the given order, with the derived longest name length; any
/// single entry whose metadata is unusable aborts the whole collection
/// with `MetadataUnavailable` (no partial result).
pub fn collect(raws: &Vec<RawEntry>, now: u64) -> (r: Result<EntrySet, ListError>)
    ensures
        r is Ok <==> (forall|i: int| 0 <= i < raws@.len() ==> raw_ok(#[trigger] raws@[i]@, now)),
        r is Ok ==> {
            let es = r.unwrap();
            &&& es@ == collected(raws@.map_values(|r: RawEntry| r@), now)
            &&& es@.len() == raws@.len()
            &&& es.wf()
        },
        r is Err ==> r.unwrap_err() == ListError::MetadataUnavailable,
{
    let mut entries: Vec<Entry> = Vec::new();
    let mut name_len: usize = 0;
    let mut idx: usize = 0;
    while idx < raws.len()
        invariant
            0 <= idx <= raws@.len(),
            forall|i: int| 0 <= i < idx ==> raw_ok(#[trigger] raws@[i]@, now),
            entries@.len() == idx,
            forall|i: int| 0 <= i < idx ==> #[trigger] entries@[i]@ == normalized(raws@[i]@, now),
            name_len == max_name_len(entries@.map_values(|e: Entry| e@)),
        decreases raws@.len() - idx,
    {
        let entry = match normalize(&raws[idx], now) {
            Ok(e) => e,
            Err(err) => {
                return Err(err);
            },
        };
        let ghost before = entries@.map_values(|e: Entry| e@);
        if entry.name.as_str().unicode_len() > name_len {
            name_len = entry.name.as_str().unicode_len();
        }
        entries.push(entry);
        proof {
            let after = entries@.map_values(|e: Entry| e@);
            assert(after.drop_last() =~= before);
            assert(after.last() == entries@.last()@);
        }
        idx = idx + 1;
    }
    let es = EntrySet { entries, name_len };
    proof {
        assert(es@ =~= collected(raws@.map_values(|r: RawEntry| r@), now));
    }
    Ok(es)
}

} // verus!
