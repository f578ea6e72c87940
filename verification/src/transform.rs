//! The entry transformer: optional, composable operations over an
//! `EntrySet` — hidden-entry exclusion and order reversal — applied in a
//! fixed order (exclusion first, then reversal) when both are requested.

use vstd::prelude::*;
use vstd::seq_lib::group_filter_ensures;
use vstd::string::StrSliceExecFns;

use crate::collect::{EntrySet, max_name_len, lemma_max_name_len};
use crate::entry::{Entry, EntryV};

verus! {

/// Whether a name marks a hidden entry: it begins with `.`.
pub open spec fn is_hidden(name: Seq<char>) -> bool {
    name.len() > 0 && name[0] == '.'
}

/// The survivors of hidden-exclusion: the entries whose names are not
/// hidden, in their original relative order.
pub open spec fn without_hidden(s: Seq<EntryV>) -> Seq<EntryV> {
    s.filter(|e: EntryV| !is_hidden(e.name))
}

/// The result of applying the requested transformations in their fixed
/// order: hidden-exclusion first, then reversal.
pub open spec fn transformed(s: Seq<EntryV>, exclude_hidden: bool, reverse: bool) -> Seq<EntryV> {
    let filtered = if exclude_hidden {
        without_hidden(s)
    } else {
        s
    };
    if reverse {
        filtered.reverse()
    } else {
        filtered
    }
}

/// Whether this entry's name marks it as hidden.
pub fn entry_is_hidden(e: &Entry) -> (r: bool)
    ensures
        r == is_hidden(e@.name),
{
    proof {
        reveal_strlit(".");
    }
    e.name.as_str().unicode_len() > 0 && e.name.as_str().get_char(0) == '.'
}

impl EntrySet {
    /// Hidden-exclusion: removes every entry whose name begins with `.`,
    /// keeping the relative order of the survivors, and recomputes the
    /// derived name-column width.
    pub fn exclude_hidden(&mut self)
        ensures
            final(self)@ == without_hidden(old(self)@),
            final(self).wf(),
    {
        let mut kept: Vec<Entry> = Vec::new();
        let mut name_len: usize = 0;
        let mut idx: usize = 0;
        proof {
            reveal(Seq::filter);
            assert(self@.take(0) =~= Seq::<EntryV>::empty());
        }
        while idx < self.entries.len()
            invariant
                0 <= idx <= self.entries@.len(),
                kept@.map_values(|e: Entry| e@) == self@.take(idx as int).filter(
                    |e: EntryV| !is_hidden(e.name),
                ),
                name_len == max_name_len(kept@.map_values(|e: Entry| e@)),
                self@ == self.entries@.map_values(|e: Entry| e@),
            decreases self.entries@.len() - idx,
        {
            let ghost prefix = self@.take(idx as int);
            let e = &self.entries[idx];
            let keep = !entry_is_hidden(e);
            proof {
                broadcast use Seq::lemma_filter_push;

                assert(self@.take(idx + 1) =~= prefix.push(self@[idx as int]));
                assert(self@[idx as int] == self.entries@[idx as int]@);
            }
            if keep {
                let ghost before = kept@.map_values(|e: Entry| e@);
                let e_owned = clone_entry(e);
                if e_owned.name.as_str().unicode_len() > name_len {
                    name_len = e_owned.name.as_str().unicode_len();
                }
                kept.push(e_owned);
                proof {
                    let after = kept@.map_values(|e: Entry| e@);
                    assert(after.drop_last() =~= before);
                    assert(after.last() == kept@.last()@);
                }
            }
            idx = idx + 1;
        }
        proof {
            assert(self@.take(self.entries@.len() as int) =~= self@);
        }
        self.entries = kept;
        self.name_len = name_len;
    }

    /// Reversal: reverses the current order in place; the derived
    /// name-column width is unchanged, and still the true maximum.
    pub fn reverse(&mut self)
        ensures
            final(self)@ == old(self)@.reverse(),
            final(self).name_len == old(self).name_len,
            old(self).wf() ==> final(self).wf(),
    {
        let ghost orig = self@;
        let mut rev: Vec<Entry> = Vec::new();
        let mut remaining: usize = self.entries.len();
        while remaining > 0
            invariant
                0 <= remaining <= self.entries@.len(),
                rev@.len() == self.entries@.len() - remaining,
                forall|i: int|
                    0 <= i < rev@.len() ==> #[trigger] rev@[i]@ == self.entries@[self.entries@.len()
                        - 1 - i]@,
                self@ == self.entries@.map_values(|e: Entry| e@),
                self@ == orig,
            decreases remaining,
        {
            remaining = remaining - 1;
            let e = clone_entry(&self.entries[remaining]);
            rev.push(e);
        }
        self.entries = rev;
        proof {
            assert(self@ =~= orig.reverse());
            if old(self).wf() {
                lemma_max_name_len_reverse(orig);
            }
        }
    }

    /// Applies the requested transformations in their fixed order:
    /// hidden-exclusion first, then reversal. Requesting neither leaves
    /// the set unchanged.
    pub fn apply_transforms(&mut self, exclude_hidden: bool, reverse: bool)
        requires
            old(self).wf(),
        ensures
            final(self)@ == transformed(old(self)@, exclude_hidden, reverse),
            final(self).wf(),
    {
        if exclude_hidden {
            self.exclude_hidden();
        }
        if reverse {
            self.reverse();
        }
    }
}

/// Clones one entry, keeping its model.
pub fn clone_entry(e: &Entry) -> (r: Entry)
    ensures
        r@ == e@,
{
    Entry {
        name: e.name.clone(),
        len: e.len,
        modified: e.modified,
        accessed: e.accessed,
        created: e.created,
        kind: e.kind,
        readonly: e.readonly,
    }
}

/// Reversal keeps the longest name length.
pub proof fn lemma_max_name_len_reverse(s: Seq<EntryV>)
    ensures
        max_name_len(s.reverse()) == max_name_len(s),
{
    lemma_max_name_len(s);
    lemma_max_name_len(s.reverse());
    if s.len() > 0 {
        let i = choose|i: int|
            0 <= i < s.len() && #[trigger] s[i].name.len() == max_name_len(s);
        assert(s.reverse()[s.len() - 1 - i] == s[i]);
        let j = choose|j: int|
            0 <= j < s.reverse().len() && #[trigger] s.reverse()[j].name.len() == max_name_len(
                s.reverse(),
            );
        assert(s.reverse()[j] == s[s.len() - 1 - j]);
    }
}

/// Hidden-exclusion removes all and only the hidden entries: every
/// survivor is not hidden, and every non-hidden entry of the original
/// sequence survives.
pub proof fn lemma_exclude_hidden_exact(s: Seq<EntryV>)
    ensures
        forall|i: int|
            0 <= i < without_hidden(s).len() ==> !is_hidden(#[trigger] without_hidden(s)[i].name),
        forall|i: int|
            0 <= i < s.len() && !is_hidden(s[i].name) ==> without_hidden(s).contains(
                #[trigger] s[i],
            ),
{
    broadcast use group_filter_ensures;

}

/// Hidden-exclusion is idempotent: applying it twice gives the same
/// sequence as applying it once.
pub proof fn lemma_exclude_hidden_idempotent(s: Seq<EntryV>)
    ensures
        without_hidden(without_hidden(s)) == without_hidden(s),
    decreases s.len(),
{
    reveal(Seq::filter);
    if s.len() != 0 {
        lemma_exclude_hidden_idempotent(s.drop_last());
        let pred = |e: EntryV| !is_hidden(e.name);
        if pred(s.last()) {
            assert(without_hidden(s) == without_hidden(s.drop_last()).push(s.last()));
            assert(without_hidden(s).drop_last() =~= without_hidden(s.drop_last()));
            assert(without_hidden(without_hidden(s)) =~= without_hidden(s));
        } else {
            assert(without_hidden(s) == without_hidden(s.drop_last()));
        }
    }
}

/// Reversal is an involution: reversing twice returns the original order.
pub proof fn lemma_reverse_involution(s: Seq<EntryV>)
    ensures
        s.reverse().reverse() == s,
{
    assert(s.reverse().reverse() =~= s);
}

/// Applying hidden-exclusion and then reversal never reintroduces a
/// hidden entry: the filter happens before the reversal, so every entry
/// of the transformed sequence is non-hidden.
pub proof fn lemma_transformed_no_hidden(s: Seq<EntryV>, reverse: bool)
    ensures
        forall|i: int|
            0 <= i < transformed(s, true, reverse).len() ==> !is_hidden(
                #[trigger] transformed(s, true, reverse)[i].name,
            ),
{
    lemma_exclude_hidden_exact(s);
    let t = transformed(s, true, reverse);
    if reverse {
        assert forall|i: int| 0 <= i < t.len() implies !is_hidden(#[trigger] t[i].name) by {
            assert(t[i] == without_hidden(s)[t.len() - 1 - i]);
        }
    }
}

} // verus!
