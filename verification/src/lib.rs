//! A directory-listing library: normalizes per-entry metadata into a uniform
//! record, applies optional transformations (hidden-entry exclusion, reverse
//! order), and renders the result as a column-aligned, styled table.

pub mod collect;
pub mod embed;
pub mod entry;
pub mod paint;
pub mod render;
pub mod style;
pub mod textfmt;
pub mod transform;

use vstd::prelude::*;

use crate::collect::{collect, collected, max_name_len};
use crate::embed::subseq_of;
use crate::entry::{EntryV, ListError, RawEntry, RawEntryV, raw_ok};
use crate::render::{header_line, render, render_plain, row_line};
use crate::transform::transformed;

verus! {

/// Parity check used for the alternating row background.
pub fn is_even(number: usize) -> (r: bool)
    ensures
        r == (number % 2 == 0),
{
    number % 2 == 0
}

/// Whether every raw entry of a directory read carries usable metadata.
pub open spec fn all_raw_ok(raws: Seq<RawEntryV>, now: u64) -> bool {
    forall|i: int| 0 <= i < raws.len() ==> raw_ok(#[trigger] raws[i], now)
}

/// The entries a listing shows for a directory read: the normalized
/// entries, with the requested transformations applied in their fixed
/// order.
pub open spec fn listing_model(
    raws: Seq<RawEntryV>,
    now: u64,
    exclude_hidden: bool,
    reverse: bool,
) -> Seq<EntryV> {
    transformed(collected(raws, now), exclude_hidden, reverse)
}

/// `all_raw_ok` over the models of a sequence of raw entries says the
/// same as the per-entry condition the collector states.
proof fn lemma_raw_ok_map(raws: Seq<RawEntry>, now: u64)
    ensures
        all_raw_ok(raws.map_values(|x: RawEntry| x@), now) <==> (forall|i: int|
            0 <= i < raws.len() ==> raw_ok(#[trigger] raws[i]@, now)),
{
    let m = raws.map_values(|x: RawEntry| x@);
    if forall|i: int| 0 <= i < raws.len() ==> raw_ok(#[trigger] raws[i]@, now) {
        assert forall|i: int| 0 <= i < m.len() implies raw_ok(#[trigger] m[i], now) by {
            assert(m[i] == raws[i]@);
        }
    }
    if all_raw_ok(m, now) {
        assert forall|i: int| 0 <= i < raws.len() implies raw_ok(#[trigger] raws[i]@, now) by {
            assert(m[i] == raws[i]@);
            assert(raw_ok(m[i], now));
        }
    }
}

/// The whole pipeline on one directory read: collect the raw entries as
/// of `now`, apply the requested transformations, and render styled
/// lines. Fails with `MetadataUnavailable` when any entry's metadata is
/// unusable (no partial listing), and with `EmptyEntrySet` when no
/// entry is left to render.
pub fn list_directory(
    raws: &Vec<RawEntry>,
    now: u64,
    exclude_hidden: bool,
    reverse: bool,
) -> (r: Result<Vec<String>, ListError>)
    ensures
        ({
            let model = listing_model(
                raws@.map_values(|x: RawEntry| x@),
                now,
                exclude_hidden,
                reverse,
            );
            &&& r is Ok <==> all_raw_ok(raws@.map_values(|x: RawEntry| x@), now) && model.len()
                > 0
            &&& !all_raw_ok(raws@.map_values(|x: RawEntry| x@), now) ==> r == Err::<
                Vec<String>,
                ListError,
            >(ListError::MetadataUnavailable)
            &&& (all_raw_ok(raws@.map_values(|x: RawEntry| x@), now) && model.len() == 0) ==> r
                == Err::<Vec<String>, ListError>(ListError::EmptyEntrySet)
            &&& r is Ok ==> {
                let lines = r.unwrap();
                &&& lines@.len() == model.len() + 1
                &&& subseq_of(header_line(max_name_len(model)), lines@[0]@)
                &&& exists|p: Seq<char>, q: Seq<char>|
                    lines@[0]@ == p + header_line(max_name_len(model)) + q
                &&& forall|i: int|
                    0 <= i < model.len() ==> subseq_of(
                        row_line(i as nat, #[trigger] model[i], max_name_len(model)),
                        lines@[i + 1]@,
                    )
            }
        }),
{
    proof {
        lemma_raw_ok_map(raws@, now);
    }
    let mut es = match collect(raws, now) {
        Ok(es) => es,
        Err(e) => {
            return Err(e);
        },
    };
    es.apply_transforms(exclude_hidden, reverse);
    render(&es)
}

/// The whole pipeline, rendering plain lines instead of styled ones:
/// the same collection, transformations and failure rules, with each
/// line's exact text stated.
pub fn list_directory_plain(
    raws: &Vec<RawEntry>,
    now: u64,
    exclude_hidden: bool,
    reverse: bool,
) -> (r: Result<Vec<String>, ListError>)
    ensures
        ({
            let model = listing_model(
                raws@.map_values(|x: RawEntry| x@),
                now,
                exclude_hidden,
                reverse,
            );
            &&& r is Ok <==> all_raw_ok(raws@.map_values(|x: RawEntry| x@), now) && model.len()
                > 0
            &&& !all_raw_ok(raws@.map_values(|x: RawEntry| x@), now) ==> r == Err::<
                Vec<String>,
                ListError,
            >(ListError::MetadataUnavailable)
            &&& (all_raw_ok(raws@.map_values(|x: RawEntry| x@), now) && model.len() == 0) ==> r
                == Err::<Vec<String>, ListError>(ListError::EmptyEntrySet)
            &&& r is Ok ==> {
                let lines = r.unwrap();
                &&& lines@.len() == model.len() + 1
                &&& lines@[0]@ == header_line(max_name_len(model))
                &&& forall|i: int|
                    0 <= i < model.len() ==> lines@[i + 1]@ == row_line(
                        i as nat,
                        #[trigger] model[i],
                        max_name_len(model),
                    )
            }
        }),
{
    proof {
        lemma_raw_ok_map(raws@, now);
    }
    let mut es = match collect(raws, now) {
        Ok(es) => es,
        Err(e) => {
            return Err(e);
        },
    };
    es.apply_transforms(exclude_hidden, reverse);
    render_plain(&es)
}

} // verus!
