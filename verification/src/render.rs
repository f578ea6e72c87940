//! The table renderer: computes the shared name-column width, and emits
//! one header line plus one row per entry — plain, and styled through
//! the coloring boundary.

use vstd::prelude::*;
use vstd::string::StringExecFns;

use crate::collect::{EntrySet, max_name_len, lemma_max_name_len};
use crate::embed::{
    has_escape, lemma_no_escape_concat, subseq_of, lemma_subseq_refl, lemma_subseq_concat,
    lemma_subseq_trans,
};
use crate::entry::{Entry, EntryV, ListError, kind_label};
use crate::paint::{
    paint_black_on_yellow, paint_blue, paint_green, paint_on_black, paint_on_bright_black,
};
use crate::style::{NameColor, RowBackground, name_color, row_background};
use crate::textfmt::{
    bool_label, bool_str, dec_str, lemma_pad_no_escape, lemma_pad_width, pad_left, pad_left_s,
    pad_right, pad_right_s, u64_string, usize_string,
};

verus! {

/// The header line for a name column of the given width: the column
/// labels, each left-aligned in its field.
pub open spec fn header_line(w: nat) -> Seq<char> {
    pad_right_s("#"@, 2) + " "@ + pad_right_s("name"@, w) + " "@ + pad_right_s("Len"@, 4) + " "@
        + pad_right_s("Mod At"@, 7) + " "@ + pad_right_s("Readonly"@, 8) + " "@ + pad_right_s(
        "Kind"@,
        5,
    )
}

/// The part of a row that precedes the name field: the final position,
/// right-aligned in its field.
pub open spec fn row_before_name(position: nat) -> Seq<char> {
    pad_left_s(dec_str(position), 2) + " "@
}

/// The name field: the entry's name, left-aligned in the shared name
/// column.
pub open spec fn padded_name(e: EntryV, w: nat) -> Seq<char> {
    pad_right_s(e.name, w)
}

/// The part of a row that follows the name field: byte length and
/// modification age right-aligned, then the readonly flag and the kind
/// label left-aligned.
pub open spec fn row_after_name(e: EntryV) -> Seq<char> {
    " "@ + pad_left_s(dec_str(e.len as nat), 4) + " "@ + pad_left_s(dec_str(e.modified as nat), 7)
        + " "@ + pad_right_s(bool_label(e.readonly), 8) + " "@ + pad_right_s(kind_label(e.kind), 5)
}

/// One full plain row: position, padded name, and the remaining fields.
pub open spec fn row_line(position: nat, e: EntryV, w: nat) -> Seq<char> {
    row_before_name(position) + padded_name(e, w) + row_after_name(e)
}

/// When the width is the true longest name length, every name field of
/// the set is padded to exactly that width.
pub proof fn lemma_name_fields_aligned(s: Seq<EntryV>, w: nat)
    requires
        w == max_name_len(s),
    ensures
        forall|i: int| 0 <= i < s.len() ==> #[trigger] padded_name(s[i], w).len() == w,
{
    lemma_max_name_len(s);
    assert forall|i: int| 0 <= i < s.len() implies #[trigger] padded_name(s[i], w).len() == w by {
        lemma_pad_width(s[i].name, w);
    }
}

/// The header line holds no escape character, so a styling layer keeps
/// it in one contiguous block.
pub proof fn lemma_header_no_escape(w: nat)
    ensures
        !has_escape(header_line(w)),
{
    reveal_strlit("#");
    reveal_strlit(" ");
    reveal_strlit("name");
    reveal_strlit("Len");
    reveal_strlit("Mod At");
    reveal_strlit("Readonly");
    reveal_strlit("Kind");
    assert("#"@ =~= seq!['#']);
    assert(" "@ =~= seq![' ']);
    assert("name"@ =~= seq!['n', 'a', 'm', 'e']);
    assert("Len"@ =~= seq!['L', 'e', 'n']);
    assert("Mod At"@ =~= seq!['M', 'o', 'd', ' ', 'A', 't']);
    assert("Readonly"@ =~= seq!['R', 'e', 'a', 'd', 'o', 'n', 'l', 'y']);
    assert("Kind"@ =~= seq!['K', 'i', 'n', 'd']);
    assert(!has_escape("#"@));
    assert(!has_escape(" "@));
    assert(!has_escape("name"@));
    assert(!has_escape("Len"@));
    assert(!has_escape("Mod At"@));
    assert(!has_escape("Readonly"@));
    assert(!has_escape("Kind"@));
    lemma_pad_no_escape("#"@, 2);
    lemma_pad_no_escape("name"@, w);
    lemma_pad_no_escape("Len"@, 4);
    lemma_pad_no_escape("Mod At"@, 7);
    lemma_pad_no_escape("Readonly"@, 8);
    lemma_pad_no_escape("Kind"@, 5);
    let a1 = pad_right_s("#"@, 2);
    let a2 = a1 + " "@;
    let a3 = a2 + pad_right_s("name"@, w);
    let a4 = a3 + " "@;
    let a5 = a4 + pad_right_s("Len"@, 4);
    let a6 = a5 + " "@;
    let a7 = a6 + pad_right_s("Mod At"@, 7);
    let a8 = a7 + " "@;
    let a9 = a8 + pad_right_s("Readonly"@, 8);
    let a10 = a9 + " "@;
    lemma_no_escape_concat(a1, " "@);
    lemma_no_escape_concat(a2, pad_right_s("name"@, w));
    lemma_no_escape_concat(a3, " "@);
    lemma_no_escape_concat(a4, pad_right_s("Len"@, 4));
    lemma_no_escape_concat(a5, " "@);
    lemma_no_escape_concat(a6, pad_right_s("Mod At"@, 7));
    lemma_no_escape_concat(a7, " "@);
    lemma_no_escape_concat(a8, pad_right_s("Readonly"@, 8));
    lemma_no_escape_concat(a9, " "@);
    lemma_no_escape_concat(a10, pad_right_s("Kind"@, 5));
    assert(header_line(w) == a10 + pad_right_s("Kind"@, 5));
}

/// Builds the plain header line for the given name-column width.
pub fn header_string(w: usize) -> (r: String)
    ensures
        r@ == header_line(w as nat),
{
    let mut out = pad_right("#", 2);
    out.append(" ");
    let name = pad_right("name", w);
    out.append(name.as_str());
    out.append(" ");
    let len = pad_right("Len", 4);
    out.append(len.as_str());
    out.append(" ");
    let modified = pad_right("Mod At", 7);
    out.append(modified.as_str());
    out.append(" ");
    let readonly = pad_right("Readonly", 8);
    out.append(readonly.as_str());
    out.append(" ");
    let kind = pad_right("Kind", 5);
    out.append(kind.as_str());
    proof {
        assert(out@ =~= header_line(w as nat));
    }
    out
}

/// Builds the part of a row that precedes the name field.
fn row_prefix_string(position: usize) -> (r: String)
    ensures
        r@ == row_before_name(position as nat),
{
    let digits = usize_string(position);
    let mut out = pad_left(digits.as_str(), 2);
    out.append(" ");
    proof {
        assert(out@ =~= row_before_name(position as nat));
    }
    out
}

/// Builds the part of a row that follows the name field.
fn row_suffix_string(e: &Entry) -> (r: String)
    ensures
        r@ == row_after_name(e@),
{
    let mut out = " ".to_owned();
    let len_digits = u64_string(e.len);
    let len_field = pad_left(len_digits.as_str(), 4);
    out.append(len_field.as_str());
    out.append(" ");
    let age_digits = u64_string(e.modified);
    let age_field = pad_left(age_digits.as_str(), 7);
    out.append(age_field.as_str());
    out.append(" ");
    let ro_field = pad_right(bool_str(e.readonly), 8);
    out.append(ro_field.as_str());
    out.append(" ");
    let kind_field = pad_right(e.kind.as_str(), 5);
    out.append(kind_field.as_str());
    proof {
        assert(out@ =~= row_after_name(e@));
    }
    out
}

/// Builds one full plain row.
pub fn row_string(position: usize, e: &Entry, w: usize) -> (r: String)
    ensures
        r@ == row_line(position as nat, e@, w as nat),
{
    let mut out = row_prefix_string(position);
    let name_field = pad_right(e.name.as_str(), w);
    out.append(name_field.as_str());
    let suffix = row_suffix_string(e);
    out.append(suffix.as_str());
    proof {
        assert(out@ =~= row_line(position as nat, e@, w as nat));
    }
    out
}

/// Builds one styled row: the name field colored by kind, the whole row
/// banded by the parity of its final position. The plain row's
/// characters appear in order within the result.
fn styled_row_string(position: usize, e: &Entry, w: usize) -> (r: String)
    ensures
        subseq_of(row_line(position as nat, e@, w as nat), r@),
{
    let prefix = row_prefix_string(position);
    let name_field = pad_right(e.name.as_str(), w);
    let colored_name = match name_color(e.kind) {
        NameColor::Green => paint_green(name_field.as_str()),
        NameColor::Blue => paint_blue(name_field.as_str()),
    };
    let suffix = row_suffix_string(e);
    let mut row = prefix;
    row.append(colored_name.as_str());
    row.append(suffix.as_str());
    proof {
        let before = row_before_name(position as nat);
        let name_plain = padded_name(e@, w as nat);
        let after = row_after_name(e@);
        lemma_subseq_refl(before);
        lemma_subseq_refl(after);
        lemma_subseq_concat(before, before, name_plain, colored_name@);
        lemma_subseq_concat(before + name_plain, before + colored_name@, after, after);
        assert(before + name_plain + after =~= (before + name_plain) + after);
        assert(row@ =~= (before + colored_name@) + after);
    }
    let styled = match row_background(position) {
        RowBackground::BrightBlack => paint_on_bright_black(row.as_str()),
        RowBackground::Black => paint_on_black(row.as_str()),
    };
    proof {
        lemma_subseq_trans(row_line(position as nat, e@, w as nat), row@, styled@);
    }
    styled
}

/// Renders an entry set as plain text: one header line and one row per
/// entry, all name fields padded to the set's derived width. Rendering
/// zero entries fails with `EmptyEntrySet`: the column width is a
/// maximum over the names, which an empty set does not supply.
pub fn render_plain(es: &EntrySet) -> (r: Result<Vec<String>, ListError>)
    ensures
        r is Ok <==> es@.len() > 0,
        r is Err ==> r.unwrap_err() == ListError::EmptyEntrySet,
        r is Ok ==> {
            let lines = r.unwrap();
            &&& lines@.len() == es@.len() + 1
            &&& lines@[0]@ == header_line(es.name_len as nat)
            &&& forall|i: int|
                0 <= i < es@.len() ==> lines@[i + 1]@ == row_line(
                    i as nat,
                    #[trigger] es@[i],
                    es.name_len as nat,
                )
        },
{
    if es.entries.len() == 0 {
        return Err(ListError::EmptyEntrySet);
    }
    let mut lines: Vec<String> = Vec::new();
    lines.push(header_string(es.name_len));
    let mut i: usize = 0;
    while i < es.entries.len()
        invariant
            0 <= i <= es.entries@.len(),
            lines@.len() == i + 1,
            lines@[0]@ == header_line(es.name_len as nat),
            forall|j: int|
                0 <= j < i ==> lines@[j + 1]@ == row_line(
                    j as nat,
                    #[trigger] es@[j],
                    es.name_len as nat,
                ),
        decreases es.entries@.len() - i,
    {
        let row = row_string(i, &es.entries[i], es.name_len);
        proof {
            assert(es@[i as int] == es.entries@[i as int]@);
        }
        lines.push(row);
        i = i + 1;
    }
    Ok(lines)
}

/// Renders an entry set as styled lines: a header in the header style,
/// then one row per entry, colored and banded as `style` selects. Each
/// line carries the characters of its plain counterpart in order.
/// Rendering zero entries fails with `EmptyEntrySet`.
pub fn render(es: &EntrySet) -> (r: Result<Vec<String>, ListError>)
    ensures
        r is Ok <==> es@.len() > 0,
        r is Err ==> r.unwrap_err() == ListError::EmptyEntrySet,
        r is Ok ==> {
            let lines = r.unwrap();
            &&& lines@.len() == es@.len() + 1
            &&& subseq_of(header_line(es.name_len as nat), lines@[0]@)
            &&& exists|p: Seq<char>, q: Seq<char>|
                lines@[0]@ == p + header_line(es.name_len as nat) + q
            &&& forall|i: int|
                0 <= i < es@.len() ==> subseq_of(
                    row_line(i as nat, #[trigger] es@[i], es.name_len as nat),
                    lines@[i + 1]@,
                )
        },
{
    if es.entries.len() == 0 {
        return Err(ListError::EmptyEntrySet);
    }
    let mut lines: Vec<String> = Vec::new();
    let header = header_string(es.name_len);
    proof {
        lemma_header_no_escape(es.name_len as nat);
    }
    lines.push(paint_black_on_yellow(header.as_str()));
    let mut i: usize = 0;
    while i < es.entries.len()
        invariant
            0 <= i <= es.entries@.len(),
            lines@.len() == i + 1,
            subseq_of(header_line(es.name_len as nat), lines@[0]@),
            exists|p: Seq<char>, q: Seq<char>|
                lines@[0]@ == p + header_line(es.name_len as nat) + q,
            forall|j: int|
                0 <= j < i ==> subseq_of(
                    row_line(j as nat, #[trigger] es@[j], es.name_len as nat),
                    lines@[j + 1]@,
                ),
        decreases es.entries@.len() - i,
    {
        let row = styled_row_string(i, &es.entries[i], es.name_len);
        proof {
            assert(es@[i as int] == es.entries@[i as int]@);
        }
        lines.push(row);
        i = i + 1;
    }
    Ok(lines)
}

} // verus!
