//! Plain text formatting for the table: decimal rendering of the numeric
//! fields, the fixed field labels, and the padding that aligns columns.

use vstd::prelude::*;
use vstd::string::StrSliceExecFns;
use vstd::string::StringExecFns;

use crate::embed::{has_escape, lemma_no_escape_concat};

verus! {

/// The decimal digit character for a value below ten.
pub open spec fn dec_digit(d: nat) -> char {
    if d == 0 {
        '0'
    } else if d == 1 {
        '1'
    } else if d == 2 {
        '2'
    } else if d == 3 {
        '3'
    } else if d == 4 {
        '4'
    } else if d == 5 {
        '5'
    } else if d == 6 {
        '6'
    } else if d == 7 {
        '7'
    } else if d == 8 {
        '8'
    } else {
        '9'
    }
}

/// The decimal notation of a number, without a sign and without leading
/// zeros (except for the single digit of zero itself).
pub open spec fn dec_str(n: nat) -> Seq<char>
    decreases n,
{
    if n < 10 {
        seq![dec_digit(n)]
    } else {
        dec_str(n / 10).push(dec_digit(n % 10))
    }
}

/// A run of space characters of the given length.
pub open spec fn spaces(n: nat) -> Seq<char>
    decreases n,
{
    if n == 0 {
        Seq::empty()
    } else {
        spaces((n - 1) as nat).push(' ')
    }
}

/// A text left-aligned in a field of the given width: the text itself,
/// followed by spaces up to the width; text longer than the width is
/// kept whole.
pub open spec fn pad_right_s(s: Seq<char>, w: nat) -> Seq<char> {
    if s.len() >= w {
        s
    } else {
        s + spaces((w - s.len()) as nat)
    }
}

/// A text right-aligned in a field of the given width: spaces up to the
/// width, then the text; text longer than the width is kept whole.
pub open spec fn pad_left_s(s: Seq<char>, w: nat) -> Seq<char> {
    if s.len() >= w {
        s
    } else {
        spaces((w - s.len()) as nat) + s
    }
}

/// Padding never loses text and always reaches the field width: the
/// padded field is exactly as wide as the field unless the text is
/// longer, in which case it is the text itself.
pub proof fn lemma_pad_width(s: Seq<char>, w: nat)
    ensures
        pad_right_s(s, w).len() == if s.len() >= w {
            s.len()
        } else {
            w
        },
        pad_left_s(s, w).len() == pad_right_s(s, w).len(),
        s.len() <= w ==> pad_right_s(s, w).len() == w,
{
    lemma_spaces_len((if s.len() >= w {
        0
    } else {
        (w - s.len()) as nat
    }));
}

/// A run of spaces has the length it was asked for.
pub proof fn lemma_spaces_len(n: nat)
    ensures
        spaces(n).len() == n,
    decreases n,
{
    if n > 0 {
        lemma_spaces_len((n - 1) as nat);
    }
}

/// A run of spaces holds no escape character.
pub proof fn lemma_spaces_no_escape(n: nat)
    ensures
        !has_escape(spaces(n)),
    decreases n,
{
    lemma_spaces_len(n);
    if n > 0 {
        lemma_spaces_no_escape((n - 1) as nat);
        lemma_spaces_len((n - 1) as nat);
        if has_escape(spaces(n)) {
            let i = choose|i: int| 0 <= i < spaces(n).len() && spaces(n)[i] == '\u{1b}';
            if i < n - 1 {
                assert(spaces((n - 1) as nat)[i] == '\u{1b}');
            } else {
                assert(spaces(n)[i] == ' ');
            }
        }
    }
}

/// Padding an escape-free text gives an escape-free field.
pub proof fn lemma_pad_no_escape(s: Seq<char>, w: nat)
    requires
        !has_escape(s),
    ensures
        !has_escape(pad_right_s(s, w)),
        !has_escape(pad_left_s(s, w)),
{
    if s.len() < w {
        lemma_spaces_no_escape((w - s.len()) as nat);
        lemma_no_escape_concat(s, spaces((w - s.len()) as nat));
        lemma_no_escape_concat(spaces((w - s.len()) as nat), s);
    }
}

/// The digit character of a value below ten.
fn digit_str(d: u64) -> (r: &'static str)
    requires
        d < 10,
    ensures
        r@ == seq![dec_digit(d as nat)],
{
    proof {
        reveal_strlit("0");
        reveal_strlit("1");
        reveal_strlit("2");
        reveal_strlit("3");
        reveal_strlit("4");
        reveal_strlit("5");
        reveal_strlit("6");
        reveal_strlit("7");
        reveal_strlit("8");
        reveal_strlit("9");
    }
    let r = if d == 0 {
        "0"
    } else if d == 1 {
        "1"
    } else if d == 2 {
        "2"
    } else if d == 3 {
        "3"
    } else if d == 4 {
        "4"
    } else if d == 5 {
        "5"
    } else if d == 6 {
        "6"
    } else if d == 7 {
        "7"
    } else if d == 8 {
        "8"
    } else {
        "9"
    };
    proof {
        assert(r@ =~= seq![dec_digit(d as nat)]);
    }
    r
}

/// Renders a number in decimal notation.
pub fn u64_string(n: u64) -> (r: String)
    ensures
        r@ == dec_str(n as nat),
    decreases n,
{
    if n < 10 {
        digit_str(n).to_owned()
    } else {
        let mut s = u64_string(n / 10);
        s.append(digit_str(n % 10));
        proof {
            assert(s@ =~= dec_str(n as nat));
        }
        s
    }
}

/// Renders a machine-word number in decimal notation.
pub fn usize_string(n: usize) -> (r: String)
    ensures
        r@ == dec_str(n as nat),
{
    u64_string(n as u64)
}

/// Left-aligns a text in a field of the given width by appending spaces.
pub fn pad_right(s: &str, w: usize) -> (r: String)
    ensures
        r@ == pad_right_s(s@, w as nat),
{
    proof {
        reveal_strlit(" ");
    }
    let n = s.unicode_len();
    let mut out = s.to_owned();
    let mut k = n;
    while k < w
        invariant
            n == s@.len(),
            n <= k,
            out@ == s@ + spaces((k - n) as nat),
            k <= w || k == n,
        decreases w - k,
    {
        out.append(" ");
        proof {
            reveal_strlit(" ");
            assert(spaces((k + 1 - n) as nat) =~= spaces((k - n) as nat) + seq![' ']);
            assert(out@ =~= s@ + spaces((k + 1 - n) as nat));
        }
        k = k + 1;
    }
    proof {
        if n >= w {
            assert(out@ =~= s@);
        }
    }
    out
}

/// Right-aligns a text in a field of the given width by prepending
/// spaces.
pub fn pad_left(s: &str, w: usize) -> (r: String)
    ensures
        r@ == pad_left_s(s@, w as nat),
{
    proof {
        reveal_strlit(" ");
    }
    let n = s.unicode_len();
    let pad: usize = if w > n {
        w - n
    } else {
        0
    };
    let mut out = String::new();
    let mut k: usize = 0;
    while k < pad
        invariant
            n == s@.len(),
            k <= pad,
            pad == if w > n {
                w - n
            } else {
                0
            },
            out@ == spaces(k as nat),
        decreases pad - k,
    {
        out.append(" ");
        proof {
            reveal_strlit(" ");
            assert(spaces((k + 1) as nat) =~= spaces(k as nat) + seq![' ']);
            assert(out@ =~= spaces((k + 1) as nat));
        }
        k = k + 1;
    }
    out.append(s);
    proof {
        if n >= w {
            assert(out@ =~= s@);
        }
    }
    out
}

/// The display text of a boolean flag.
pub open spec fn bool_label(b: bool) -> Seq<char> {
    if b {
        "true"@
    } else {
        "false"@
    }
}

/// Renders a boolean flag as its display text.
pub fn bool_str(b: bool) -> (r: &'static str)
    ensures
        r@ == bool_label(b),
{
    proof {
        reveal_strlit("true");
        reveal_strlit("false");
    }
    if b {
        "true"
    } else {
        "false"
    }
}

} // verus!
