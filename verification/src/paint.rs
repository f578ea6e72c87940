//! Trusted boundary to the `colored` crate, which turns a string into the
//! same string wrapped in terminal escape sequences — or returns it
//! unchanged when coloring is disabled for the process.
//!
//! `colored`'s `Display` for a styled string either writes the input as
//! it is (colors disabled), or writes the style prefix, the input with
//! the style re-applied after any reset sequence the input already
//! contains, and a final reset. In every case the input's characters
//! appear in order in the output, and when the input holds no escape
//! character the input appears as one contiguous block.

use vstd::prelude::*;

use colored::Colorize;

use crate::embed::{has_escape, subseq_of};

verus! {

/// Relies on `colored::Colorize::black` and `on_yellow` (the header
/// style) and on `ColoredString`'s `Display`: the output carries the
/// input's characters in order, contiguously when the input holds no
/// escape character.
#[verifier::external_body]
pub(crate) fn paint_black_on_yellow(s: &str) -> (r: String)
    ensures
        subseq_of(s@, r@),
        !has_escape(s@) ==> exists|p: Seq<char>, q: Seq<char>| r@ == p + s@ + q,
{
    format!("{}", s.black().on_yellow())
}

/// Relies on `colored::Colorize::green` (the file-name color) and on
/// `ColoredString`'s `Display`: the output carries the input's
/// characters in order, contiguously when the input holds no escape
/// character.
#[verifier::external_body]
pub(crate) fn paint_green(s: &str) -> (r: String)
    ensures
        subseq_of(s@, r@),
        !has_escape(s@) ==> exists|p: Seq<char>, q: Seq<char>| r@ == p + s@ + q,
{
    format!("{}", s.green())
}

/// Relies on `colored::Colorize::blue` (the directory-name color) and on
/// `ColoredString`'s `Display`: the output carries the input's
/// characters in order, contiguously when the input holds no escape
/// character.
#[verifier::external_body]
pub(crate) fn paint_blue(s: &str) -> (r: String)
    ensures
        subseq_of(s@, r@),
        !has_escape(s@) ==> exists|p: Seq<char>, q: Seq<char>| r@ == p + s@ + q,
{
    format!("{}", s.blue())
}

/// Relies on `colored::Colorize::on_bright_black` (the even-row band)
/// and on `ColoredString`'s `Display`: the output carries the input's
/// characters in order, contiguously when the input holds no escape
/// character.
#[verifier::external_body]
pub(crate) fn paint_on_bright_black(s: &str) -> (r: String)
    ensures
        subseq_of(s@, r@),
        !has_escape(s@) ==> exists|p: Seq<char>, q: Seq<char>| r@ == p + s@ + q,
{
    format!("{}", s.on_bright_black())
}

/// Relies on `colored::Colorize::on_black` (the odd-row band) and on
/// `ColoredString`'s `Display`: the output carries the input's
/// characters in order, contiguously when the input holds no escape
/// character.
#[verifier::external_body]
pub(crate) fn paint_on_black(s: &str) -> (r: String)
    ensures
        subseq_of(s@, r@),
        !has_escape(s@) ==> exists|p: Seq<char>, q: Seq<char>| r@ == p + s@ + q,
{
    format!("{}", s.on_black())
}

} // verus!
