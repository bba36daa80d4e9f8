//! Normalization of raw window-size query outcomes into character-cell
//! sizes, and the policy that picks the first stream whose query succeeded.

use vstd::prelude::*;

verus! {

/// The character-cell size obtained from one window-size query: `raw` is
/// `Some((columns, rows))` when the query succeeded and `None` when it
/// failed. Column and row counts map one-to-one to width and height; no
/// adjustment or clamping is applied, so a reported zero survives.
pub open spec fn spec_normalize(raw: Option<(u16, u16)>) -> Option<(usize, usize)> {
    match raw {
        Some(cell) => Some((cell.0 as usize, cell.1 as usize)),
        None => None,
    }
}

/// Turns a raw window-size query outcome into a width/height pair in
/// character cells; only the query's own success or failure decides absence.
pub fn normalize(raw: Option<(u16, u16)>) -> (size: Option<(usize, usize)>)
    ensures
        size == spec_normalize(raw),
{
    match raw {
        Some((cols, rows)) => Some((cols as usize, rows as usize)),
        None => None,
    }
}

/// The any-stream policy: the size reported by standard output if its query
/// succeeded, otherwise by standard input, otherwise by standard error.
pub open spec fn spec_first_size(
    out: Option<(usize, usize)>,
    inp: Option<(usize, usize)>,
    err: Option<(usize, usize)>,
) -> Option<(usize, usize)> {
    if out is Some {
        out
    } else if inp is Some {
        inp
    } else {
        err
    }
}

/// Picks the first present size among the three streams' query results, in
/// the fixed order standard output, standard input, standard error.
pub fn select_first(
    out: Option<(usize, usize)>,
    inp: Option<(usize, usize)>,
    err: Option<(usize, usize)>,
) -> (chosen: Option<(usize, usize)>)
    ensures
        chosen == spec_first_size(out, inp, err),
{
    if out.is_some() {
        out
    } else if inp.is_some() {
        inp
    } else {
        err
    }
}

/// When standard output's query reports a size, the any-stream policy returns
/// exactly that result, whatever standard input and standard error report.
pub proof fn lemma_first_size_stdout_wins(
    out: Option<(usize, usize)>,
    inp: Option<(usize, usize)>,
    err: Option<(usize, usize)>,
)
    requires
        out is Some,
    ensures
        spec_first_size(out, inp, err) == out,
{
}

/// When standard output's query fails but standard input's reports a size,
/// the any-stream policy returns exactly standard input's result, whatever
/// standard error reports.
pub proof fn lemma_first_size_stdin_fallback(
    out: Option<(usize, usize)>,
    inp: Option<(usize, usize)>,
    err: Option<(usize, usize)>,
)
    requires
        out is None,
        inp is Some,
    ensures
        spec_first_size(out, inp, err) == inp,
{
}

/// The any-stream policy reports absence exactly when all three streams'
/// queries failed.
pub proof fn lemma_first_size_absent_iff_all_absent(
    out: Option<(usize, usize)>,
    inp: Option<(usize, usize)>,
    err: Option<(usize, usize)>,
)
    ensures
        spec_first_size(out, inp, err) is None <==> (out is None && inp is None && err is None),
{
}

/// Normalization passes the query's success signal through unchanged: absence
/// comes only from a failed query, and a reported count of zero survives as
/// a present size with a zero component instead of being coerced to `None`.
pub proof fn lemma_normalize_preserves_presence(raw: Option<(u16, u16)>)
    ensures
        spec_normalize(raw) is Some <==> raw is Some,
        raw matches Some(cell) ==> spec_normalize(raw) == Some((cell.0 as usize, cell.1 as usize)),
{
}

/// Any present normalized size has components that fit the 16-bit counts of
/// the underlying window-size structure.
pub proof fn lemma_normalize_bounds(raw: Option<(u16, u16)>)
    ensures
        spec_normalize(raw) matches Some(size) ==> size.0 <= u16::MAX && size.1 <= u16::MAX,
{
}

} // verus!
