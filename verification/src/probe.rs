//! The four probe operations: each resolves a standard stream to its
//! descriptor at call time, issues the terminal window-size query, and
//! normalizes the outcome into an optional character-cell size.

use vstd::prelude::*;
use crate::size::{normalize, select_first};

verus! {

/// Relies on `rustix::termios::tcgetwinsize` (the `TIOCGWINSZ` terminal
/// query) against standard output, resolved by `rustix::stdio::stdout`. The
/// call fails whenever the descriptor is not an interactive terminal; whether
/// it succeeds, and which column and row counts it reports, depend on the
/// process's streams at the moment of the call, so nothing is assumed of the
/// outcome beyond its shape.
#[verifier::external_body]
fn query_stdout() -> (raw: Option<(u16, u16)>) {
    match rustix::termios::tcgetwinsize(rustix::stdio::stdout()) {
        Ok(ws) => Some((ws.ws_col, ws.ws_row)),
        Err(_) => None,
    }
}

/// Relies on `rustix::termios::tcgetwinsize` against standard input, resolved
/// by `rustix::stdio::stdin`; see `query_stdout` for what is assumed.
#[verifier::external_body]
fn query_stdin() -> (raw: Option<(u16, u16)>) {
    match rustix::termios::tcgetwinsize(rustix::stdio::stdin()) {
        Ok(ws) => Some((ws.ws_col, ws.ws_row)),
        Err(_) => None,
    }
}

/// Relies on `rustix::termios::tcgetwinsize` against standard error, resolved
/// by `rustix::stdio::stderr`; see `query_stdout` for what is assumed.
#[verifier::external_body]
fn query_stderr() -> (raw: Option<(u16, u16)>) {
    match rustix::termios::tcgetwinsize(rustix::stdio::stderr()) {
        Ok(ws) => Some((ws.ws_col, ws.ws_row)),
        Err(_) => None,
    }
}

/// Queries standard output, then standard input, then standard error, and
/// returns the character-cell size reported by the first stream whose query
/// succeeds, or `None` when every query fails. The size reflects the terminal
/// geometry at the moment of the call only.
pub fn dimensions() -> (size: Option<(usize, usize)>)
    ensures
        size matches Some(cells) ==> cells.0 <= u16::MAX && cells.1 <= u16::MAX,
{
    let out = normalize(query_stdout());
    let inp = normalize(query_stdin());
    let err = normalize(query_stderr());
    select_first(out, inp, err)
}

/// Queries standard output only, returning its character-cell size, or
/// `None` when the stream is not attached to an interactive terminal or the
/// query fails.
pub fn dimensions_stdout() -> (size: Option<(usize, usize)>)
    ensures
        size matches Some(cells) ==> cells.0 <= u16::MAX && cells.1 <= u16::MAX,
{
    normalize(query_stdout())
}

/// Queries standard input only, returning its character-cell size, or `None`
/// when the stream is not attached to an interactive terminal or the query
/// fails.
pub fn dimensions_stdin() -> (size: Option<(usize, usize)>)
    ensures
        size matches Some(cells) ==> cells.0 <= u16::MAX && cells.1 <= u16::MAX,
{
    normalize(query_stdin())
}

/// Queries standard error only, returning its character-cell size, or `None`
/// when the stream is not attached to an interactive terminal or the query
/// fails.
pub fn dimensions_stderr() -> (size: Option<(usize, usize)>)
    ensures
        size matches Some(cells) ==> cells.0 <= u16::MAX && cells.1 <= u16::MAX,
{
    normalize(query_stderr())
}

} // verus!
