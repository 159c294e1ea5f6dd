//! Logging through a slot that may hold the calling thread's buffer.
//!
//! A process keeps one shared state and, per thread, one slot. While the
//! slot holds a buffer, lines go through it. Once the slot is empty, as it
//! is while a thread is torn down, lines go straight to the shared state.

use vstd::prelude::*;
use crate::internal::{Global, Local};
use crate::model::logged;

verus! {

/// Logs a line. Through a buffer in `slot` the line is buffered as
/// `Local::log` does; with an empty slot it is pushed to `global` at once,
/// inside a window of its own.
pub fn log(global: &mut Global, slot: &mut Option<Local>, line: String, out: &mut Vec<String>)
    ensures
        final(global).domain() == old(global).domain(),
        match *old(slot) {
            Some(before) => {
                &&& final(slot).is_some()
                &&& before.wf() ==> final(slot).unwrap().wf()
                &&& final(slot).unwrap().domain() == before.domain()
                &&& (final(global).sink(final(out)@), final(slot).unwrap().pending()) == logged(
                    old(global).sink(old(out)@),
                    before.pending(),
                    line,
                )
            },
            None => {
                &&& final(slot).is_none()
                &&& final(global).sink(final(out)@) == old(global).sink(old(out)@).pushed(line)
            },
        },
{
    match slot {
        Some(local) => {
            local.log(global, line, out);
        },
        None => {
            let window = global.window();
            global.push(line, &window, out);
        },
    }
}

/// Writes to `out` every line that waits in `global` or in the buffer in
/// `slot`; with an empty slot, every line that waits in `global`.
pub fn flush(global: &mut Global, slot: &mut Option<Local>, out: &mut Vec<String>)
    ensures
        final(global).domain() == old(global).domain(),
        match *old(slot) {
            Some(before) => {
                &&& final(slot).is_some()
                &&& final(slot).unwrap().pending() == Seq::<String>::empty()
                &&& final(slot).unwrap().domain() == before.domain()
                &&& final(global).sink(final(out)@) == old(global).sink(old(out)@).extended(
                    before.pending(),
                ).flushed()
            },
            None => {
                &&& final(slot).is_none()
                &&& final(global).sink(final(out)@) == old(global).sink(old(out)@).flushed()
            },
        },
{
    match slot {
        Some(local) => {
            local.flush(global, out);
        },
        None => {
            let window = global.window();
            global.flush(&window, out);
        },
    }
}

} // verus!
