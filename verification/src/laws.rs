//! Laws of the palette, proved of the model in `palette`.
//!
//! The executable editor is proved to follow that model step by step, so each
//! law holds of every run of the editor as well.

use vstd::prelude::*;
use crate::color::Sample;
use crate::palette::Palette;

verus! {

/// One operation on a palette, with the colours it is handed.
pub enum Op {
    SelectNext,
    SelectPrev,
    Insert(Sample),
    Remove,
    SwapUp,
    SwapDown,
    ToggleLock,
    Regenerate(Seq<Sample>),
}

/// The palette after one operation.
pub open spec fn apply(palette: Palette, op: Op) -> Palette {
    match op {
        Op::SelectNext => palette.select_next(),
        Op::SelectPrev => palette.select_prev(),
        Op::Insert(sample) => palette.insert(sample),
        Op::Remove => palette.remove(),
        Op::SwapUp => palette.swap_up(),
        Op::SwapDown => palette.swap_down(),
        Op::ToggleLock => palette.toggle_lock(),
        Op::Regenerate(samples) => palette.regenerate(samples),
    }
}

/// The palette after the operations `ops`, applied first to last.
pub open spec fn run(palette: Palette, ops: Seq<Op>) -> Palette
    decreases ops.len(),
{
    if ops.len() == 0 {
        palette
    } else {
        apply(run(palette, ops.drop_last()), ops.last())
    }
}

/// The palette after `n` times `select_next`.
pub open spec fn select_next_times(palette: Palette, n: nat) -> Palette
    decreases n,
{
    if n == 0 {
        palette
    } else {
        select_next_times(palette, (n - 1) as nat).select_next()
    }
}

/// The index that lies `n` places below `selected` in a palette of `len`
/// entries, going round from the last entry to the first, for `n <= len`.
pub open spec fn places_below(selected: int, n: int, len: int) -> int {
    if selected + n < len {
        selected + n
    } else {
        selected + n - len
    }
}

/// No operation leaves the selection outside the palette.
pub proof fn lemma_apply_keeps_selection_valid(palette: Palette, op: Op)
    requires
        palette.selection_valid(),
    ensures
        apply(palette, op).selection_valid(),
{
}

/// No operation lets the scroll indicator part from the selection.
pub proof fn lemma_apply_keeps_wf(palette: Palette, op: Op)
    requires
        palette.wf(),
    ensures
        apply(palette, op).wf(),
{
}

/// Whatever operations are applied, in whatever order, after each of them the
/// selection is the index of an entry: `0 <= selected < entries.len()`.
pub proof fn lemma_selection_always_valid(palette: Palette, ops: Seq<Op>)
    requires
        palette.selection_valid(),
    ensures
        forall|n: int| 0 <= n <= ops.len() ==> (#[trigger] run(palette, ops.take(n))).selection_valid(),
    decreases ops.len(),
{
    assert forall|n: int| 0 <= n <= ops.len() implies (#[trigger] run(
        palette,
        ops.take(n),
    )).selection_valid() by {
        if n == ops.len() {
            assert(ops.take(n) =~= ops);
            if ops.len() > 0 {
                lemma_selection_always_valid(palette, ops.drop_last());
                assert(ops.drop_last().take(ops.len() - 1) =~= ops.drop_last());
                lemma_apply_keeps_selection_valid(run(palette, ops.drop_last()), ops.last());
            }
        } else {
            lemma_selection_always_valid(palette, ops.drop_last());
            assert(ops.drop_last().take(n) =~= ops.take(n));
        }
    }
}

/// Whatever operations are applied, in whatever order, after each of them the
/// scroll indicator mirrors the palette: its position is the selection and
/// its content length is the number of entries.
pub proof fn lemma_indicator_always_mirrors(palette: Palette, ops: Seq<Op>)
    requires
        palette.wf(),
    ensures
        forall|n: int| 0 <= n <= ops.len() ==> (#[trigger] run(palette, ops.take(n))).wf(),
    decreases ops.len(),
{
    assert forall|n: int| 0 <= n <= ops.len() implies (#[trigger] run(palette, ops.take(n))).wf() by {
        if n == ops.len() {
            assert(ops.take(n) =~= ops);
            if ops.len() > 0 {
                lemma_indicator_always_mirrors(palette, ops.drop_last());
                assert(ops.drop_last().take(ops.len() - 1) =~= ops.drop_last());
                lemma_apply_keeps_wf(run(palette, ops.drop_last()), ops.last());
            }
        } else {
            lemma_indicator_always_mirrors(palette, ops.drop_last());
            assert(ops.drop_last().take(n) =~= ops.take(n));
        }
    }
}

/// Removing from a palette of one entry changes nothing: the entry stays, and
/// so do the length and the selection.
pub proof fn lemma_remove_keeps_last_entry(palette: Palette)
    requires
        palette.entries.len() == 1,
    ensures
        palette.remove() == palette,
{
}

/// `swap_up` and then `swap_down` give back the palette as it was, order and
/// selection. This holds from every selection, the first and last included.
pub proof fn lemma_swap_up_then_down_restores(palette: Palette)
    requires
        palette.wf(),
    ensures
        palette.swap_up().swap_down() == palette,
{
    assert(palette.swap_up().swap_down().entries =~= palette.entries);
}

/// `swap_down` and then `swap_up` give back the palette as it was.
pub proof fn lemma_swap_down_then_up_restores(palette: Palette)
    requires
        palette.wf(),
    ensures
        palette.swap_down().swap_up() == palette,
{
    assert(palette.swap_down().swap_up().entries =~= palette.entries);
}

/// Where `select_next` has been applied `n` times, for `n` up to the number of
/// entries: the selection has moved on by `n`, wrapping once at most, and the
/// entries are untouched.
pub proof fn lemma_select_next_times(palette: Palette, n: nat)
    requires
        palette.wf(),
        n <= palette.entries.len(),
    ensures
        select_next_times(palette, n).wf(),
        select_next_times(palette, n).entries == palette.entries,
        select_next_times(palette, n).selected == places_below(
            palette.selected,
            n as int,
            palette.entries.len() as int,
        ),
    decreases n,
{
    if n > 0 {
        lemma_select_next_times(palette, (n - 1) as nat);
    }
}

/// `select_next`, applied as many times as the palette has entries, brings
/// the selection back to where it started, and the whole palette with it.
pub proof fn lemma_select_next_full_circle(palette: Palette)
    requires
        palette.wf(),
    ensures
        select_next_times(palette, palette.entries.len()) == palette,
{
    lemma_select_next_times(palette, palette.entries.len());
}

/// Regeneration changes no lock, moves no entry, and leaves a locked entry's
/// colour alone.
pub proof fn lemma_regenerate_respects_locks(palette: Palette, samples: Seq<Sample>)
    ensures
        palette.regenerate(samples).entries.len() == palette.entries.len(),
        palette.regenerate(samples).selected == palette.selected,
        palette.regenerate(samples).indicator == palette.indicator,
        forall|i: int|
            0 <= i < palette.entries.len() ==> (#[trigger] palette.regenerate(
                samples,
            ).entries[i]).locked == palette.entries[i].locked,
        forall|i: int|
            0 <= i < palette.entries.len() && palette.entries[i].locked
                ==> #[trigger] palette.regenerate(samples).entries[i] == palette.entries[i],
{
}

} // verus!
