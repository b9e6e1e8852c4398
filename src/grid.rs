//! The arithmetic of grids: how many columns a grid has, how a row is padded
//! to that width, and how a lazy grid maps its rows and tracks to items.
use vstd::prelude::*;

verus! {

/// The shape of one child of a grid: a row of cells, or a view that spans
/// every column.
#[derive(Clone, Copy, Debug, PartialEq, Eq, Structural)]
pub enum GridLine {
    /// A row with this many cells.
    Row(usize),
    /// A view that spans all columns.
    Spanning,
}

/// The number of columns a line claims: its cells for a row, none for a
/// spanning view.
pub open spec fn claimed_columns(line: GridLine) -> nat {
    match line {
        GridLine::Row(n) => n as nat,
        GridLine::Spanning => 0,
    }
}

/// The number of columns of a grid: the most cells of any of its rows, or 0
/// when it has no row.
pub fn max_columns(lines: &Vec<GridLine>) -> (r: usize)
    ensures
        forall|i: int| 0 <= i < lines@.len() ==> claimed_columns(#[trigger] lines@[i]) <= r,
        r == 0 || exists|i: int|
            0 <= i < lines@.len() && claimed_columns(#[trigger] lines@[i]) == r,
{
    let mut best: usize = 0;
    let mut i: usize = 0;
    while i < lines.len()
        invariant
            i <= lines@.len(),
            forall|j: int| 0 <= j < i ==> claimed_columns(#[trigger] lines@[j]) <= best,
            best == 0 || exists|j: int| 0 <= j < i && claimed_columns(#[trigger] lines@[j]) == best,
        decreases lines@.len() - i,
    {
        match lines[i] {
            GridLine::Row(n) => {
                if n > best {
                    best = n;
                }
            },
            GridLine::Spanning => {},
        }
        i = i + 1;
    }
    best
}

/// The empty cells that follow the last cell of a row with `row_len` cells in
/// a grid of `columns` columns, so that the next row starts a new line. An
/// empty row gets none.
pub fn filler_cells(row_len: usize, columns: usize) -> (r: usize)
    ensures
        r == (if 0 < row_len < columns {
            columns - row_len
        } else {
            0
        }),
{
    if 0 < row_len && row_len < columns {
        columns - row_len
    } else {
        0
    }
}

/// The number of lines that `items` items fill, `tracks` to a line: the
/// quotient rounded up, and 0 when either is 0.
pub open spec fn spec_line_count(items: usize, tracks: usize) -> nat {
    if tracks == 0 || items == 0 {
        0
    } else {
        (items / tracks) as nat + (if items % tracks == 0 {
            0nat
        } else {
            1nat
        })
    }
}

/// The item shown at `track` of `line`, with `tracks` tracks per line.
pub open spec fn spec_cell_item(line: usize, track: usize, tracks: usize, items: usize) -> Option<
    usize,
> {
    if line * tracks + track < items {
        Some((line * tracks + track) as usize)
    } else {
        None
    }
}

/// The number of rows (or columns, for a horizontal grid) that `items` items
/// fill, `tracks` to a line.
pub fn line_count(items: usize, tracks: usize) -> (r: usize)
    ensures
        r == spec_line_count(items, tracks),
{
    if tracks == 0 || items == 0 {
        0
    } else {
        let q = items / tracks;
        assert(q * tracks <= items) by (nonlinear_arith)
            requires
                q == items / tracks,
                tracks > 0,
        ;
        if items % tracks == 0 {
            q
        } else {
            assert(q < items) by (nonlinear_arith)
                requires
                    q == items / tracks,
                    tracks > 0,
                    items % tracks != 0,
            ;
            q + 1
        }
    }
}

/// The index of the item shown at `track` of `line` in a lazy grid with
/// `tracks` tracks per line, if the grid has that item.
pub fn cell_item(line: usize, track: usize, tracks: usize, items: usize) -> (r: Option<usize>)
    ensures
        r == spec_cell_item(line, track, tracks, items),
{
    match line.checked_mul(tracks) {
        Some(base) => match base.checked_add(track) {
            Some(index) => {
                if index < items {
                    Some(index)
                } else {
                    None
                }
            },
            None => None,
        },
        None => {
            assert(line * tracks + track >= line * tracks) by (nonlinear_arith)
                requires
                    line >= 0,
                    tracks >= 0,
                    track >= 0,
            ;
            None
        },
    }
}

/// A lazy grid shows every item: item `i` stands at track `i % tracks` of
/// line `i / tracks`, and that line is one of the `line_count` lines.
pub proof fn lemma_every_item_has_a_cell(items: usize, tracks: usize, i: usize)
    requires
        0 < tracks,
        i < items,
    ensures
        i / tracks < spec_line_count(items, tracks),
        i % tracks < tracks,
        spec_cell_item((i / tracks) as usize, (i % tracks) as usize, tracks, items) == Some(i),
{
    let q = i / tracks;
    let r = i % tracks;
    assert(q * tracks + r == i && 0 <= r < tracks) by (nonlinear_arith)
        requires
            q == i / tracks,
            r == i % tracks,
            tracks > 0,
    ;
    assert(q <= items / tracks) by (nonlinear_arith)
        requires
            q == i / tracks,
            i < items,
            tracks > 0,
    ;
    if items % tracks == 0 {
        assert(q < items / tracks) by (nonlinear_arith)
            requires
                q == i / tracks,
                i < items,
                tracks > 0,
                items % tracks == 0,
        ;
    }
}

/// The tracks of a lazy grid once its adaptive definitions are expanded:
/// each adaptive definition stands for `copies` tracks, any other for one.
/// Each track is given as the index of the definition it comes from.
pub open spec fn expanded_tracks(adaptive: Seq<bool>, copies: nat) -> Seq<usize>
    decreases adaptive.len(),
{
    if adaptive.len() == 0 {
        Seq::empty()
    } else {
        let last = (adaptive.len() - 1) as usize;
        expanded_tracks(adaptive.drop_last(), copies) + if adaptive.last() {
            Seq::new(copies, |_j: int| last)
        } else {
            seq![last]
        }
    }
}

/// The number of tracks an adaptive definition stands for: as many as fit,
/// and at least one.
pub open spec fn spec_adaptive_copies(fit: usize) -> nat {
    if fit == 0 {
        1
    } else {
        fit as nat
    }
}

/// The number of tracks an adaptive definition stands for.
pub fn adaptive_copies(fit: usize) -> (r: usize)
    ensures
        r == spec_adaptive_copies(fit),
{
    if fit == 0 {
        1
    } else {
        fit
    }
}

/// Expands the track definitions of a lazy grid. `adaptive[i]` says whether
/// definition `i` is adaptive, and `fit` is how many tracks of the first
/// adaptive definition fit in the container. Each adaptive definition gives
/// `adaptive_copies(fit)` tracks, any other definition one. The result lists,
/// for each track, the index of its definition.
pub fn expand_tracks(adaptive: &Vec<bool>, fit: usize) -> (r: Vec<usize>)
    ensures
        r@ == expanded_tracks(adaptive@, spec_adaptive_copies(fit)),
{
    let copies = adaptive_copies(fit);
    let mut tracks: Vec<usize> = Vec::new();
    let mut i: usize = 0;
    while i < adaptive.len()
        invariant
            i <= adaptive@.len(),
            tracks@ == expanded_tracks(adaptive@.subrange(0, i as int), copies as nat),
        decreases adaptive@.len() - i,
    {
        let ghost before = tracks@;
        let ghost prefix = adaptive@.subrange(0, i + 1);
        assert(prefix.drop_last() == adaptive@.subrange(0, i as int));
        assert(prefix.last() == adaptive@[i as int]);
        if adaptive[i] {
            let mut k: usize = 0;
            while k < copies
                invariant
                    k <= copies,
                    tracks@ == before + Seq::new(k as nat, |_j: int| i),
                decreases copies - k,
            {
                tracks.push(i);
                assert(tracks@ =~= before + Seq::new((k + 1) as nat, |_j: int| i));
                k = k + 1;
            }
        } else {
            tracks.push(i);
        }
        assert(tracks@ =~= expanded_tracks(prefix, copies as nat));
        i = i + 1;
    }
    assert(adaptive@.subrange(0, adaptive@.len() as int) == adaptive@);
    tracks
}

} // verus!
