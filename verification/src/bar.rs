//! The layout of the bar: how wide each gauge is, and in which order the
//! gauges and the separators between them stand.

use crate::{Layout, Orientation};
use vstd::prelude::*;

verus! {

/// The width of a gauge that shows nothing yet and has no width of its own.
pub const DEFAULT_GAUGE_WIDTH: u32 = 200;

/// The width of a separator.
pub const DEFAULT_SEP_WIDTH: u32 = 24;

/// The bar itself.
#[derive(Debug)]
pub struct Bar {}

/// One place in the row of the bar.
#[derive(Debug, Clone, Copy, PartialEq, Eq, Structural)]
pub enum Slot {
    /// The gauge that was bound as the one with this number, counted from
    /// zero.
    Gauge(usize),
    /// A separator between two gauges.
    Separator,
}

/// The width that a gauge asks for: its own where its layout has one, else
/// that of what it shows, else the width of an empty gauge.
pub open spec fn natural_width(layout: Layout, content: Option<u32>) -> u32 {
    match layout.width {
        Some(w) => w,
        None => match content {
            Some(w) => w,
            None => DEFAULT_GAUGE_WIDTH,
        },
    }
}

/// A width held between the least and the greatest width of a layout. Where
/// the two cross, the greatest width wins.
pub open spec fn bounded_width(layout: Layout, w: u32) -> u32 {
    let raised = match layout.minwidth {
        Some(least) => if w < least {
            least
        } else {
            w
        },
        None => w,
    };
    match layout.maxwidth {
        Some(greatest) => if raised > greatest {
            greatest
        } else {
            raised
        },
        None => raised,
    }
}

/// A width smoothed against the width before: where the two differ by no
/// more than the layout's smoothing, the greater of them stays.
pub open spec fn smoothed_width(layout: Layout, previous: u32, w: u32) -> u32 {
    match layout.smoothwidth {
        Some(delta) => if w - previous <= delta && previous - w <= delta {
            if previous > w {
                previous
            } else {
                w
            }
        } else {
            w
        },
        None => w,
    }
}

/// The width of a gauge after a pass of the layout, where `previous` was its
/// width before and `content` is the width of what it shows.
pub open spec fn width_after(layout: Layout, previous: u32, content: Option<u32>) -> u32 {
    smoothed_width(layout, previous, bounded_width(layout, natural_width(layout, content)))
}

/// The sum of the widths.
pub open spec fn widths_sum(widths: Seq<u32>) -> int
    decreases widths.len(),
{
    if widths.len() == 0 {
        0
    } else {
        widths_sum(widths.drop_last()) + widths.last()
    }
}

/// The width that is left for the spacer between the two sides of the bar.
pub open spec fn spacer_of(bar_width: u32, total: u32) -> u32 {
    if total < bar_width {
        (bar_width - total) as u32
    } else {
        0
    }
}

/// The slots of the gauges on the left: each in the order in which it was
/// bound, with a separator behind it.
pub open spec fn left_slots(sides: Seq<Orientation>) -> Seq<Slot>
    decreases sides.len(),
{
    if sides.len() == 0 {
        Seq::empty()
    } else if sides.last() == Orientation::Left {
        left_slots(sides.drop_last()) + seq![
            Slot::Gauge((sides.len() - 1) as usize),
            Slot::Separator,
        ]
    } else {
        left_slots(sides.drop_last())
    }
}

/// The slots of the gauges on the right: the one bound last comes first, and
/// each has a separator before it.
pub open spec fn right_slots(sides: Seq<Orientation>) -> Seq<Slot>
    decreases sides.len(),
{
    if sides.len() == 0 {
        Seq::empty()
    } else if sides.last() == Orientation::Right {
        seq![Slot::Separator, Slot::Gauge((sides.len() - 1) as usize)] + right_slots(
            sides.drop_last(),
        )
    } else {
        right_slots(sides.drop_last())
    }
}

/// The row of the bar: the left side, then the right side. The spacer
/// stands between the two.
pub open spec fn row_of(sides: Seq<Orientation>) -> Seq<Slot> {
    left_slots(sides) + right_slots(sides)
}

/// The width of a gauge after a pass of the layout.
pub fn update_width(layout: &Layout, previous: u32, content: Option<u32>) -> (w: u32)
    ensures
        w == width_after(*layout, previous, content),
{
    let mut w: u32 = match layout.width {
        Some(w) => w,
        None => match content {
            Some(w) => w,
            None => DEFAULT_GAUGE_WIDTH,
        },
    };
    if let Some(least) = layout.minwidth {
        if w < least {
            w = least;
        }
    }
    if let Some(greatest) = layout.maxwidth {
        if w > greatest {
            w = greatest;
        }
    }
    if let Some(delta) = layout.smoothwidth {
        if previous > w && previous - w <= delta {
            w = previous;
        }
    }
    w
}

/// The widths of all gauges after a pass of the layout, given for each its
/// layout, its width before and the width of what it shows.
pub fn update_widths(layouts: &Vec<Layout>, previous: &Vec<u32>, content: &Vec<Option<u32>>) -> (widths:
    Vec<u32>)
    requires
        previous@.len() == layouts@.len(),
        content@.len() == layouts@.len(),
    ensures
        widths@.len() == layouts@.len(),
        forall|i: int|
            0 <= i < layouts@.len() ==> #[trigger] widths@[i] == width_after(
                layouts@[i],
                previous@[i],
                content@[i],
            ),
{
    let mut widths: Vec<u32> = Vec::new();
    let mut i: usize = 0;
    while i < layouts.len()
        invariant
            previous@.len() == layouts@.len(),
            content@.len() == layouts@.len(),
            i <= layouts@.len(),
            widths@.len() == i,
            forall|k: int|
                0 <= k < i ==> #[trigger] widths@[k] == width_after(
                    layouts@[k],
                    previous@[k],
                    content@[k],
                ),
        decreases layouts@.len() - i,
    {
        widths.push(update_width(&layouts[i], previous[i], content[i]));
        i += 1;
    }
    widths
}

/// The sum of the widths grows with each width that is added.
proof fn lemma_widths_sum_grows(widths: Seq<u32>, n: int)
    requires
        0 <= n <= widths.len(),
    ensures
        0 <= widths_sum(widths.take(n)) <= widths_sum(widths),
    decreases widths.len() - n,
{
    if n < widths.len() {
        lemma_widths_sum_grows(widths, n + 1);
        assert(widths.take(n + 1).drop_last() =~= widths.take(n));
        lemma_sum_not_negative(widths.take(n));
    } else {
        assert(widths.take(n) =~= widths);
        lemma_sum_not_negative(widths);
    }
}

/// A sum of widths is not negative.
proof fn lemma_sum_not_negative(widths: Seq<u32>)
    ensures
        widths_sum(widths) >= 0,
    decreases widths.len(),
{
    if widths.len() > 0 {
        lemma_sum_not_negative(widths.drop_last());
    }
}

/// The width of all gauges together.
pub fn total_width(widths: &Vec<u32>) -> (total: u32)
    requires
        widths_sum(widths@) <= u32::MAX,
    ensures
        total == widths_sum(widths@),
{
    let mut total: u32 = 0;
    let mut i: usize = 0;
    assert(widths@.take(0) =~= Seq::<u32>::empty());
    while i < widths.len()
        invariant
            i <= widths@.len(),
            total == widths_sum(widths@.take(i as int)),
            widths_sum(widths@) <= u32::MAX,
        decreases widths@.len() - i,
    {
        proof {
            lemma_widths_sum_grows(widths@, i + 1);
            assert(widths@.take(i + 1).drop_last() =~= widths@.take(i as int));
        }
        total = total + widths[i];
        i += 1;
    }
    assert(widths@.take(i as int) =~= widths@);
    total
}

/// The width that is left for the spacer in a bar of `bar_width`, where the
/// gauges take `total` together. Gauges that fill the bar leave none.
pub fn spacer_width(bar_width: u32, total: u32) -> (spacer: u32)
    ensures
        spacer == spacer_of(bar_width, total),
{
    if total < bar_width {
        bar_width - total
    } else {
        0
    }
}

/// The row of the bar for gauges that were bound on the given sides, and the
/// place in the row where the spacer goes.
pub fn arrange(sides: &Vec<Orientation>) -> (placed: (Vec<Slot>, usize))
    requires
        2 * sides@.len() <= usize::MAX,
    ensures
        placed.0@ == row_of(sides@),
        placed.1 == left_slots(sides@).len(),
{
    let mut row: Vec<Slot> = Vec::new();
    let mut left_i: usize = 0;
    let mut k: usize = 0;
    assert(sides@.take(0) =~= Seq::<Orientation>::empty());
    assert(row@ =~= row_of(sides@.take(0)));
    while k < sides.len()
        invariant
            2 * sides@.len() <= usize::MAX,
            k <= sides@.len(),
            row@ == row_of(sides@.take(k as int)),
            left_i == left_slots(sides@.take(k as int)).len(),
            row@.len() == 2 * k,
            left_i <= row@.len(),
        decreases sides@.len() - k,
    {
        proof {
            let upto = sides@.take(k + 1);
            assert(upto.drop_last() =~= sides@.take(k as int));
            assert(upto.last() == sides@[k as int]);
        }
        let ghost before = sides@.take(k as int);
        if sides[k] == Orientation::Left {
            row.insert(left_i, Slot::Gauge(k));
            row.insert(left_i + 1, Slot::Separator);
            assert(row@ =~= left_slots(before) + seq![Slot::Gauge(k), Slot::Separator]
                + right_slots(before));
            left_i += 2;
        } else {
            row.insert(left_i, Slot::Separator);
            row.insert(left_i + 1, Slot::Gauge(k));
            assert(row@ =~= left_slots(before) + (seq![Slot::Separator, Slot::Gauge(k)]
                + right_slots(before)));
        }
        k += 1;
    }
    assert(sides@.take(k as int) =~= sides@);
    (row, left_i)
}

} // verus!
