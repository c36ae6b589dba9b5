//! What holds of every kernel: the bounds of a weight, the hard edge, and the
//! growth of the total weight with the shape.

use vstd::prelude::*;
use vstd::arithmetic::div_mod::lemma_div_is_ordered;
use crate::fixed::{is_floor_sqrt, lemma_floor_sqrt_below, lemma_floor_sqrt_is, ONE};
use crate::kernel::raster::image_extent;
use crate::kernel::{
    ceil_pixels, center_distance, offset2, radicand, ramp, Kernel, KernelDescriptor,
};

verus! {

/// The image of a kernel is twice as wide and as high as its bounding radius
/// and the width of its edge, each rounded up to whole pixels, together: for
/// a disc, `2 * (ceil(radius) + ceil(antialias_width))`. Only a kernel of
/// which both are nought has a pixel nonetheless.
pub proof fn lemma_side(kernel: Kernel, descriptor: KernelDescriptor)
    requires
        kernel.shows(descriptor),
        descriptor.primary_radius() > 0 || descriptor.edge_width() > 0,
    ensures
        image_extent(kernel.image).0 == 2 * (ceil_pixels(descriptor.primary_radius())
            + ceil_pixels(descriptor.edge_width())),
        image_extent(kernel.image).1 == image_extent(kernel.image).0,
{
}

/// A weight is never less than nought and never more than one.
pub proof fn lemma_weight_in_unit(descriptor: KernelDescriptor, distance: int)
    ensures
        0 <= descriptor.weight(distance) <= ONE,
{
}

/// The disc of the given radius with an edge of no width.
pub open spec fn hard_disc(radius: u32) -> KernelDescriptor {
    KernelDescriptor::Circle { radius, antialias_width: 0 }
}

/// Full weight if `on`, else none.
pub open spec fn all_or_nothing(on: bool) -> int {
    if on {
        ONE as int
    } else {
        0
    }
}

/// A disc with an edge of no width has a hard edge: a cell nearer to the
/// centre than the radius has full weight, any other cell has none.
pub proof fn lemma_hard_edge(radius: u32, distance: int)
    ensures
        hard_disc(radius).weight(distance) == all_or_nothing(distance < radius),
{
}

/// In the image of a disc with an edge of no width every pixel is either fully
/// on or fully off: on if its true distance from the centre is less than the
/// radius, off if not.
///
/// The pixel `(x, y)` lies `sqrt(q) / 2` pixels from the centre, where `q` is
/// its [`radicand`]. As a fixed-point number that is the square root of
/// `q * 2^30`, so the distance is less than the radius exactly if `q * 2^30`
/// is less than the square of the radius.
pub proof fn lemma_hard_edge_pixels(radius: u32, x: int, y: int)
    ensures
        hard_disc(radius).weight_at(x, y) == all_or_nothing(
            radicand(x, y, hard_disc(radius).side()) * 0x4000_0000 < radius * radius,
        ),
{
    let disc = hard_disc(radius);
    let q = radicand(x, y, disc.side());
    lemma_floor_sqrt_below(q * 0x4000_0000, radius as nat);
    lemma_hard_edge(radius, center_distance(x, y, disc.side()) as int);
}

/// Moving an edge outwards never lowers the weight if the edge falls, and
/// never raises it if the edge rises.
pub proof fn lemma_ramp_monotone(inner: int, outer: int, width: int, rising: bool, distance: int)
    requires
        inner <= outer,
        0 <= width,
    ensures
        !rising ==> ramp(inner, width, rising, distance) <= ramp(outer, width, rising, distance),
        rising ==> ramp(outer, width, rising, distance) <= ramp(inner, width, rising, distance),
{
    if width > 0 {
        let span = 2 * width;
        let run_inner = 2 * distance - (2 * inner - width);
        let run_outer = 2 * distance - (2 * outer - width);
        if rising {
            lemma_div_is_ordered((ONE - 0) * run_outer, (ONE - 0) * run_inner, span);
        } else {
            lemma_div_is_ordered((0 - ONE) * run_inner, (0 - ONE) * run_outer, span);
        }
    }
}

impl KernelDescriptor {
    /// `self` has the shape of `other` with the same edge width, and its band
    /// reaches at least as far in either direction: a disc of no smaller
    /// radius, or a ring with no smaller outer and no larger inner radius.
    pub open spec fn encloses(self, other: KernelDescriptor) -> bool {
        match (self, other) {
            (
                KernelDescriptor::Circle { radius: r2, antialias_width: w2 },
                KernelDescriptor::Circle { radius: r1, antialias_width: w1 },
            ) => w1 == w2 && r1 <= r2,
            (
                KernelDescriptor::Ring { outer_radius: o2, inner_radius: i2, antialias_width: w2 },
                KernelDescriptor::Ring { outer_radius: o1, inner_radius: i1, antialias_width: w1 },
            ) => w1 == w2 && o1 <= o2 && i2 <= i1,
            _ => false,
        }
    }
}

/// A kernel that encloses another gives every distance at least the weight
/// that the other gives it.
pub proof fn lemma_weight_monotone(small: KernelDescriptor, big: KernelDescriptor, distance: int)
    requires
        big.encloses(small),
    ensures
        small.weight(distance) <= big.weight(distance),
{
    match (big, small) {
        (
            KernelDescriptor::Circle { radius: r2, antialias_width: w },
            KernelDescriptor::Circle { radius: r1, .. },
        ) => {
            lemma_ramp_monotone(r1 as int, r2 as int, w as int, false, distance);
        },
        (
            KernelDescriptor::Ring { outer_radius: o2, inner_radius: i2, antialias_width: w },
            KernelDescriptor::Ring { outer_radius: o1, inner_radius: i1, .. },
        ) => {
            lemma_ramp_monotone(o1 as int, o2 as int, w as int, false, distance);
            lemma_ramp_monotone(i2 as int, i1 as int, w as int, true, distance);
        },
        _ => {},
    }
}

/// How far the image of `small` lies from the left and upper border of the
/// image of `big` when the two centres coincide.
pub open spec fn inset(small: KernelDescriptor, big: KernelDescriptor) -> int {
    big.half_side() - small.half_side()
}

/// A pixel of the smaller kernel weighs no more than the pixel of the larger
/// kernel at the same place relative to the centre.
proof fn lemma_pixel_embeds(small: KernelDescriptor, big: KernelDescriptor, x: int, y: int)
    requires
        big.encloses(small),
        small.half_side() > 0,
    ensures
        inset(small, big) >= 0,
        small.weight_at(x, y) <= big.weight_at(x + inset(small, big), y + inset(small, big)),
{
    let d = inset(small, big);
    assert(offset2(x + d, big.side()) == offset2(x, small.side()));
    assert(offset2(y + d, big.side()) == offset2(y, small.side()));
    assert(radicand(x + d, y + d, big.side()) == radicand(x, y, small.side()));
    lemma_weight_monotone(small, big, center_distance(x, y, small.side()) as int);
}

/// The weight of part of a row is not negative.
proof fn lemma_row_not_negative(descriptor: KernelDescriptor, y: int, columns: nat)
    ensures
        0 <= descriptor.row_weight(y, columns),
    decreases columns,
{
    if columns > 0 {
        lemma_row_not_negative(descriptor, y, (columns - 1) as nat);
    }
}

/// The weight of a row grows with the number of its pixels.
proof fn lemma_row_grows(descriptor: KernelDescriptor, y: int, fewer: nat, columns: nat)
    requires
        fewer <= columns,
    ensures
        descriptor.row_weight(y, fewer) <= descriptor.row_weight(y, columns),
    decreases columns,
{
    if fewer < columns {
        lemma_row_grows(descriptor, y, fewer, (columns - 1) as nat);
    }
}

/// The first pixels of a row of the smaller kernel weigh no more than the
/// pixels of the larger kernel up to the same place.
proof fn lemma_row_embeds(small: KernelDescriptor, big: KernelDescriptor, y: int, columns: nat)
    requires
        big.encloses(small),
        small.half_side() > 0,
    ensures
        inset(small, big) >= 0,
        small.row_weight(y, columns) <= big.row_weight(
            y + inset(small, big),
            (inset(small, big) + columns) as nat,
        ),
    decreases columns,
{
    let d = inset(small, big);
    lemma_pixel_embeds(small, big, 0, y);
    if columns == 0 {
        lemma_row_not_negative(big, y + d, d as nat);
    } else {
        lemma_row_embeds(small, big, y, (columns - 1) as nat);
        lemma_pixel_embeds(small, big, columns - 1, y);
    }
}

/// The weight of some rows is not negative.
proof fn lemma_rows_not_negative(descriptor: KernelDescriptor, rows: nat)
    ensures
        0 <= descriptor.rows_weight(rows),
    decreases rows,
{
    if rows > 0 {
        lemma_rows_not_negative(descriptor, (rows - 1) as nat);
        lemma_row_not_negative(descriptor, rows - 1, descriptor.side() as nat);
    }
}

/// The weight of the rows grows with their number.
proof fn lemma_rows_grow(descriptor: KernelDescriptor, fewer: nat, rows: nat)
    requires
        fewer <= rows,
    ensures
        descriptor.rows_weight(fewer) <= descriptor.rows_weight(rows),
    decreases rows,
{
    if fewer < rows {
        lemma_rows_grow(descriptor, fewer, (rows - 1) as nat);
        lemma_row_not_negative(descriptor, rows - 1, descriptor.side() as nat);
    }
}

/// The first rows of the smaller kernel weigh no more than the rows of the
/// larger kernel down to the same place.
proof fn lemma_rows_embed(small: KernelDescriptor, big: KernelDescriptor, rows: nat)
    requires
        big.encloses(small),
        small.half_side() > 0,
    ensures
        inset(small, big) >= 0,
        small.rows_weight(rows) <= big.rows_weight((inset(small, big) + rows) as nat),
    decreases rows,
{
    let d = inset(small, big);
    lemma_pixel_embeds(small, big, 0, 0);
    if rows == 0 {
        lemma_rows_not_negative(big, d as nat);
    } else {
        lemma_rows_embed(small, big, (rows - 1) as nat);
        lemma_row_embeds(small, big, rows - 1, small.side() as nat);
        lemma_row_grows(big, rows - 1 + d, (d + small.side()) as nat, big.side() as nat);
    }
}

/// The total weight of a kernel grows with its band: a kernel weighs no more
/// than any kernel of the same shape and edge width that encloses it.
pub proof fn lemma_area_monotone(small: KernelDescriptor, big: KernelDescriptor)
    requires
        big.encloses(small),
    ensures
        small.area() <= big.area(),
{
    if small.half_side() > 0 {
        lemma_rows_embed(small, big, small.side() as nat);
        lemma_rows_grow(big, (inset(small, big) + small.side()) as nat, big.side() as nat);
    } else {
        // A single pixel at the centre of a kernel without any extent: it
        // lies on the edge and weighs nothing.
        assert(is_floor_sqrt(0, 0)) by (nonlinear_arith);
        lemma_floor_sqrt_is(0, 0);
        assert(radicand(0, 0, 1) == 0);
        assert(small.weight_at(0, 0) == 0);
        assert(small.row_weight(0, 1) == small.row_weight(0, 0) + small.weight_at(0, 0));
        assert(small.rows_weight(1) == small.rows_weight(0) + small.row_weight(0, 1));
        lemma_rows_not_negative(big, big.side() as nat);
    }
}

} // verus!
