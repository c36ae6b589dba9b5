//! Radial weight kernels: anti-aliased discs and rings with their total weight.
//!
//! A kernel is a square image whose pixels weigh a cell's neighbours by their
//! distance from the cell. Radii, widths, distances and weights are
//! fixed-point numbers with sixteen fractional bits: [`ONE`] is one pixel, or
//! full weight.

pub mod laws;
pub mod raster;
pub mod upload;
pub mod utils;

use vstd::prelude::*;
use vstd::arithmetic::div_mod::lemma_fundamental_div_mod_converse;
use crate::fixed::{floor_sqrt, isqrt, ONE};
use crate::kernel::raster::{image_extent, new_rgba8, put_pixel, rgba8_samples};
use crate::kernel::utils::{clamp_unit, line_through, linear_from_points};

verus! {

/// The shape of a kernel.
#[derive(Clone, Copy, Debug)]
pub enum KernelDescriptor {
    /// A disc: full weight up to `radius`, fading out over `antialias_width`.
    Circle { radius: u32, antialias_width: u32 },
    /// A band: full weight between the two radii, fading in and out over
    /// `antialias_width` at either edge.
    Ring { outer_radius: u32, inner_radius: u32, antialias_width: u32 },
}

/// The fixed-point number `v` rounded up to whole pixels.
pub open spec fn ceil_pixels(v: int) -> int {
    (v + 65535) / 65536
}

/// The weight at `distance` from the centre of an edge `width` wide around the
/// radius `centre`: a straight ramp between nought and one, rounded down. It
/// rises outwards if `rising`, else it falls. An edge of no width is a step at
/// `centre`, and a distance on it counts as beyond it.
///
/// The end points of the ramp lie half a width to either side of `centre`. To
/// keep them whole, the line is drawn at twice the scale.
pub open spec fn ramp(centre: int, width: int, rising: bool, distance: int) -> int {
    let near: int = if rising { 0 } else { ONE as int };
    let far: int = if rising { ONE as int } else { 0 };
    clamp_unit(
        line_through((2 * centre - width, near), (2 * centre + width, far), 2 * distance),
    )
}

/// Twice the signed offset, in pixels, of the pixel in column (or row) `x` from
/// the centre of an image `size` pixels wide.
pub open spec fn offset2(x: int, size: int) -> int {
    2 * x + 1 - size
}

/// Four times the square of the distance, in pixels, of the pixel `(x, y)` from
/// the centre of a square image of side `size`.
pub open spec fn radicand(x: int, y: int, size: int) -> nat {
    (offset2(x, size) * offset2(x, size) + offset2(y, size) * offset2(y, size)) as nat
}

/// The fixed-point distance of the pixel `(x, y)` from the centre
/// `((size - 1) / 2, (size - 1) / 2)` of a square image, rounded down.
pub open spec fn center_distance(x: int, y: int, size: int) -> nat {
    floor_sqrt(radicand(x, y, size) * 0x4000_0000)
}

/// The eight-bit intensity of a weight: `weight * 255.999`, rounded down. A
/// weight above one has the highest intensity.
pub open spec fn intensity(weight: int) -> int {
    if weight <= ONE {
        (weight * 255999) / 65536000
    } else {
        255
    }
}

impl KernelDescriptor {
    /// The radius that bounds the kernel.
    pub open spec fn primary_radius(self) -> int {
        match self {
            KernelDescriptor::Circle { radius, .. } => radius as int,
            KernelDescriptor::Ring { outer_radius, .. } => outer_radius as int,
        }
    }

    /// The width of the kernel's edges.
    pub open spec fn edge_width(self) -> int {
        match self {
            KernelDescriptor::Circle { antialias_width, .. } => antialias_width as int,
            KernelDescriptor::Ring { antialias_width, .. } => antialias_width as int,
        }
    }

    /// The bounding radius and the edge width, each rounded up to whole pixels,
    /// together.
    pub open spec fn half_side(self) -> int {
        ceil_pixels(self.primary_radius()) + ceil_pixels(self.edge_width())
    }

    /// The side of the kernel's image in pixels: twice [`Self::half_side`], and
    /// never less than one pixel.
    pub open spec fn side(self) -> int {
        if self.half_side() == 0 {
            1
        } else {
            2 * self.half_side()
        }
    }

    /// The weight of a cell at `distance` from the centre.
    pub open spec fn weight(self, distance: int) -> int {
        match self {
            KernelDescriptor::Circle { radius, antialias_width } => ramp(
                radius as int,
                antialias_width as int,
                false,
                distance,
            ),
            KernelDescriptor::Ring { outer_radius, inner_radius, antialias_width } => {
                let inner = ramp(inner_radius as int, antialias_width as int, true, distance);
                let outer = ramp(outer_radius as int, antialias_width as int, false, distance);
                if inner <= outer {
                    inner
                } else {
                    outer
                }
            },
        }
    }

    /// The weight of the pixel `(x, y)` of the kernel's image.
    pub open spec fn weight_at(self, x: int, y: int) -> int {
        self.weight(center_distance(x, y, self.side()) as int)
    }

    /// The side of the kernel's image in pixels.
    pub fn kernel_size(&self) -> (size: u32)
        ensures
            size == self.side(),
            1 <= size <= 262144,
    {
        let (primary, width): (u32, u32) = match *self {
            KernelDescriptor::Circle { radius, antialias_width } => (radius, antialias_width),
            KernelDescriptor::Ring { outer_radius, antialias_width, .. } => (
                outer_radius,
                antialias_width,
            ),
        };
        let half: u64 = (primary as u64 + 65535) / 65536 + (width as u64 + 65535) / 65536;
        if half == 0 {
            1
        } else {
            (2 * half) as u32
        }
    }

    /// The weight of a cell at `distance` from the centre: between nought and
    /// one.
    pub fn activation(&self, distance: u64) -> (value: u32)
        ensures
            value == self.weight(distance as int),
            value <= ONE,
    {
        match *self {
            KernelDescriptor::Circle { radius, antialias_width } => edge_weight(
                radius,
                antialias_width,
                false,
                distance,
            ),
            KernelDescriptor::Ring { outer_radius, inner_radius, antialias_width } => {
                let inner = edge_weight(inner_radius, antialias_width, true, distance);
                let outer = edge_weight(outer_radius, antialias_width, false, distance);
                if inner <= outer {
                    inner
                } else {
                    outer
                }
            },
        }
    }
}

/// Beyond its far end a ramp has reached its last value.
proof fn lemma_ramp_far(centre: int, width: int, rising: bool, distance: int)
    requires
        centre >= 0,
        width >= 0,
        2 * distance >= 2 * centre + width,
    ensures
        ramp(centre, width, rising, distance) == if rising { ONE as int } else { 0int },
{
    if width > 0 {
        let span = 2 * width;
        let run = 2 * distance - (2 * centre - width);
        if rising {
            assert((ONE * run) / span >= ONE) by (nonlinear_arith)
                requires
                    run >= span,
                    span > 0,
            ;
        } else {
            assert((-ONE * run) / span <= -ONE) by (nonlinear_arith)
                requires
                    run >= span,
                    span > 0,
            ;
        }
    }
}

/// Computes the weight that an edge gives at `distance` from the centre.
fn edge_weight(centre: u32, width: u32, rising: bool, distance: u64) -> (value: u32)
    ensures
        value == ramp(centre as int, width as int, rising, distance as int),
        value <= ONE,
{
    if distance >= 0x4_0000_0000 {
        proof {
            lemma_ramp_far(centre as int, width as int, rising, distance as int);
        }
        if rising {
            ONE
        } else {
            0
        }
    } else {
        let lo: i64 = 2 * (centre as i64) - width as i64;
        let hi: i64 = 2 * (centre as i64) + width as i64;
        let near: i32 = if rising { 0 } else { ONE as i32 };
        let far: i32 = if rising { ONE as i32 } else { 0 };
        let v: i128 = linear_from_points((lo, near), (hi, far), (2 * distance) as i64);
        if v < 0 {
            0
        } else if v > ONE as i128 {
            ONE
        } else {
            v as u32
        }
    }
}

/// Computes the fixed-point distance of the pixel `(x, y)` from the centre of a
/// square image of side `size`, rounded down.
pub fn distance_from_center(x: u32, y: u32, size: u32) -> (distance: u64)
    ensures
        distance == center_distance(x as int, y as int, size as int),
{
    let across: u64 = twice_offset(x, size);
    let down: u64 = twice_offset(y, size);
    assert(across * across + down * down <= 0x80_0000_0000_0000_0000
        && across * across + down * down
        == offset2(x as int, size as int) * offset2(x as int, size as int)
        + offset2(y as int, size as int) * offset2(y as int, size as int)) by (nonlinear_arith)
        requires
            across <= 0x2_0000_0000,
            down <= 0x2_0000_0000,
            across == offset2(x as int, size as int) || across == -offset2(x as int, size as int),
            down == offset2(y as int, size as int) || down == -offset2(y as int, size as int),
    ;
    let q: u128 = across as u128 * across as u128 + down as u128 * down as u128;
    let root: u64 = isqrt(q * 0x4000_0000);
    root
}

/// The size of twice the offset of column `x` from the centre.
fn twice_offset(x: u32, size: u32) -> (offset: u64)
    ensures
        offset == offset2(x as int, size as int) || offset == -offset2(x as int, size as int),
        offset <= 0x2_0000_0000,
{
    let a: u64 = 2 * (x as u64) + 1;
    if a >= size as u64 {
        a - size as u64
    } else {
        size as u64 - a
    }
}

/// Turns a weight into an eight-bit intensity: `weight * 255.999`, rounded
/// down.
pub fn quantize(weight: u32) -> (level: u8)
    ensures
        level == intensity(weight as int),
{
    if weight <= ONE {
        ((weight as u64 * 255999) / 65536000) as u8
    } else {
        255
    }
}

/// A kernel: its image and its total weight.
pub struct Kernel {
    /// A square image of eight-bit RGBA pixels. Red, green and blue all hold
    /// the pixel's intensity; alpha is full.
    pub image: image::DynamicImage,
    /// The sum of the weights of all pixels, as a fixed-point number. It adds
    /// up the weights themselves, not the intensities that the image holds.
    pub area: u64,
}

impl KernelDescriptor {
    /// The sample `i` of the kernel's image.
    pub open spec fn sample(self, i: int) -> u8 {
        if i % 4 == 3 {
            255u8
        } else {
            intensity(self.weight_at((i / 4) % self.side(), (i / 4) / self.side())) as u8
        }
    }

    /// The samples of the kernel's image.
    pub open spec fn samples(self) -> Seq<u8> {
        Seq::new((4 * self.side() * self.side()) as nat, |i: int| self.sample(i))
    }

    /// The sum of the weights of the first `columns` pixels of row `y`.
    pub open spec fn row_weight(self, y: int, columns: nat) -> int
        decreases columns,
    {
        if columns == 0 {
            0
        } else {
            self.row_weight(y, (columns - 1) as nat) + self.weight_at(columns - 1, y)
        }
    }

    /// The sum of the weights of all pixels of the first `rows` rows.
    pub open spec fn rows_weight(self, rows: nat) -> int
        decreases rows,
    {
        if rows == 0 {
            0
        } else {
            self.rows_weight((rows - 1) as nat) + self.row_weight(
                rows - 1,
                self.side() as nat,
            )
        }
    }

    /// The sum of the weights of all pixels.
    pub open spec fn area(self) -> int {
        self.rows_weight(self.side() as nat)
    }
}

/// Where the samples of the pixel `(x, y)` lie in an image of side `n`.
proof fn lemma_pixel_index(n: int, x: int, y: int, c: int)
    requires
        0 <= x < n,
        0 <= y < n,
        0 <= c < 4,
    ensures
        0 <= 4 * (y * n + x) + c < 4 * n * n,
        (4 * (y * n + x) + c) % 4 == c,
        ((4 * (y * n + x) + c) / 4) % n == x,
        ((4 * (y * n + x) + c) / 4) / n == y,
{
    let p = y * n + x;
    assert(0 <= y * n && y * n + n <= n * n) by (nonlinear_arith)
        requires
            0 <= y < n,
    ;
    assert(4 * n * n == 4 * (n * n)) by (nonlinear_arith);
    lemma_fundamental_div_mod_converse(4 * p + c, 4, p, c);
    assert(n * y == y * n) by (nonlinear_arith);
    lemma_fundamental_div_mod_converse(p, n, y, x);
}

impl Kernel {
    /// This kernel is the one that `descriptor` describes: its image is
    /// square, of side [`KernelDescriptor::side`], and holds eight-bit RGBA
    /// pixels with the samples [`KernelDescriptor::samples`]; its area is
    /// [`KernelDescriptor::area`].
    pub open spec fn shows(self, descriptor: KernelDescriptor) -> bool {
        &&& image_extent(self.image) == (descriptor.side() as nat, descriptor.side() as nat)
        &&& rgba8_samples(self.image) == Some(descriptor.samples())
        &&& self.area == descriptor.area()
    }

    /// Draws the kernel that `kernel_descriptor` describes and adds up its
    /// weight.
    ///
    /// The pixel `(x, y)` holds the intensity of its weight in red, green and
    /// blue, and full alpha. The area adds up the weights before they are
    /// turned into intensities. The image must not be larger than a vector
    /// can be.
    pub fn from_descriptor(kernel_descriptor: KernelDescriptor) -> (kernel: Kernel)
        requires
            4 * kernel_descriptor.side() * kernel_descriptor.side() <= isize::MAX,
        ensures
            kernel.shows(kernel_descriptor),
    {
        let kernel_size: u32 = kernel_descriptor.kernel_size();
        let ghost n: int = kernel_size as int;
        assert(4 * kernel_size * kernel_size == 4 * n * n) by (nonlinear_arith)
            requires
                n == kernel_size,
        ;
        let mut image_buffer = new_rgba8(kernel_size, kernel_size);
        let mut area: u64 = 0;
        let mut y: u32 = 0;
        while y < kernel_size
            invariant
                n == kernel_size == kernel_descriptor.side(),
                1 <= n <= 262144,
                y <= kernel_size,
                image_extent(image_buffer) == (n as nat, n as nat),
                rgba8_samples(image_buffer) is Some,
                rgba8_samples(image_buffer)->0.len() == 4 * n * n,
                forall|i: int|
                    0 <= i < 4 * (y * n) ==> #[trigger] rgba8_samples(image_buffer)->0[i]
                        == kernel_descriptor.sample(i),
                area == kernel_descriptor.rows_weight(y as nat),
                area <= (y * n) * 65536,
            decreases kernel_size - y,
        {
            let mut x: u32 = 0;
            while x < kernel_size
                invariant
                    n == kernel_size == kernel_descriptor.side(),
                    1 <= n <= 262144,
                    y < kernel_size,
                    x <= kernel_size,
                    image_extent(image_buffer) == (n as nat, n as nat),
                    rgba8_samples(image_buffer) is Some,
                    rgba8_samples(image_buffer)->0.len() == 4 * n * n,
                    forall|i: int|
                        0 <= i < 4 * (y * n + x) ==> #[trigger] rgba8_samples(image_buffer)->0[i]
                            == kernel_descriptor.sample(i),
                    area == kernel_descriptor.rows_weight(y as nat) + kernel_descriptor.row_weight(
                        y as int,
                        x as nat,
                    ),
                    area <= (y * n + x) * 65536,
                decreases kernel_size - x,
            {
                let distance_from_center = distance_from_center(x, y, kernel_size);
                let value: u32 = kernel_descriptor.activation(distance_from_center);
                let ivalue: u8 = quantize(value);
                proof {
                    assert(0 <= y * n && y * n + n <= n * n) by (nonlinear_arith)
                        requires
                            0 <= y < n,
                    ;
                    assert(n * n <= 262144 * 262144) by (nonlinear_arith)
                        requires
                            1 <= n <= 262144,
                    ;
                    assert(value == kernel_descriptor.weight_at(x as int, y as int));
                }
                area += value as u64;
                let ghost before = rgba8_samples(image_buffer)->0;
                put_pixel(&mut image_buffer, x, y, ivalue, ivalue, ivalue, 255);
                proof {
                    let after = rgba8_samples(image_buffer)->0;
                    let at = 4 * (y * n + x);
                    lemma_pixel_index(n, x as int, y as int, 0);
                    lemma_pixel_index(n, x as int, y as int, 1);
                    lemma_pixel_index(n, x as int, y as int, 2);
                    lemma_pixel_index(n, x as int, y as int, 3);
                    assert forall|i: int| 0 <= i < 4 * (y * n + (x + 1)) implies #[trigger] after[i]
                        == kernel_descriptor.sample(i) by {
                        if i < at {
                            assert(after[i] == before[i]);
                        }
                    }
                }
                x += 1;
            }
            proof {
                assert(y * n + n == (y + 1) * n) by (nonlinear_arith);
            }
            y += 1;
        }
        proof {
            assert(y * n == n * n) by (nonlinear_arith)
                requires
                    y == n,
            ;
            assert(4 * n * n == 4 * (n * n)) by (nonlinear_arith);
            assert(rgba8_samples(image_buffer)->0 =~= kernel_descriptor.samples());
        }
        Kernel { image: image_buffer, area }
    }
}

/// The two kernels of the neighbourhood: the ring of the outer neighbours and
/// the disc of the inner ones.
pub struct GOLKernels {
    pub outer_kernel: Kernel,
    pub inner_kernel: Kernel,
}

impl GOLKernels {
    /// Draws the two kernels, each by itself.
    pub fn build(outer: KernelDescriptor, inner: KernelDescriptor) -> (kernels: GOLKernels)
        requires
            4 * outer.side() * outer.side() <= isize::MAX,
            4 * inner.side() * inner.side() <= isize::MAX,
        ensures
            kernels.outer_kernel.shows(outer),
            kernels.inner_kernel.shows(inner),
    {
        GOLKernels {
            outer_kernel: Kernel::from_descriptor(outer),
            inner_kernel: Kernel::from_descriptor(inner),
        }
    }
}

} // verus!
