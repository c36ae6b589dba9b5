//! Kernels on their way to the GPU: what to write into which texture.

use vstd::prelude::*;
use vstd::arithmetic::div_mod::lemma_fundamental_div_mod_converse;
use crate::fixed::ONE;
use crate::kernel::raster::{height, image_extent, rgba8_samples, sample_bytes, width};
use crate::kernel::{GOLKernels, Kernel, KernelDescriptor};

verus! {

/// The extent of a texture.
#[derive(Clone, Copy, Debug, PartialEq, Eq, Structural)]
pub struct Extent3d {
    pub width: u32,
    pub height: u32,
    pub depth_or_array_layers: u32,
}

/// What to write into a two-dimensional texture with four eight-bit channels:
/// the bytes and how they are laid out.
#[derive(Debug, PartialEq, Eq)]
pub struct TextureUpload {
    /// The extent of the texture; one layer deep.
    pub size: Extent3d,
    /// The number of bytes from the start of one row to the start of the next.
    pub bytes_per_row: u32,
    /// The number of rows.
    pub rows_per_image: u32,
    /// The rows from the top, each from the left, without gaps.
    pub data: Vec<u8>,
}

impl Kernel {
    /// Describes the texture that holds this kernel: as large as the image,
    /// rows of four bytes to a pixel, and the samples of the image as
    /// contents.
    pub fn texture_upload(&self) -> (upload: TextureUpload)
        requires
            4 * image_extent(self.image).0 <= u32::MAX,
        ensures
            upload.size.width == image_extent(self.image).0,
            upload.size.height == image_extent(self.image).1,
            upload.size.depth_or_array_layers == 1,
            upload.bytes_per_row == 4 * upload.size.width,
            upload.rows_per_image == upload.size.height,
            rgba8_samples(self.image) matches Some(samples) ==> upload.data@ == samples,
            rgba8_samples(self.image) matches Some(samples) && samples.len() == 4 * image_extent(
                self.image,
            ).0 * image_extent(self.image).1 ==> upload.wf(),
    {
        let w: u32 = width(&self.image);
        let h: u32 = height(&self.image);
        assert((4 * w) * h == 4 * w * h) by (nonlinear_arith);
        TextureUpload {
            size: Extent3d { width: w, height: h, depth_or_array_layers: 1 },
            bytes_per_row: 4 * w,
            rows_per_image: h,
            data: sample_bytes(&self.image),
        }
    }
}

/// The least multiple of `alignment` that is not less than `n`.
pub open spec fn round_up(n: int, alignment: int) -> int {
    if n % alignment == 0 {
        n
    } else {
        n + alignment - n % alignment
    }
}

/// Rows of `row` bytes each, taken from `data`, with noughts after each row to
/// make it `padded_row` bytes long.
pub open spec fn padded(data: Seq<u8>, row: int, rows: int, padded_row: int) -> Seq<u8> {
    Seq::new(
        (padded_row * rows) as nat,
        |i: int|
            if i % padded_row < row {
                data[(i / padded_row) * row + i % padded_row]
            } else {
                0u8
            },
    )
}

impl TextureUpload {
    /// The data holds as many rows as the upload says, each as long as it
    /// says.
    pub open spec fn wf(self) -> bool {
        self.data@.len() == self.bytes_per_row * self.rows_per_image
    }

    /// Lays the rows out for a backend that wants every row to begin at a
    /// multiple of `alignment` bytes: each row is followed by as many noughts
    /// as it takes. Rows that are aligned already stay as they are. The
    /// padded rows must not be longer than a `u32` can say, nor all together
    /// than a vector can be.
    pub fn aligned(&self, alignment: u32) -> (upload: TextureUpload)
        requires
            self.wf(),
            alignment > 0,
            round_up(self.bytes_per_row as int, alignment as int) <= u32::MAX,
            round_up(self.bytes_per_row as int, alignment as int) * self.rows_per_image
                <= usize::MAX,
        ensures
            upload.wf(),
            upload.size == self.size,
            upload.rows_per_image == self.rows_per_image,
            upload.bytes_per_row == round_up(self.bytes_per_row as int, alignment as int),
            upload.data@ == padded(
                self.data@,
                self.bytes_per_row as int,
                self.rows_per_image as int,
                upload.bytes_per_row as int,
            ),
    {
        let row: u32 = self.bytes_per_row;
        let rows: u32 = self.rows_per_image;
        let over: u32 = row % alignment;
        let padded_row: u32 = if over == 0 {
            row
        } else {
            row + (alignment - over)
        };
        let ghost want = padded(self.data@, row as int, rows as int, padded_row as int);
        let mut data: Vec<u8> = Vec::new();
        let mut r: u32 = 0;
        while r < rows
            invariant
                r <= rows,
                row <= padded_row,
                self.data@.len() == row * rows,
                padded_row * rows <= usize::MAX,
                want == padded(self.data@, row as int, rows as int, padded_row as int),
                data@.len() == r * padded_row,
                forall|i: int| 0 <= i < data@.len() ==> data@[i] == want[i],
            decreases rows - r,
        {
            let mut c: u32 = 0;
            while c < padded_row
                invariant
                    r < rows,
                    c <= padded_row,
                    row <= padded_row,
                    self.data@.len() == row * rows,
                    padded_row * rows <= usize::MAX,
                    want == padded(self.data@, row as int, rows as int, padded_row as int),
                    data@.len() == r * padded_row + c,
                    forall|i: int| 0 <= i < data@.len() ==> data@[i] == want[i],
                decreases padded_row - c,
            {
                proof {
                    assert(r * padded_row + padded_row <= padded_row * rows
                        && padded_row * r == r * padded_row) by (nonlinear_arith)
                        requires
                            r < rows,
                            0 <= padded_row,
                    ;
                    assert(r * row + row <= row * rows && 0 <= r * row) by (nonlinear_arith)
                        requires
                            r < rows,
                            0 <= row,
                    ;
                    lemma_fundamental_div_mod_converse(
                        r * padded_row + c,
                        padded_row as int,
                        r as int,
                        c as int,
                    );
                    assert(row * rows == self.data.len());
                }
                let byte: u8 = if c < row {
                    self.data[r as usize * row as usize + c as usize]
                } else {
                    0
                };
                data.push(byte);
                c += 1;
            }
            proof {
                assert(r * padded_row + padded_row == (r + 1) * padded_row) by (nonlinear_arith);
            }
            r += 1;
        }
        proof {
            assert(rows * padded_row == padded_row * rows) by (nonlinear_arith);
            assert(data@ =~= want);
        }
        TextureUpload { size: self.size, bytes_per_row: padded_row, rows_per_image: rows, data }
    }
}

/// The total weights of the two kernels, as fixed-point numbers.
#[derive(Clone, Copy, Debug, PartialEq, Eq, Structural)]
pub struct GOLKernelData {
    pub outer_kernel_area: u64,
    pub inner_kernel_area: u64,
}

/// The ring of the outer neighbours: from 7 to 21 pixels, with edges one pixel
/// wide.
pub open spec fn outer_ring() -> KernelDescriptor {
    KernelDescriptor::Ring {
        outer_radius: 1376256,
        inner_radius: 458752,
        antialias_width: 65536,
    }
}

/// The disc of the inner neighbours: 7 pixels, with an edge one pixel wide.
pub open spec fn inner_disc() -> KernelDescriptor {
    KernelDescriptor::Circle { radius: 458752, antialias_width: 65536 }
}

/// The kernels of the simulation, drawn and ready to be written into their
/// textures.
pub struct KernelSetup {
    pub kernels: GOLKernels,
    pub kernel_data: GOLKernelData,
    pub outer_texture: TextureUpload,
    pub inner_texture: TextureUpload,
}

impl KernelSetup {
    /// The setup holds the two kernels of the simulation, their total weights,
    /// and for each kernel the texture with its own image.
    pub open spec fn wf(self) -> bool {
        &&& self.kernels.outer_kernel.shows(outer_ring())
        &&& self.kernels.inner_kernel.shows(inner_disc())
        &&& self.kernel_data.outer_kernel_area == outer_ring().area()
        &&& self.kernel_data.inner_kernel_area == inner_disc().area()
        &&& holds(self.outer_texture, outer_ring())
        &&& holds(self.inner_texture, inner_disc())
    }
}

/// `upload` describes the texture of the kernel that `descriptor` describes.
pub open spec fn holds(upload: TextureUpload, descriptor: KernelDescriptor) -> bool {
    &&& upload.wf()
    &&& upload.size.width == descriptor.side()
    &&& upload.size.height == descriptor.side()
    &&& upload.size.depth_or_array_layers == 1
    &&& upload.bytes_per_row == 4 * descriptor.side()
    &&& upload.rows_per_image == descriptor.side()
    &&& upload.data@ == descriptor.samples()
}

/// Sets up the kernels of the simulation.
pub struct GOLKernelPlugin;

impl GOLKernelPlugin {
    /// Draws the two kernels of the simulation and describes their textures.
    pub fn build(&self) -> (setup: KernelSetup)
        ensures
            setup.wf(),
    {
        let outer = KernelDescriptor::Ring {
            outer_radius: 21 * ONE,
            inner_radius: 7 * ONE,
            antialias_width: ONE,
        };
        let inner = KernelDescriptor::Circle { radius: 7 * ONE, antialias_width: ONE };
        assert(outer.side() == 44);
        assert(inner.side() == 16);
        let kernels = GOLKernels::build(outer, inner);
        let kernel_data = GOLKernelData {
            outer_kernel_area: kernels.outer_kernel.area,
            inner_kernel_area: kernels.inner_kernel.area,
        };
        let outer_texture = kernels.outer_kernel.texture_upload();
        let inner_texture = kernels.inner_kernel.texture_upload();
        KernelSetup { kernels, kernel_data, outer_texture, inner_texture }
    }
}

} // verus!
