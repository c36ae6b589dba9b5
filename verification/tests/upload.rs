use smoothlife::kernel::upload::{Extent3d, TextureUpload};
use smoothlife::kernel::{Kernel, KernelDescriptor};

fn upload(width: u32, height: u32) -> TextureUpload {
    let data: Vec<u8> = (0..4 * width * height).map(|i| (i % 251) as u8 + 1).collect();
    TextureUpload {
        size: Extent3d { width, height, depth_or_array_layers: 1 },
        bytes_per_row: 4 * width,
        rows_per_image: height,
        data,
    }
}

#[test]
fn aligned_rows_stay_as_they_are() {
    let tight = upload(8, 3);
    assert_eq!(tight.aligned(32), tight);
    assert_eq!(tight.aligned(16), tight);
    assert_eq!(tight.aligned(1), tight);
}

#[test]
fn rows_are_padded_with_noughts() {
    let tight = upload(3, 2);
    let padded = tight.aligned(8);
    assert_eq!(padded.size, tight.size);
    assert_eq!(padded.rows_per_image, 2);
    assert_eq!(padded.bytes_per_row, 16);
    assert_eq!(
        padded.data,
        vec![
            1, 2, 3, 4, 5, 6, 7, 8, 9, 10, 11, 12, 0, 0, 0, 0, //
            13, 14, 15, 16, 17, 18, 19, 20, 21, 22, 23, 24, 0, 0, 0, 0,
        ]
    );
    let odd = tight.aligned(5);
    assert_eq!(odd.bytes_per_row, 15);
    assert_eq!(odd.data.len(), 30);
    assert_eq!(odd.data[12..15], [0, 0, 0]);
    assert_eq!(odd.data[15..27], tight.data[12..24]);
}

#[test]
fn kernel_rows_are_padded_for_the_backend() {
    let descriptor = KernelDescriptor::Ring {
        outer_radius: 21 * 65536,
        inner_radius: 7 * 65536,
        antialias_width: 65536,
    };
    let tight = Kernel::from_descriptor(descriptor).texture_upload();
    assert_eq!(tight.bytes_per_row, 176);
    let padded = tight.aligned(256);
    assert_eq!(padded.bytes_per_row, 256);
    assert_eq!(padded.rows_per_image, 44);
    assert_eq!(padded.size, Extent3d { width: 44, height: 44, depth_or_array_layers: 1 });
    assert_eq!(padded.data.len(), 256 * 44);
    for row in 0..44 {
        assert_eq!(padded.data[256 * row..256 * row + 176], tight.data[176 * row..176 * (row + 1)]);
        assert!(padded.data[256 * row + 176..256 * (row + 1)].iter().all(|&byte| byte == 0));
    }
}

#[test]
fn empty_upload_stays_empty() {
    let none = upload(0, 0);
    let padded = none.aligned(256);
    assert_eq!(padded.bytes_per_row, 0);
    assert!(padded.data.is_empty());
    let flat = upload(5, 0);
    let padded = flat.aligned(256);
    assert_eq!(padded.bytes_per_row, 256);
    assert!(padded.data.is_empty());
}
