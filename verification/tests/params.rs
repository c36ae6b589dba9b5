use smoothlife::binary32::to_binary32;
use smoothlife::compute::params::GOLParams;
use smoothlife::kernel::{GOLKernels, KernelDescriptor};

fn nearest(value: u64) -> u32 {
    // exact in double precision below 2^53, then rounded once to single
    ((value as f64 / 65536.0) as f32).to_bits()
}

#[test]
fn binary32_of_whole_numbers() {
    assert_eq!(to_binary32(0), 0.0f32.to_bits());
    assert_eq!(to_binary32(65536), 1.0f32.to_bits());
    assert_eq!(to_binary32(32768), 0.5f32.to_bits());
    assert_eq!(to_binary32(100 * 65536), 100.0f32.to_bits());
    assert_eq!(to_binary32(30 * 65536), 30.0f32.to_bits());
    assert_eq!(to_binary32(1), (1.0f32 / 65536.0).to_bits());
    assert_eq!(to_binary32(3), (3.0f32 / 65536.0).to_bits());
    assert_eq!(to_binary32(1 << 63), 140737488355328.0f32.to_bits());
}

#[test]
fn binary32_rounds_to_nearest_even() {
    // 2^24 + 1 lies half way between two numbers: the even one wins
    assert_eq!(to_binary32((1 << 24) + 1), to_binary32(1 << 24));
    assert_eq!(to_binary32((1 << 24) + 3), to_binary32((1 << 24) + 4));
    assert_eq!(to_binary32((1 << 24) + 2), nearest((1 << 24) + 2));
    assert_ne!(to_binary32((1 << 24) + 2), to_binary32(1 << 24));
    // just above and just below half way
    assert_eq!(to_binary32((1 << 30) + 65), to_binary32((1 << 30) + 128));
    assert_eq!(to_binary32((1 << 30) + 63), to_binary32(1 << 30));
    // rounding up carries into the exponent
    assert_eq!(to_binary32((1 << 25) - 1), to_binary32(1 << 25));
    assert_eq!(to_binary32(u64::MAX), 281474976710656.0f32.to_bits());
}

#[test]
fn binary32_agrees_with_the_hardware() {
    let mut value: u64 = 1;
    for _ in 0..20000 {
        value = value.wrapping_mul(6364136223846793005).wrapping_add(1442695040888963407);
        for shift in [0u32, 11, 17, 24, 31, 39, 40, 41, 47] {
            let v = value >> shift;
            if v < 1 << 53 {
                assert_eq!(to_binary32(v), nearest(v), "value {v}");
            }
        }
    }
    for v in 0..70000u64 {
        assert_eq!(to_binary32(v), nearest(v));
        assert_eq!(to_binary32(v + (1 << 24)), nearest(v + (1 << 24)));
        assert_eq!(to_binary32((1 << 40) - v), nearest((1 << 40) - v));
    }
}

#[test]
fn params_fill_twelve_bytes() {
    let params = GOLParams {
        random_float: 0.5f32.to_bits(),
        outer_kernel_area: 100.0f32.to_bits(),
        inner_kernel_area: 30.0f32.to_bits(),
    };
    let bytes = params.to_bytes();
    assert_eq!(bytes.len(), 12);
    assert_eq!(bytes, vec![0, 0, 0, 0x3f, 0, 0, 0xc8, 0x42, 0, 0, 0xf0, 0x41]);
    let mut expected = Vec::new();
    expected.extend_from_slice(&0.5f32.to_le_bytes());
    expected.extend_from_slice(&100.0f32.to_le_bytes());
    expected.extend_from_slice(&30.0f32.to_le_bytes());
    assert_eq!(bytes, expected);
}

#[test]
fn params_round_trip() {
    let params = GOLParams {
        random_float: 0.5f32.to_bits(),
        outer_kernel_area: 100.0f32.to_bits(),
        inner_kernel_area: 30.0f32.to_bits(),
    };
    let back = GOLParams::from_bytes(&params.to_bytes()).expect("twelve bytes");
    assert_eq!(back, params);
    assert_eq!(f32::from_bits(back.random_float), 0.5);
    assert_eq!(f32::from_bits(back.outer_kernel_area), 100.0);
    assert_eq!(f32::from_bits(back.inner_kernel_area), 30.0);
}

#[test]
fn params_round_trip_for_any_bits() {
    let mut word: u32 = 0x1234_5678;
    for _ in 0..2000 {
        word = word.wrapping_mul(1664525).wrapping_add(1013904223);
        let params = GOLParams {
            random_float: word,
            outer_kernel_area: word.rotate_left(7),
            inner_kernel_area: !word,
        };
        let bytes = params.to_bytes();
        assert_eq!(bytes.len(), 12);
        assert_eq!(bytes[0..4], word.to_le_bytes());
        assert_eq!(bytes[8..12], (!word).to_le_bytes());
        assert_eq!(GOLParams::from_bytes(&bytes), Some(params));
    }
    let edge = GOLParams { random_float: u32::MAX, outer_kernel_area: 0, inner_kernel_area: 1 };
    assert_eq!(edge.to_bytes(), vec![255, 255, 255, 255, 0, 0, 0, 0, 1, 0, 0, 0]);
    assert_eq!(GOLParams::from_bytes(&edge.to_bytes()), Some(edge));
}

#[test]
fn params_need_twelve_bytes() {
    assert_eq!(GOLParams::from_bytes(&[]), None);
    assert_eq!(GOLParams::from_bytes(&[0; 11]), None);
    assert_eq!(GOLParams::from_bytes(&[0; 13]), None);
    assert_eq!(
        GOLParams::from_bytes(&[0; 12]),
        Some(GOLParams { random_float: 0, outer_kernel_area: 0, inner_kernel_area: 0 })
    );
    assert_eq!(
        GOLParams::from_bytes(&[1, 2, 3, 4, 5, 6, 7, 8, 9, 10, 11, 12]),
        Some(GOLParams {
            random_float: 0x0403_0201,
            outer_kernel_area: 0x0807_0605,
            inner_kernel_area: 0x0c0b_0a09,
        })
    );
}

#[test]
fn params_take_the_areas_of_the_kernels() {
    let outer = KernelDescriptor::Circle { radius: 2 * 65536, antialias_width: 0 };
    let inner = KernelDescriptor::Circle { radius: 65536, antialias_width: 0 };
    let kernels = GOLKernels::build(outer, inner);
    // twelve pixels lie within two pixels of the centre, four within one
    assert_eq!(kernels.outer_kernel.area, 12 * 65536);
    assert_eq!(kernels.inner_kernel.area, 4 * 65536);
    let params = GOLParams::new(0.25f32.to_bits(), &kernels);
    assert_eq!(f32::from_bits(params.random_float), 0.25);
    assert_eq!(f32::from_bits(params.outer_kernel_area), 12.0);
    assert_eq!(f32::from_bits(params.inner_kernel_area), 4.0);
}
