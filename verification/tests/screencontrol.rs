use flare::encoders::Encoder;
use flare::encoders::Encoders;
use flare::framebuffer::FrameGeometry;
use flare::screencontrol::ScreenControlCommand;
use flare::screencontrol::ScreenError;

fn rgba_geometry(width: u32, height: u32) -> FrameGeometry {
    FrameGeometry {
        width,
        height,
        stride: width * 4,
        bits_per_pixel: 32,
        size: height * width * 4,
    }
}

fn red_rgba(count: usize) -> Vec<u8> {
    let mut v = Vec::new();
    for _ in 0..count {
        v.push(255u8);
        v.push(0u8);
        v.push(0u8);
        v.push(255u8);
    }
    v
}

#[test]
fn datagrams_frame_one_encoded_image() {
    let cmd = ScreenControlCommand();
    let geometry = rgba_geometry(4, 2);
    let pixels = red_rgba(8);
    let datagrams = cmd
        .frame_datagrams(&geometry, &pixels, 50)
        .expect("a 4x2 RGBA capture packetizes");

    let encoded = Encoders::jpeg().encode(&pixels, 4, 2, 16, 32, 50);
    let n_chunks = encoded.len().div_ceil(1000);
    assert_eq!(datagrams.len(), n_chunks + 2);

    let first = &datagrams[0];
    assert_eq!(&first[0..4], &[0xED, 0xFE, 0xED, 0xFE]);
    assert_eq!(&first[4..8], &[12, 0, 0, 0]);
    assert_eq!(&first[16..28], &[0, 0, 0, 4, 0, 0, 0, 2, 0, 0, 0, 32]);

    let last = &datagrams[datagrams.len() - 1];
    assert_eq!(&last[..], &[0xFE, 0xCA, 0xFE, 0xCA, 0, 0, 0, 0, 0, 0, 0, 0, 0, 0, 0, 0]);

    let mut rebuilt = Vec::new();
    for (i, dg) in datagrams[1..datagrams.len() - 1].iter().enumerate() {
        assert_eq!(&dg[0..4], &((i + 1) as u32).to_le_bytes());
        rebuilt.extend_from_slice(&dg[16..]);
    }
    assert_eq!(rebuilt, encoded);
}

#[test]
fn grayscale_capture_is_rejected() {
    let cmd = ScreenControlCommand();
    let geometry = FrameGeometry { width: 4, height: 2, stride: 4, bits_per_pixel: 8, size: 8 };
    let pixels = vec![0u8; 8];
    assert_eq!(cmd.frame_datagrams(&geometry, &pixels, 50), Err(ScreenError::UnsupportedDepth));
}

#[test]
fn zero_width_is_rejected() {
    let cmd = ScreenControlCommand();
    let geometry = rgba_geometry(0, 2);
    assert_eq!(cmd.frame_datagrams(&geometry, &[], 50), Err(ScreenError::BadDimensions));
}

#[test]
fn oversized_dimension_is_rejected() {
    let cmd = ScreenControlCommand();
    let geometry = FrameGeometry {
        width: 0x1_0000,
        height: 2,
        stride: 0x4_0000,
        bits_per_pixel: 32,
        size: 0x8_0000,
    };
    let pixels = vec![0u8; 16];
    assert_eq!(cmd.frame_datagrams(&geometry, &pixels, 50), Err(ScreenError::BadDimensions));
}

#[test]
fn padded_stride_is_rejected() {
    let cmd = ScreenControlCommand();
    let geometry = FrameGeometry {
        width: 4,
        height: 2,
        stride: 20,
        bits_per_pixel: 32,
        size: 40,
    };
    let pixels = red_rgba(8);
    assert_eq!(cmd.frame_datagrams(&geometry, &pixels, 50), Err(ScreenError::StrideMismatch));
}

#[test]
fn out_of_range_quality_is_rejected() {
    let cmd = ScreenControlCommand();
    let geometry = rgba_geometry(4, 2);
    let pixels = red_rgba(8);
    assert_eq!(cmd.frame_datagrams(&geometry, &pixels, 0), Err(ScreenError::BadQuality));
    assert_eq!(cmd.frame_datagrams(&geometry, &pixels, 101), Err(ScreenError::BadQuality));
}

#[test]
fn short_capture_is_rejected() {
    let cmd = ScreenControlCommand();
    let geometry = rgba_geometry(4, 2);
    let pixels = red_rgba(7);
    assert_eq!(cmd.frame_datagrams(&geometry, &pixels, 50), Err(ScreenError::SizeMismatch));
}

#[test]
fn geometry_from_screeninfo() {
    let g = FrameGeometry::from_screeninfo(1920, 1080, 32).expect("a full-HD surface fits");
    assert_eq!(g.width, 1920);
    assert_eq!(g.height, 1080);
    assert_eq!(g.bits_per_pixel, 32);
    assert_eq!(g.stride, 7680);
    assert_eq!(g.size, 8_294_400);
}

#[test]
fn geometry_grayscale_stride() {
    let g = FrameGeometry::from_screeninfo(4, 2, 8).expect("a tiny surface fits");
    assert_eq!(g.stride, 4);
    assert_eq!(g.size, 8);
}

#[test]
fn geometry_overflow_is_rejected() {
    assert!(FrameGeometry::from_screeninfo(0xFFFF_FFFF, 0xFFFF_FFFF, 32).is_err());
}
