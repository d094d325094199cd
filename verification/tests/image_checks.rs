use claude_rust::image_processing::{ImageFormatKind, ImageProcessor};
use claude_rust::images::{ColorKind, Image, ImageProcessingConfig, ResizeFilter};

fn gray(width: u32, height: u32, samples: Vec<u8>) -> Image {
    Image { width, height, color: ColorKind::L8, samples }
}

#[test]
fn flips_mirror_rows_and_columns() {
    let p = ImageProcessor::new();
    let img = Image { width: 2, height: 1, color: ColorKind::Rgb8, samples: vec![1, 2, 3, 4, 5, 6] };
    let h = p.flip(&img, true).unwrap();
    assert_eq!(h.samples, vec![4, 5, 6, 1, 2, 3]);
    let v = p.flip(&gray(1, 3, vec![7, 8, 9]), false).unwrap();
    assert_eq!(v.samples, vec![9, 8, 7]);
    let back = p.flip(&h, true).unwrap();
    assert_eq!(back.samples, img.samples);
}

#[test]
fn rotations_by_right_angles() {
    let p = ImageProcessor::new();
    let img = gray(2, 2, vec![1, 2, 3, 4]);
    let r90 = p.rotate(&img, 90).unwrap();
    assert_eq!((r90.width, r90.height), (2, 2));
    assert_eq!(r90.samples, vec![3, 1, 4, 2]);
    let r270 = p.rotate(&img, 270).unwrap();
    assert_eq!(r270.samples, vec![2, 4, 1, 3]);
    assert_eq!(p.rotate(&img, -90).unwrap().samples, r270.samples);
    assert_eq!(p.rotate(&img, 180).unwrap().samples, vec![4, 3, 2, 1]);
    assert_eq!(p.rotate(&img, 360).unwrap().samples, img.samples);
    let wide = gray(3, 1, vec![1, 2, 3]);
    let tall = p.rotate(&wide, 90).unwrap();
    assert_eq!((tall.width, tall.height), (1, 3));
    assert_eq!(tall.samples, vec![1, 2, 3]);
    let back = p.rotate(&r90, 270).unwrap();
    assert_eq!(back.samples, img.samples);
    let err = p.rotate(&img, 45).unwrap_err();
    assert_eq!(err.to_string(), "General error: Only 90, 180, 270 degree rotations are supported");
}

#[test]
fn crops_inside_the_image_only() {
    let p = ImageProcessor::new();
    let img = gray(3, 2, vec![1, 2, 3, 4, 5, 6]);
    let c = p.crop(&img, 1, 0, 2, 2).unwrap();
    assert_eq!((c.width, c.height), (2, 2));
    assert_eq!(c.samples, vec![2, 3, 5, 6]);
    let err = p.crop(&img, 2, 0, 2, 1).unwrap_err();
    assert_eq!(err.to_string(), "General error: Crop area exceeds image boundaries");
}

#[test]
fn brightness_clamps_colours_and_keeps_alpha() {
    let p = ImageProcessor::new();
    let img = Image { width: 1, height: 1, color: ColorKind::Rgba8, samples: vec![250, 10, 0, 7] };
    assert_eq!(p.adjust_brightness(&img, 10).unwrap().samples, vec![255, 20, 10, 7]);
    assert_eq!(p.adjust_brightness(&img, -20).unwrap().samples, vec![230, 0, 0, 7]);
}

#[test]
fn grayscale_weighs_the_colours() {
    let p = ImageProcessor::new();
    let red = Image { width: 1, height: 1, color: ColorKind::Rgb8, samples: vec![255, 0, 0] };
    let g = p.to_grayscale(&red).unwrap();
    assert_eq!(g.color, ColorKind::L8);
    assert_eq!(g.samples, vec![54]);
    let green = Image { width: 1, height: 1, color: ColorKind::Rgba8, samples: vec![0, 255, 0, 9] };
    let g = p.to_grayscale(&green).unwrap();
    assert_eq!(g.color, ColorKind::La8);
    assert_eq!(g.samples, vec![182, 9]);
}

#[test]
fn png_round_trip_and_info() {
    let p = ImageProcessor::new();
    let config = ImageProcessingConfig::default();
    let img = Image { width: 2, height: 1, color: ColorKind::Rgba8, samples: vec![1, 2, 3, 255, 9, 8, 7, 128] };
    let bytes = p.save_to_bytes(&img, ImageFormatKind::Png, &config).unwrap();
    assert!(!bytes.is_empty());
    let back = p.load_from_bytes(&bytes).unwrap();
    assert_eq!((back.width, back.height, back.color), (2, 1, ColorKind::Rgba8));
    assert_eq!(back.samples, img.samples);
    let info = p.get_image_info(&back);
    assert_eq!((info.width, info.height), (2, 1));
    assert_eq!(info.format, None);
    assert_eq!(info.color_type, "Rgba8");
    assert!(p.load_from_bytes(&[1, 2, 3, 4]).is_err());
}

#[test]
fn resizing_keeps_same_size_and_fits_thumbnails() {
    let p = ImageProcessor::new();
    let config = ImageProcessingConfig { quality: 80, preserve_aspect_ratio: false, filter: ResizeFilter::Nearest };
    let img = gray(2, 1, vec![10, 20]);
    let same = p.resize(&img, 2, 1, &config).unwrap();
    assert_eq!(same.color, ColorKind::Rgba8);
    assert_eq!(same.samples, vec![10, 10, 10, 255, 20, 20, 20, 255]);
    let big = gray(4, 2, vec![0; 8]);
    let thumb = p.create_thumbnail(&big, 2, &ImageProcessingConfig::default()).unwrap();
    assert_eq!((thumb.width, thumb.height), (2, 1));
    let kept = p.create_thumbnail(&big, 8, &config).unwrap();
    assert_eq!((kept.width, kept.height, kept.color), (4, 2, ColorKind::L8));
}
