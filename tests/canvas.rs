use std::io::Cursor;
use wallpaper_engine::{
    build_canvas, canvas_from_rgba, render_cards, CanvasError, CardPosition, CardType, PixelCanvas, RenderOptions,
    WallpaperCard,
};

fn png_of(width: u32, height: u32, px: [u8; 4]) -> Vec<u8> {
    let img = image::RgbaImage::from_pixel(width, height, image::Rgba(px));
    let mut out = Vec::new();
    image::DynamicImage::ImageRgba8(img).write_to(&mut Cursor::new(&mut out), image::ImageFormat::Png).unwrap();
    out
}

fn decode(bytes: &[u8]) -> (u32, u32, Vec<u8>) {
    let img = image::load_from_memory(bytes).unwrap().to_rgba8();
    let (w, h) = img.dimensions();
    (w, h, img.into_raw())
}

#[test]
fn canvas_has_source_size() {
    let canvas = build_canvas(&png_of(800, 600, [255, 255, 255, 255])).unwrap();
    assert_eq!(canvas.width(), 800);
    assert_eq!(canvas.height(), 600);
    assert_eq!(canvas.pixels().len(), 800 * 600 * 4);
}

#[test]
fn overlay_darkens_white() {
    let canvas = canvas_from_rgba(2, 1, vec![255; 8]).unwrap();
    let px = canvas.pixels();
    for p in px.chunks(4) {
        assert!(p[0] < 255 && p[0] >= 200);
        assert_eq!(p[0], p[1]);
        assert_eq!(p[1], p[2]);
        assert_eq!(p[3], 255);
    }
}

#[test]
fn overlay_is_not_idempotent() {
    let once = build_canvas(&png_of(4, 3, [200, 180, 160, 255])).unwrap();
    let mut twice = build_canvas(&png_of(4, 3, [200, 180, 160, 255])).unwrap();
    twice.apply_overlay();
    assert_ne!(once.pixels(), twice.pixels());
    assert!(twice.pixels()[0] < once.pixels()[0]);
}

#[test]
fn build_canvas_errors() {
    assert_eq!(build_canvas(&[1, 2, 3, 4]).err(), Some(CanvasError::Decode));
    assert_eq!(build_canvas(&[]).err(), Some(CanvasError::Decode));
}

#[test]
fn canvas_from_rgba_errors() {
    assert_eq!(canvas_from_rgba(0, 5, vec![]).err(), Some(CanvasError::Decode));
    assert_eq!(canvas_from_rgba(5, 0, vec![]).err(), Some(CanvasError::Decode));
    assert_eq!(canvas_from_rgba(536_870_912, 1, vec![]).err(), Some(CanvasError::Allocation));
    assert_eq!(canvas_from_rgba(2, 2, vec![0; 15]).err(), Some(CanvasError::Decode));
    assert!(canvas_from_rgba(1, 1, vec![5, 5, 5, 5]).is_ok());
}

#[test]
fn translucent_pixels_are_premultiplied() {
    // fully transparent: the color goes, only the overlay is left
    let clear = canvas_from_rgba(1, 1, vec![200, 100, 50, 0]).unwrap();
    let px = clear.pixels();
    assert_eq!(&px[..3], &[0, 0, 0]);
    assert!(px[3] >= 49 && px[3] <= 51);
    // half transparent white becomes a valid premultiplied pixel
    let half = canvas_from_rgba(1, 1, vec![255, 255, 255, 128]).unwrap();
    let px = half.pixels();
    assert!(px[0] <= px[3] && px[1] <= px[3] && px[2] <= px[3]);
    assert!(px[0] < 128);
    let from_png = build_canvas(&png_of(3, 2, [255, 255, 255, 128])).unwrap();
    assert_eq!(from_png.pixels().len(), 3 * 2 * 4);
}

#[test]
fn from_premultiplied_checks_size() {
    assert!(PixelCanvas::from_premultiplied(2, 2, vec![0; 16]).is_some());
    assert!(PixelCanvas::from_premultiplied(2, 2, vec![0; 12]).is_none());
    assert!(PixelCanvas::from_premultiplied(0, 2, vec![]).is_none());
    let c = PixelCanvas::from_premultiplied(1, 1, vec![1, 2, 3, 4]).unwrap();
    assert_eq!(c.into_pixels(), vec![1, 2, 3, 4]);
}

#[test]
fn png_round_trip() {
    let canvas = build_canvas(&png_of(30, 20, [120, 200, 40, 255])).unwrap();
    let bytes = canvas.encode_png().unwrap();
    assert_eq!(&bytes[..8], &[137, 80, 78, 71, 13, 10, 26, 10]);
    let (w, h, px) = decode(&bytes);
    assert_eq!((w, h), (30, 20));
    assert_eq!(&px, canvas.pixels());
}

#[test]
fn empty_request_encodes_builder_output() {
    let background = png_of(16, 9, [255, 255, 255, 255]);
    let canvas = build_canvas(&background).unwrap();
    let options = RenderOptions::default();
    assert!(render_cards(&options, 16, 9).is_empty());
    let again = build_canvas(&background).unwrap();
    assert_eq!(canvas.encode_png().unwrap(), again.encode_png().unwrap());
}

#[test]
fn scenario_output_size() {
    let canvas = build_canvas(&png_of(800, 600, [255, 255, 255, 255])).unwrap();
    let mut options = RenderOptions::default();
    options.cards = vec![WallpaperCard {
        title: "Note".to_string(),
        content: "12345678901234567890123456789".to_string(),
        card_type: CardType::Memo,
        is_pinned: false,
    }];
    options.position = CardPosition::BottomRight;
    let plan = render_cards(&options, canvas.width(), canvas.height());
    assert_eq!((plan[0].x, plan[0].y, plan[0].height), (488, 492, 76));
    let (w, h, _) = decode(&canvas.encode_png().unwrap());
    assert_eq!((w, h), (800, 600));
}
