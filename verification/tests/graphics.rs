use zpl::image_to_zpl;
use zpl::Bitmap;
use zpl::LabelBuilder;

fn raster(width: u32, height: u32, luminance: u8) -> Bitmap {
    Bitmap { width, height, pixels: vec![luminance; (width * height) as usize] }
}

#[test]
fn black_multiple_of_eight_is_all_ff() {
    let out = image_to_zpl(&raster(16, 2, 0));
    assert_eq!(out, "^GFA,4, 4, 2,FFFFFFFF\n");
}

#[test]
fn white_raster_is_all_zero() {
    let out = image_to_zpl(&raster(8, 1, 255));
    assert_eq!(out, "^GFA,1, 1, 1,00\n");
}

#[test]
fn black_width_ten_pads_boundary_byte_with_white() {
    // ceil(10 / 8) = 2 bytes per row; the boundary byte keeps its top two
    // bits set and its six padding bits clear.
    let out = image_to_zpl(&raster(10, 2, 0));
    assert_eq!(out, "^GFA,4, 4, 2,FFC0FFC0\n");
}

#[test]
fn white_width_three_boundary_byte_stays_zero() {
    // Padding pixels are white: a byte whose raster pixels are all light
    // packs to zero, padding or not.
    let out = image_to_zpl(&raster(3, 1, 255));
    assert_eq!(out, "^GFA,1, 1, 1,00\n");
}

#[test]
fn bits_pack_most_significant_first() {
    let bmp = Bitmap { width: 8, height: 1, pixels: vec![0, 255, 0, 255, 0, 255, 0, 255] };
    assert_eq!(image_to_zpl(&bmp), "^GFA,1, 1, 1,AA\n");
}

#[test]
fn threshold_is_128() {
    // Luminance 127 is dark (bit set), 128 is light (bit clear).
    let bmp = Bitmap { width: 8, height: 1, pixels: vec![127, 128, 128, 128, 128, 128, 128, 128] };
    assert_eq!(image_to_zpl(&bmp), "^GFA,1, 1, 1,80\n");
}

#[test]
fn rows_emit_top_to_bottom() {
    let mut pixels = vec![255u8; 16];
    // Only the first pixel of the second row is dark.
    pixels[8] = 0;
    let bmp = Bitmap { width: 8, height: 2, pixels };
    assert_eq!(image_to_zpl(&bmp), "^GFA,2, 2, 1,0080\n");
}

#[test]
fn empty_raster() {
    assert_eq!(image_to_zpl(&raster(0, 0, 0)), "^GFA,0, 0, 0,\n");
    assert_eq!(image_to_zpl(&raster(0, 3, 0)), "^GFA,0, 0, 0,\n");
    assert_eq!(image_to_zpl(&raster(5, 0, 0)), "^GFA,0, 0, 1,\n");
}

#[test]
fn missing_samples_count_as_white() {
    let bmp = Bitmap { width: 8, height: 1, pixels: Vec::new() };
    assert_eq!(image_to_zpl(&bmp), "^GFA,1, 1, 1,00\n");
}

#[test]
fn image_element_embeds_graphic_field() {
    let bmp = Bitmap { width: 8, height: 1, pixels: vec![0; 8] };
    let out = LabelBuilder::new(100, 50, None).add_image(5, 6, bmp).build().to_zpl();
    assert!(out.contains("^FO5,6^GFA,1, 1, 1,FF\n^FS\n"));
}
