use zpl::BarcodeType;
use zpl::FontName;
use zpl::IconType;
use zpl::LabelBuilder;
use zpl::ShapeType;

#[test]
fn text_and_barcode_chain() {
    let label = LabelBuilder::new(100, 50, None)
        .add_text(10, 10, "Hello World")
        .add_barcode(10, 30, BarcodeType::Code128, "12345")
        .build();
    let out = label.to_zpl();
    let expected = "^XA^XA^LL50\n^JM8^LH0,0^BY,,40\n^FO10,10^FDHello World^FS\n^FO10,30^BY2^BC^FD12345^FS\n^XZ";
    assert_eq!(out, expected);
    // Exactly one begin/end envelope pair is added by serialization.
    assert!(out.starts_with("^XA"));
    assert!(out.ends_with("^XZ"));
    assert_eq!(out.matches("^FD").count(), 2);
    assert_eq!(out.matches("Hello World").count(), 1);
    assert_eq!(out.matches("^BC").count(), 1);
}

#[test]
fn no_added_elements_gives_bare_interior() {
    let out = LabelBuilder::new(100, 50, None).build().to_zpl();
    assert_eq!(out, "^XA^XA^LL50\n^JM8^LH0,0^BY,,40\n^XZ");
}

#[test]
fn serializing_twice_is_identical() {
    let label = LabelBuilder::new(80, 40, Some(12))
        .font_size(28)
        .add_text(5, 7, "abc")
        .add_shape(1, 2, ShapeType::Rectangle, 100, 60)
        .build();
    let first = label.to_zpl();
    let second = label.to_zpl();
    assert_eq!(first, second);
}

#[test]
fn fragments_keep_element_order() {
    let out = LabelBuilder::new(100, 50, None)
        .add_text(1, 1, "first")
        .add_text(2, 2, "second")
        .add_text(3, 3, "third")
        .build()
        .to_zpl();
    let a = out.find("first").unwrap();
    let b = out.find("second").unwrap();
    let c = out.find("third").unwrap();
    assert!(a < b && b < c);
    assert_eq!(out.matches("^FD").count(), 3);
}

#[test]
fn label_width_is_not_emitted() {
    // The dimensions fragment carries height and density; the width is a
    // property of the physical medium and does not appear in the output.
    let a = LabelBuilder::new(100, 50, None).build().to_zpl();
    let b = LabelBuilder::new(999, 50, None).build().to_zpl();
    assert_eq!(a, b);
}

#[test]
fn dimensions_with_explicit_density() {
    let out = LabelBuilder::new(100, 75, Some(12)).build().to_zpl();
    assert_eq!(out, "^XA^XA^LL75\n^JM12^LH0,0^BY,,40\n^XZ");
}

#[test]
fn font_size_fragment() {
    let out = LabelBuilder::new(10, 20, None).font_size(30).build().to_zpl();
    assert_eq!(
        out,
        "^XA^XA^LL20\n^JM8^LH0,0^BY,,40\n^CF,30,\n^XZ"
    );
}

#[test]
fn negative_font_size_keeps_sign() {
    let out = LabelBuilder::new(10, 20, None).font_size(-5).build().to_zpl();
    assert!(out.contains("^CF,-5,\n"));
}

#[test]
fn font_name_fragment() {
    let out = LabelBuilder::new(10, 20, None).font_name(FontName::Zebra0).build().to_zpl();
    assert!(out.contains("^CF0,,\n"));
}

#[test]
fn icon_fragment_is_fixed_glyph_twice() {
    let out = LabelBuilder::new(10, 20, None).add_icon(4, 9, IconType::Checkmark).build().to_zpl();
    assert!(out.contains("^FO4,9^GRI,,Y,N^FS\n^FO4,9^GRI,,Y,N^FS\n"));
    // The icon type does not vary the glyph.
    let other = LabelBuilder::new(10, 20, None).add_icon(4, 9, IconType::Arrow).build().to_zpl();
    assert_eq!(out, other);
}

#[test]
fn shape_fragment_uses_width_only() {
    let out = LabelBuilder::new(10, 20, None)
        .add_shape(1, 2, ShapeType::Rectangle, 100, 60)
        .build()
        .to_zpl();
    assert!(out.contains("^FO1,2^GBR,100^FS\n"));
    // The height parameter is accepted but not rendered.
    let other = LabelBuilder::new(10, 20, None)
        .add_shape(1, 2, ShapeType::Rectangle, 100, 999)
        .build()
        .to_zpl();
    assert_eq!(out, other);
}

#[test]
fn shape_codes() {
    for (shape, code) in [
        (ShapeType::Ellipse, "^GBE,7^FS\n"),
        (ShapeType::Rectangle, "^GBR,7^FS\n"),
        (ShapeType::Triangle, "^GBT,7^FS\n"),
    ] {
        let out = LabelBuilder::new(10, 20, None).add_shape(0, 0, shape, 7, 7).build().to_zpl();
        assert!(out.contains(code));
    }
}

#[test]
fn barcode_symbology_codes() {
    for (typ, code) in [
        (BarcodeType::Code39, "^B3"),
        (BarcodeType::Code128, "^BC"),
        (BarcodeType::Aztec, "^BZ"),
        (BarcodeType::DataMatrix, "^BD"),
        (BarcodeType::EAN13, "^BE"),
        (BarcodeType::EAN8, "^BE"),
        (BarcodeType::GS1DataBar, "^BK"),
        (BarcodeType::QRCode, "^BQ"),
    ] {
        let out = LabelBuilder::new(10, 20, None).add_barcode(3, 4, typ, "99").build().to_zpl();
        assert!(out.contains(&format!("^FO3,4^BY2{}^FD99^FS\n", code)));
    }
}

#[test]
fn text_passes_through_verbatim() {
    let out = LabelBuilder::new(10, 20, None).add_text(0, 0, "").build().to_zpl();
    assert!(out.contains("^FO0,0^FD^FS\n"));
    let out = LabelBuilder::new(10, 20, None).add_text(0, 0, "^XZ,{}").build().to_zpl();
    assert!(out.contains("^FO0,0^FD^XZ,{}^FS\n"));
}
