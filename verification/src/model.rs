//! The label model: an ordered sequence of placed elements, accumulated by a
//! builder and immutable once built.

use vstd::prelude::*;

verus! {

/// A decoded raster: 8-bit luminance samples in row-major order, one sample
/// per pixel when well formed. How the raster was obtained (file format,
/// decoding) is outside this library; it consumes the samples alone.
#[derive(Debug, Clone)]
pub struct Bitmap {
    pub width: u32,
    pub height: u32,
    pub pixels: Vec<u8>,
}

impl Bitmap {
    /// One luminance sample for each of the `width * height` pixels.
    pub open spec fn wf(&self) -> bool {
        self.pixels@.len() == self.width * self.height
    }
}

/// A barcode symbology.
#[derive(Debug, Clone)]
pub enum BarcodeType {
    Code39,
    Code128,
    Aztec,
    DataMatrix,
    EAN13,
    EAN8,
    GS1DataBar,
    QRCode,
}

/// A decorative icon shape.
#[derive(Debug, Clone)]
pub enum IconType {
    Arrow,
    Checkmark,
    Cross,
    Ellipse,
    Rectangle,
    Triangle,
}

/// An outlined shape.
#[derive(Debug, Clone)]
pub enum ShapeType {
    Ellipse,
    Rectangle,
    Triangle,
}

/// A printer font face.
#[derive(Debug, Clone)]
pub enum FontName {
    Zebra0,
}

/// A page-level directive.
#[derive(Debug, Clone)]
pub enum SettingType {
    /// Label width and height in millimetres, and an optional print density
    /// in dots per millimetre (8 when absent).
    LabelDimensions(u32, u32, Option<u32>),
    /// Point size for subsequently placed text.
    FontSize(i32),
    /// Font face for subsequently placed text.
    FontName(FontName),
}

/// A positioned visual primitive's payload.
#[derive(Debug, Clone)]
pub enum ComponentType {
    Image(Bitmap),
    Text(String),
    Barcode { typ: BarcodeType, data: String },
    Icon(IconType),
    Shape { typ: ShapeType, width: u32, height: u32 },
}

/// One element of a label: either a page-level setting or a visual
/// component placed at `(x, y)` in printer dots.
#[derive(Debug, Clone)]
pub enum Element {
    Component { typ: ComponentType, x: u32, y: u32 },
    Setting(SettingType),
}

/// An immutable, ordered document of elements. Order is significant: it is
/// the emission order of the serialized output.
#[derive(Debug, Clone)]
pub struct Label {
    pub(crate) elements: Vec<Element>,
}

impl Label {
    /// A label is its ordered element sequence.
    pub open(crate) spec fn view(&self) -> Seq<Element> {
        self.elements@
    }
}

/// Holds when `e` places the text `t` at `(x, y)`.
pub open spec fn is_text(e: Element, x: u32, y: u32, t: Seq<char>) -> bool {
    match e {
        Element::Component { typ: ComponentType::Text(s), x: ex, y: ey } => {
            s@ == t && ex == x && ey == y
        },
        _ => false,
    }
}

/// Holds when `e` places a barcode of symbology `typ` with payload `d`
/// at `(x, y)`.
pub open spec fn is_barcode(e: Element, x: u32, y: u32, typ: BarcodeType, d: Seq<char>) -> bool {
    match e {
        Element::Component { typ: ComponentType::Barcode { typ: bt, data }, x: ex, y: ey } => {
            bt == typ && data@ == d && ex == x && ey == y
        },
        _ => false,
    }
}

/// Holds when `e` places the raster `bmp` at `(x, y)`.
pub open spec fn is_image(e: Element, x: u32, y: u32, bmp: Bitmap) -> bool {
    match e {
        Element::Component { typ: ComponentType::Image(b), x: ex, y: ey } => {
            b.width == bmp.width && b.height == bmp.height && b.pixels@ == bmp.pixels@ && ex == x
                && ey == y
        },
        _ => false,
    }
}

/// The accumulator for a label's elements: each `add` appends one element,
/// `build` yields the finished immutable label.
pub struct LabelBuilder {
    pub(crate) elements: Vec<Element>,
}

impl LabelBuilder {
    /// A builder is the element sequence accumulated so far.
    pub open(crate) spec fn view(&self) -> Seq<Element> {
        self.elements@
    }

    /// A fresh builder holding the one mandatory page-setting element with
    /// the given dimensions and optional density.
    pub fn new(width_in_mm: u32, height_in_mm: u32, dpmm: Option<u32>) -> (res: Self)
        ensures
            res@ == seq![
                Element::Setting(SettingType::LabelDimensions(width_in_mm, height_in_mm, dpmm)),
            ],
    {
        let mut elements: Vec<Element> = Vec::new();
        elements.push(
            Element::Setting(SettingType::LabelDimensions(width_in_mm, height_in_mm, dpmm)),
        );
        proof {
            assert(elements@ =~= seq![
                Element::Setting(SettingType::LabelDimensions(width_in_mm, height_in_mm, dpmm)),
            ]);
        }
        LabelBuilder { elements }
    }

    /// Appends an image component placed at `(x, y)`.
    pub fn add_image(self, x: u32, y: u32, bitmap: Bitmap) -> (res: Self)
        ensures
            res@.len() == self@.len() + 1,
            res@.take(self@.len() as int) == self@,
            is_image(res@.last(), x, y, bitmap),
    {
        let mut elements = self.elements;
        let ghost prior = elements@;
        elements.push(Element::Component { typ: ComponentType::Image(bitmap), x, y });
        proof {
            assert(elements@.take(prior.len() as int) =~= prior);
        }
        LabelBuilder { elements }
    }

    /// Appends a text component placed at `(x, y)`.
    pub fn add_text(self, x: u32, y: u32, text: &str) -> (res: Self)
        ensures
            res@.len() == self@.len() + 1,
            res@.take(self@.len() as int) == self@,
            is_text(res@.last(), x, y, text@),
    {
        let mut elements = self.elements;
        let ghost prior = elements@;
        elements.push(Element::Component { typ: ComponentType::Text(text.to_owned()), x, y });
        proof {
            assert(elements@.take(prior.len() as int) =~= prior);
        }
        LabelBuilder { elements }
    }

    /// Appends a barcode component placed at `(x, y)`.
    pub fn add_barcode(self, x: u32, y: u32, barcode_type: BarcodeType, data: &str) -> (res: Self)
        ensures
            res@.len() == self@.len() + 1,
            res@.take(self@.len() as int) == self@,
            is_barcode(res@.last(), x, y, barcode_type, data@),
    {
        let mut elements = self.elements;
        let ghost prior = elements@;
        let ghost bt = barcode_type;
        elements.push(
            Element::Component {
                typ: ComponentType::Barcode { typ: barcode_type, data: data.to_owned() },
                x,
                y,
            },
        );
        proof {
            assert(elements@.take(prior.len() as int) =~= prior);
            assert(is_barcode(elements@.last(), x, y, bt, data@));
        }
        LabelBuilder { elements }
    }

    /// Appends an icon component placed at `(x, y)`.
    pub fn add_icon(self, x: u32, y: u32, icon_type: IconType) -> (res: Self)
        ensures
            res@.len() == self@.len() + 1,
            res@.take(self@.len() as int) == self@,
            res@.last() == (Element::Component { typ: ComponentType::Icon(icon_type), x, y }),
    {
        let mut elements = self.elements;
        let ghost prior = elements@;
        elements.push(Element::Component { typ: ComponentType::Icon(icon_type), x, y });
        proof {
            assert(elements@.take(prior.len() as int) =~= prior);
        }
        LabelBuilder { elements }
    }

    /// Appends a shape component placed at `(x, y)`.
    pub fn add_shape(self, x: u32, y: u32, shape_type: ShapeType, width: u32, height: u32) -> (res:
        Self)
        ensures
            res@.len() == self@.len() + 1,
            res@.take(self@.len() as int) == self@,
            res@.last() == (Element::Component {
                typ: ComponentType::Shape { typ: shape_type, width, height },
                x,
                y,
            }),
    {
        let mut elements = self.elements;
        let ghost prior = elements@;
        elements.push(
            Element::Component { typ: ComponentType::Shape { typ: shape_type, width, height }, x, y },
        );
        proof {
            assert(elements@.take(prior.len() as int) =~= prior);
        }
        LabelBuilder { elements }
    }

    /// Appends a font-size setting.
    pub fn font_size(self, size: i32) -> (res: Self)
        ensures
            res@.len() == self@.len() + 1,
            res@.take(self@.len() as int) == self@,
            res@.last() == Element::Setting(SettingType::FontSize(size)),
    {
        let mut elements = self.elements;
        let ghost prior = elements@;
        elements.push(Element::Setting(SettingType::FontSize(size)));
        proof {
            assert(elements@.take(prior.len() as int) =~= prior);
        }
        LabelBuilder { elements }
    }

    /// Appends a font-face setting.
    pub fn font_name(self, font_name: FontName) -> (res: Self)
        ensures
            res@.len() == self@.len() + 1,
            res@.take(self@.len() as int) == self@,
            res@.last() == Element::Setting(SettingType::FontName(font_name)),
    {
        let mut elements = self.elements;
        let ghost prior = elements@;
        elements.push(Element::Setting(SettingType::FontName(font_name)));
        proof {
            assert(elements@.take(prior.len() as int) =~= prior);
        }
        LabelBuilder { elements }
    }

    /// Finalizes the builder into an immutable label holding exactly the
    /// accumulated elements, in order.
    pub fn build(self) -> (res: Label)
        ensures
            res@ == self@,
    {
        Label { elements: self.elements }
    }
}

} // verus!
