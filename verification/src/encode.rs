//! Serialization of labels and elements into the printer command language:
//! each element maps to a fixed textual fragment, the document concatenates
//! the fragments in element order inside one begin/end envelope.

use crate::bitmap::image_to_zpl;
use crate::bitmap::spec_image_zpl;
use crate::model::BarcodeType;
use crate::model::ComponentType;
use crate::model::Element;
use crate::model::FontName;
use crate::model::Label;
use crate::model::SettingType;
use crate::model::ShapeType;
use crate::text::push_dec_i32;
use crate::text::push_dec_u64;
use crate::text::spec_dec_int;
use crate::text::spec_dec_nat;
use vstd::prelude::*;
use vstd::string::StringExecFns;

verus! {

/// The one-character symbology code of a barcode type. EAN-13 and EAN-8
/// share one code.
pub open spec fn spec_barcode_code(t: BarcodeType) -> Seq<char> {
    match t {
        BarcodeType::Code39 => "3"@,
        BarcodeType::Code128 => "C"@,
        BarcodeType::Aztec => "Z"@,
        BarcodeType::DataMatrix => "D"@,
        BarcodeType::EAN13 => "E"@,
        BarcodeType::EAN8 => "E"@,
        BarcodeType::GS1DataBar => "K"@,
        BarcodeType::QRCode => "Q"@,
    }
}

/// The one-character code of a shape type.
pub open spec fn spec_shape_code(t: ShapeType) -> Seq<char> {
    match t {
        ShapeType::Ellipse => "E"@,
        ShapeType::Rectangle => "R"@,
        ShapeType::Triangle => "T"@,
    }
}

/// The one-character code of a font face.
pub open spec fn spec_font_code(f: FontName) -> Seq<char> {
    match f {
        FontName::Zebra0 => "0"@,
    }
}

/// The markup fragment of a page-level setting. The label dimensions
/// fragment carries the height and the density (8 dots per millimetre when
/// unspecified); the width is carried by the physical medium, not emitted.
pub open spec fn spec_setting_zpl(s: SettingType) -> Seq<char> {
    match s {
        SettingType::LabelDimensions(_width, height, dpmm) => {
            "^XA^LL"@ + spec_dec_nat(height as nat) + "\n^JM"@ + (match dpmm {
                Some(d) => spec_dec_nat(d as nat),
                None => "8"@,
            }) + "^LH0,0^BY,,40\n"@
        },
        SettingType::FontSize(size) => "^CF,"@ + spec_dec_int(size as int) + ",\n"@,
        SettingType::FontName(f) => "^CF"@ + spec_font_code(f) + ",,\n"@,
    }
}

/// The field-origin prefix placing a component at `(x, y)`.
pub open spec fn spec_origin(x: u32, y: u32) -> Seq<char> {
    "^FO"@ + spec_dec_nat(x as nat) + ","@ + spec_dec_nat(y as nat)
}

/// The markup fragment of one element. Text and barcode payloads pass
/// through verbatim; the icon fragment is one fixed glyph emitted twice,
/// whatever the icon type; a shape renders from its width alone.
pub open spec fn spec_element_zpl(e: Element) -> Seq<char> {
    match e {
        Element::Setting(s) => spec_setting_zpl(s),
        Element::Component { typ, x, y } => match typ {
            ComponentType::Image(bmp) => spec_origin(x, y) + spec_image_zpl(bmp) + "^FS\n"@,
            ComponentType::Text(s) => spec_origin(x, y) + "^FD"@ + s@ + "^FS\n"@,
            ComponentType::Barcode { typ: bt, data } => {
                spec_origin(x, y) + "^BY2^B"@ + spec_barcode_code(bt) + "^FD"@ + data@ + "^FS\n"@
            },
            ComponentType::Icon(_) => {
                spec_origin(x, y) + "^GRI,,Y,N^FS\n"@ + spec_origin(x, y) + "^GRI,,Y,N^FS\n"@
            },
            ComponentType::Shape { typ: st, width, height: _height } => {
                spec_origin(x, y) + "^GB"@ + spec_shape_code(st) + ","@ + spec_dec_nat(
                    width as nat,
                ) + "^FS\n"@
            },
        },
    }
}

/// The concatenated fragments of the elements, in order.
pub open spec fn spec_elements_zpl(es: Seq<Element>) -> Seq<char>
    decreases es.len(),
{
    if es.len() == 0 {
        Seq::empty()
    } else {
        spec_elements_zpl(es.drop_last()) + spec_element_zpl(es.last())
    }
}

/// The serialized document: the element fragments in order, wrapped in the
/// begin/end envelope exactly once.
pub open spec fn spec_label_zpl(es: Seq<Element>) -> Seq<char> {
    "^XA"@ + spec_elements_zpl(es) + "^XZ"@
}

fn barcode_code_str(t: &BarcodeType) -> (r: &'static str)
    ensures
        r@ == spec_barcode_code(*t),
{
    match t {
        BarcodeType::Code39 => "3",
        BarcodeType::Code128 => "C",
        BarcodeType::Aztec => "Z",
        BarcodeType::DataMatrix => "D",
        BarcodeType::EAN13 => "E",
        BarcodeType::EAN8 => "E",
        BarcodeType::GS1DataBar => "K",
        BarcodeType::QRCode => "Q",
    }
}

fn shape_code_str(t: &ShapeType) -> (r: &'static str)
    ensures
        r@ == spec_shape_code(*t),
{
    match t {
        ShapeType::Ellipse => "E",
        ShapeType::Rectangle => "R",
        ShapeType::Triangle => "T",
    }
}

fn font_code_str(f: &FontName) -> (r: &'static str)
    ensures
        r@ == spec_font_code(*f),
{
    match f {
        FontName::Zebra0 => "0",
    }
}

fn push_origin(out: &mut String, x: u32, y: u32)
    ensures
        final(out)@ == old(out)@ + spec_origin(x, y),
{
    out.append("^FO");
    push_dec_u64(out, x as u64);
    out.append(",");
    push_dec_u64(out, y as u64);
    proof {
        assert(out@ =~= old(out)@ + spec_origin(x, y));
    }
}

impl SettingType {
    /// The markup fragment of this setting.
    pub fn to_zpl(&self) -> (res: String)
        ensures
            res@ == spec_setting_zpl(*self),
    {
        let mut out = String::new();
        match self {
            SettingType::LabelDimensions(_width, height, dpmm) => {
                out.append("^XA^LL");
                push_dec_u64(&mut out, *height as u64);
                out.append("\n^JM");
                match dpmm {
                    Some(d) => push_dec_u64(&mut out, *d as u64),
                    None => out.append("8"),
                }
                out.append("^LH0,0^BY,,40\n");
            },
            SettingType::FontSize(size) => {
                out.append("^CF,");
                push_dec_i32(&mut out, *size);
                out.append(",\n");
            },
            SettingType::FontName(f) => {
                out.append("^CF");
                out.append(font_code_str(f));
                out.append(",,\n");
            },
        }
        proof {
            assert(out@ =~= spec_setting_zpl(*self));
        }
        out
    }
}

impl Element {
    /// The markup fragment of this element.
    pub fn to_zpl(&self) -> (res: String)
        ensures
            res@ == spec_element_zpl(*self),
    {
        match self {
            Element::Setting(s) => s.to_zpl(),
            Element::Component { typ, x, y } => {
                let mut out = String::new();
                match typ {
                    ComponentType::Image(bmp) => {
                        push_origin(&mut out, *x, *y);
                        let graphic = image_to_zpl(bmp);
                        out.append(graphic.as_str());
                        out.append("^FS\n");
                    },
                    ComponentType::Text(s) => {
                        push_origin(&mut out, *x, *y);
                        out.append("^FD");
                        out.append(s.as_str());
                        out.append("^FS\n");
                    },
                    ComponentType::Barcode { typ: bt, data } => {
                        push_origin(&mut out, *x, *y);
                        out.append("^BY2^B");
                        out.append(barcode_code_str(bt));
                        out.append("^FD");
                        out.append(data.as_str());
                        out.append("^FS\n");
                    },
                    ComponentType::Icon(_) => {
                        push_origin(&mut out, *x, *y);
                        out.append("^GRI,,Y,N^FS\n");
                        push_origin(&mut out, *x, *y);
                        out.append("^GRI,,Y,N^FS\n");
                    },
                    ComponentType::Shape { typ: st, width, height: _height } => {
                        push_origin(&mut out, *x, *y);
                        out.append("^GB");
                        out.append(shape_code_str(st));
                        out.append(",");
                        push_dec_u64(&mut out, *width as u64);
                        out.append("^FS\n");
                    },
                }
                proof {
                    assert(out@ =~= spec_element_zpl(*self));
                }
                out
            },
        }
    }
}

impl Label {
    /// Serializes the whole document: each element's fragment in sequence,
    /// wrapped in the begin/end envelope exactly once.
    pub fn to_zpl(&self) -> (res: String)
        ensures
            res@ == spec_label_zpl(self@),
    {
        let mut zpl = String::new();
        zpl.append("^XA");
        proof {
            assert(zpl@ =~= "^XA"@ + spec_elements_zpl(self@.take(0)));
        }
        let n = self.elements.len();
        let mut idx: usize = 0;
        while idx < n
            invariant
                n == self@.len(),
                idx <= n,
                zpl@ == "^XA"@ + spec_elements_zpl(self@.take(idx as int)),
            decreases n - idx,
        {
            let frag = self.elements[idx].to_zpl();
            zpl.append(frag.as_str());
            proof {
                assert(self@.take(idx as int + 1).drop_last() =~= self@.take(idx as int));
                assert(self@.take(idx as int + 1).last() == self@[idx as int]);
                assert(zpl@ =~= "^XA"@ + spec_elements_zpl(self@.take(idx as int + 1)));
            }
            idx = idx + 1;
        }
        zpl.append("^XZ");
        proof {
            assert(self@.take(n as int) =~= self@);
            assert(zpl@ =~= spec_label_zpl(self@));
        }
        zpl
    }
}

/// The per-element fragments of a document, in element order.
pub open spec fn spec_fragments(es: Seq<Element>) -> Seq<Seq<char>> {
    es.map(|_i: int, e: Element| spec_element_zpl(e))
}

/// Concatenation of a sequence of fragments, in order.
pub open spec fn spec_concat(fs: Seq<Seq<char>>) -> Seq<char>
    decreases fs.len(),
{
    if fs.len() == 0 {
        Seq::empty()
    } else {
        spec_concat(fs.drop_last()) + fs.last()
    }
}

/// Order preservation: a document of `n` elements serializes to exactly `n`
/// fragments, one per element and in element order, concatenated inside one
/// envelope with nothing reordered, dropped or added.
pub proof fn lemma_fragments_in_order(es: Seq<Element>)
    ensures
        spec_fragments(es).len() == es.len(),
        spec_elements_zpl(es) == spec_concat(spec_fragments(es)),
        spec_label_zpl(es) == "^XA"@ + spec_concat(spec_fragments(es)) + "^XZ"@,
    decreases es.len(),
{
    if es.len() == 0 {
    } else {
        lemma_fragments_in_order(es.drop_last());
        assert(spec_fragments(es).drop_last() =~= spec_fragments(es.drop_last()));
        assert(spec_fragments(es).last() == spec_element_zpl(es.last()));
    }
}

/// Determinism: the serialized text is a function of the element sequence
/// alone — no hidden state — so two labels holding the same elements
/// serialize to identical text.
pub proof fn lemma_serialization_deterministic(a: Seq<Element>, b: Seq<Element>)
    requires
        a == b,
    ensures
        spec_label_zpl(a) == spec_label_zpl(b),
{
}

/// A document with no elements serializes to the bare envelope: the begin
/// directive immediately followed by the end directive.
pub proof fn lemma_empty_document(es: Seq<Element>)
    requires
        es.len() == 0,
    ensures
        spec_label_zpl(es) == "^XA"@ + "^XZ"@,
{
    assert(spec_elements_zpl(es) =~= Seq::<char>::empty());
    assert(spec_label_zpl(es) =~= "^XA"@ + "^XZ"@);
}

} // verus!
