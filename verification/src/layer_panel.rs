use vstd::prelude::*;
use crate::byte_order::{
    encode_words, lemma_words_round_trip, native_byte_order, native_order, word_from_bytes, words_to_bytes,
    ByteOrder,
};

verus! {

/// A flat byte buffer handed to the user interface, which reads it through its address
/// and length.
#[derive(Debug, Clone, PartialEq, Eq)]
pub struct RawBuffer(Vec<u8>);

impl View for RawBuffer {
    type V = Seq<u8>;

    closed spec fn view(&self) -> Seq<u8> {
        self.0@
    }
}

impl RawBuffer {
    /// The words laid out one after the other, each as its eight bytes in `order`.
    pub fn from_words_in_order(words: &Vec<u64>, order: ByteOrder) -> (buffer: Self)
        ensures
            buffer@ == words_to_bytes(words@, order),
    {
        RawBuffer(encode_words(words, order))
    }

    /// A buffer holding exactly `bytes`.
    pub fn from_bytes(bytes: Vec<u8>) -> (buffer: Self)
        ensures
            buffer@ == bytes@,
    {
        RawBuffer(bytes)
    }

    /// The bytes of the buffer.
    pub fn bytes(&self) -> (bytes: &Vec<u8>)
        ensures
            bytes@ == self@,
    {
        &self.0
    }

    /// The number of bytes in the buffer.
    pub fn len(&self) -> (len: usize)
        ensures
            len == self@.len(),
    {
        self.0.len()
    }
}

impl From<Vec<u64>> for RawBuffer {
    /// Reinterprets the words as the bytes they occupy in memory: each word becomes its
    /// eight bytes in the byte order of the machine running the code.
    fn from(words: Vec<u64>) -> (buffer: Self)
        ensures
            buffer@ == words_to_bytes(words@, native_order()),
            buffer@.len() == 8 * words@.len(),
            forall|i: int|
                0 <= i < words@.len() ==> word_from_bytes(
                    #[trigger] buffer@.subrange(8 * i, 8 * i + 8),
                    native_order(),
                ) == words@[i],
    {
        let order = native_byte_order();
        proof {
            lemma_words_round_trip(words@, order);
        }
        RawBuffer(encode_words(&words, order))
    }
}

impl vstd::std_specs::convert::FromSpecImpl<Vec<u64>> for RawBuffer {
    /// The bytes depend on the byte order of the hardware, which is only known in spec code
    /// through vstd's `endianness`, and a buffer cannot be built in spec code; so no value is
    /// given here, and `from` states its result, the words in the native byte order, itself.
    open spec fn obeys_from_spec() -> bool {
        false
    }

    open spec fn from_spec(words: Vec<u64>) -> RawBuffer {
        arbitrary()
    }
}

/// Per-layer state of the layer panel that the document keeps for the user interface.
#[derive(Debug, Clone, Copy, PartialEq, Eq, Structural)]
pub struct LayerMetadata {
    pub selected: bool,
    pub expanded: bool,
}

impl LayerMetadata {
    /// A fresh entry is never selected; whether it starts expanded is up to the caller.
    pub fn new(expanded: bool) -> (metadata: Self)
        ensures
            metadata.selected == false,
            metadata.expanded == expanded,
    {
        Self { selected: false, expanded }
    }
}

/// The kinds of layer a document holds.
#[derive(Debug, Clone, Copy, PartialEq, Eq, Structural)]
pub enum LayerDataTypeDiscriminant {
    Folder,
    Shape,
    Text,
    Image,
}

/// What the layer panel reads from a layer: its name, if it has one, whether it is visible,
/// and its kind.
#[derive(Debug, Clone, PartialEq, Eq)]
pub struct LayerInfo {
    pub name: Option<String>,
    pub visible: bool,
    pub layer_type: LayerDataTypeDiscriminant,
}

/// The rendered pieces of a layer's thumbnail: the four numbers of the view box (left, top,
/// width and height of the layer's bounding box), already formatted; the SVG definitions the
/// rendering needs; the six entries of the layer's transform, formatted and joined with
/// commas; and the rendered SVG of the layer itself.
#[derive(Debug, Clone, PartialEq, Eq)]
pub struct ThumbnailParts {
    pub x_min: String,
    pub y_min: String,
    pub width: String,
    pub height: String,
    pub svg_defs: String,
    pub transform: String,
    pub body: String,
}

pub struct ThumbnailPartsView {
    pub x_min: Seq<char>,
    pub y_min: Seq<char>,
    pub width: Seq<char>,
    pub height: Seq<char>,
    pub svg_defs: Seq<char>,
    pub transform: Seq<char>,
    pub body: Seq<char>,
}

impl View for ThumbnailParts {
    type V = ThumbnailPartsView;

    open spec fn view(&self) -> ThumbnailPartsView {
        ThumbnailPartsView {
            x_min: self.x_min@,
            y_min: self.y_min@,
            width: self.width@,
            height: self.height@,
            svg_defs: self.svg_defs@,
            transform: self.transform@,
            body: self.body@,
        }
    }
}

/// The thumbnail document: an SVG whose view box is the layer's bounding box, holding the
/// definitions and, under the layer's transform, the rendered layer.
pub open spec fn thumbnail_svg_spec(parts: ThumbnailPartsView) -> Seq<char> {
    "<svg xmlns=\"http://www.w3.org/2000/svg\" viewBox=\""@ + parts.x_min + " "@ + parts.y_min + " "@
        + parts.width + " "@ + parts.height + "\"><defs>"@ + parts.svg_defs
        + "</defs><g transform=\"matrix("@ + parts.transform + ")\">"@ + parts.body + "</g></svg>"@
}

/// Assembles the thumbnail document from its rendered pieces.
pub fn thumbnail_svg(parts: &ThumbnailParts) -> (svg: String)
    ensures
        svg@ == thumbnail_svg_spec(parts@),
{
    let mut svg = String::from_str("<svg xmlns=\"http://www.w3.org/2000/svg\" viewBox=\"");
    svg.append(parts.x_min.as_str());
    svg.append(" ");
    svg.append(parts.y_min.as_str());
    svg.append(" ");
    svg.append(parts.width.as_str());
    svg.append(" ");
    svg.append(parts.height.as_str());
    svg.append("\"><defs>");
    svg.append(parts.svg_defs.as_str());
    svg.append("</defs><g transform=\"matrix(");
    svg.append(parts.transform.as_str());
    svg.append(")\">");
    svg.append(parts.body.as_str());
    svg.append("</g></svg>");
    svg
}

/// One row of the layer panel.
#[derive(Debug, Clone, PartialEq, Eq)]
pub struct LayerPanelEntry {
    pub name: String,
    pub visible: bool,
    pub layer_type: LayerDataTypeDiscriminant,
    pub layer_metadata: LayerMetadata,
    pub path: Vec<u64>,
    pub thumbnail: String,
}

pub struct LayerPanelEntryView {
    pub name: Seq<char>,
    pub visible: bool,
    pub layer_type: LayerDataTypeDiscriminant,
    pub layer_metadata: LayerMetadata,
    pub path: Seq<u64>,
    pub thumbnail: Seq<char>,
}

impl View for LayerPanelEntry {
    type V = LayerPanelEntryView;

    open spec fn view(&self) -> LayerPanelEntryView {
        LayerPanelEntryView {
            name: self.name@,
            visible: self.visible,
            layer_type: self.layer_type,
            layer_metadata: self.layer_metadata,
            path: self.path@,
            thumbnail: self.thumbnail@,
        }
    }
}

impl LayerPanelEntry {
    /// The panel row of the layer at `path`: its name, or the empty name when it has none;
    /// its visibility and kind; the panel's metadata for it; and its thumbnail.
    pub fn new(
        layer_metadata: &LayerMetadata,
        layer: &LayerInfo,
        path: Vec<u64>,
        thumbnail: &ThumbnailParts,
    ) -> (entry: Self)
        ensures
            entry@ == (LayerPanelEntryView {
                name: match layer.name {
                    Some(name) => name@,
                    None => Seq::empty(),
                },
                visible: layer.visible,
                layer_type: layer.layer_type,
                layer_metadata: *layer_metadata,
                path: path@,
                thumbnail: thumbnail_svg_spec(thumbnail@),
            }),
    {
        let name = match &layer.name {
            Some(name) => name.clone(),
            None => String::new(),
        };
        LayerPanelEntry {
            name,
            visible: layer.visible,
            layer_type: layer.layer_type,
            layer_metadata: *layer_metadata,
            path,
            thumbnail: thumbnail_svg(thumbnail),
        }
    }
}

/// The thumbnail always draws the rendered layer under the layer's transform, whatever the
/// definitions are: it is a head made of the view box and the definitions alone, followed by
/// the group that applies the transform to the rendered layer.
pub proof fn law_thumbnail_applies_transform(parts: ThumbnailPartsView)
    ensures
        ({
            let head = "<svg xmlns=\"http://www.w3.org/2000/svg\" viewBox=\""@ + parts.x_min + " "@
                + parts.y_min + " "@ + parts.width + " "@ + parts.height + "\"><defs>"@ + parts.svg_defs;
            let group = "</defs><g transform=\"matrix("@ + parts.transform + ")\">"@ + parts.body + "</g></svg>"@;
            thumbnail_svg_spec(parts) == head + group
        }),
{
    let head = "<svg xmlns=\"http://www.w3.org/2000/svg\" viewBox=\""@ + parts.x_min + " "@ + parts.y_min
        + " "@ + parts.width + " "@ + parts.height + "\"><defs>"@ + parts.svg_defs;
    let group = "</defs><g transform=\"matrix("@ + parts.transform + ")\">"@ + parts.body + "</g></svg>"@;
    assert(thumbnail_svg_spec(parts) =~= head + group);
}

/// Two thumbnails that differ only in their definitions end the same way: the group applying
/// the transform to the rendered layer does not depend on the definitions.
pub proof fn law_thumbnail_group_independent_of_defs(parts: ThumbnailPartsView, other_defs: Seq<char>)
    ensures
        ({
            let other = ThumbnailPartsView { svg_defs: other_defs, ..parts };
            let group = "</defs><g transform=\"matrix("@ + parts.transform + ")\">"@ + parts.body + "</g></svg>"@;
            let a = thumbnail_svg_spec(parts);
            let b = thumbnail_svg_spec(other);
            &&& a.subrange(a.len() - group.len(), a.len() as int) == group
            &&& b.subrange(b.len() - group.len(), b.len() as int) == group
        }),
{
    let other = ThumbnailPartsView { svg_defs: other_defs, ..parts };
    law_thumbnail_applies_transform(parts);
    law_thumbnail_applies_transform(other);
    let group = "</defs><g transform=\"matrix("@ + parts.transform + ")\">"@ + parts.body + "</g></svg>"@;
    let a = thumbnail_svg_spec(parts);
    let b = thumbnail_svg_spec(other);
    assert(a.subrange(a.len() - group.len(), a.len() as int) =~= group);
    assert(b.subrange(b.len() - group.len(), b.len() as int) =~= group);
}

} // verus!
