use graphite_editor::byte_order::{native_byte_order, ByteOrder};
use graphite_editor::layer_panel::{
    thumbnail_svg, LayerDataTypeDiscriminant, LayerInfo, LayerMetadata, LayerPanelEntry, RawBuffer, ThumbnailParts,
};

#[test]
fn layer_metadata_new_is_unselected() {
    assert_eq!(LayerMetadata::new(true), LayerMetadata { selected: false, expanded: true });
    assert_eq!(LayerMetadata::new(false), LayerMetadata { selected: false, expanded: false });
}

#[test]
fn raw_buffer_little_endian_layout() {
    let buffer = RawBuffer::from_words_in_order(&vec![0x0102_0304_0506_0708, 0xff], ByteOrder::LittleEndian);
    assert_eq!(buffer.bytes(), &vec![8, 7, 6, 5, 4, 3, 2, 1, 0xff, 0, 0, 0, 0, 0, 0, 0]);
    assert_eq!(buffer.len(), 16);
}

#[test]
fn raw_buffer_big_endian_layout() {
    let buffer = RawBuffer::from_words_in_order(&vec![0x0102_0304_0506_0708], ByteOrder::BigEndian);
    assert_eq!(buffer.bytes(), &vec![1, 2, 3, 4, 5, 6, 7, 8]);
}

#[test]
fn raw_buffer_round_trip() {
    let words = vec![0u64, 1, u64::MAX, 0x1234_5678_9abc_def0];
    for order in [ByteOrder::LittleEndian, ByteOrder::BigEndian] {
        let buffer = RawBuffer::from_words_in_order(&words, order);
        let back: Vec<u64> = buffer
            .bytes()
            .chunks(8)
            .map(|chunk| {
                let bytes: [u8; 8] = chunk.try_into().unwrap();
                match order {
                    ByteOrder::LittleEndian => u64::from_le_bytes(bytes),
                    ByteOrder::BigEndian => u64::from_be_bytes(bytes),
                }
            })
            .collect();
        assert_eq!(back, words);
    }
}

#[test]
fn raw_buffer_from_uses_memory_layout() {
    let words = vec![0x1122_3344_5566_7788u64, 42];
    let expected: Vec<u8> = words.iter().flat_map(|word| word.to_ne_bytes()).collect();
    let buffer = RawBuffer::from(words.clone());
    assert_eq!(buffer.bytes(), &expected);
    assert_eq!(buffer, RawBuffer::from_words_in_order(&words, native_byte_order()));
    assert_eq!(RawBuffer::from(Vec::new()).len(), 0);
    assert_eq!(RawBuffer::from_bytes(vec![1, 2]).bytes(), &vec![1, 2]);
}

#[test]
fn native_byte_order_matches_target() {
    let expected = if 1u64.to_ne_bytes()[0] == 1 { ByteOrder::LittleEndian } else { ByteOrder::BigEndian };
    assert_eq!(native_byte_order(), expected);
}

fn parts() -> ThumbnailParts {
    ThumbnailParts {
        x_min: "0".to_string(),
        y_min: "-1.5".to_string(),
        width: "10".to_string(),
        height: "20".to_string(),
        svg_defs: "<linearGradient/>".to_string(),
        transform: "1,0,0,1,0,0".to_string(),
        body: "<path d=\"M0 0\"/>".to_string(),
    }
}

#[test]
fn thumbnail_svg_layout() {
    assert_eq!(
        thumbnail_svg(&parts()),
        r#"<svg xmlns="http://www.w3.org/2000/svg" viewBox="0 -1.5 10 20"><defs><linearGradient/></defs><g transform="matrix(1,0,0,1,0,0)"><path d="M0 0"/></g></svg>"#
    );
}

#[test]
fn layer_panel_entry_from_layer() {
    let metadata = LayerMetadata { selected: true, expanded: false };
    let named = LayerInfo { name: Some("Circle".to_string()), visible: false, layer_type: LayerDataTypeDiscriminant::Shape };
    let entry = LayerPanelEntry::new(&metadata, &named, vec![1, 2, 3], &parts());
    assert_eq!(entry.name, "Circle");
    assert!(!entry.visible);
    assert_eq!(entry.layer_type, LayerDataTypeDiscriminant::Shape);
    assert_eq!(entry.layer_metadata, metadata);
    assert_eq!(entry.path, vec![1, 2, 3]);
    assert_eq!(entry.thumbnail, thumbnail_svg(&parts()));

    let unnamed = LayerInfo { name: None, visible: true, layer_type: LayerDataTypeDiscriminant::Folder };
    let entry = LayerPanelEntry::new(&metadata, &unnamed, vec![], &parts());
    assert_eq!(entry.name, "");
    assert!(entry.visible);
}
