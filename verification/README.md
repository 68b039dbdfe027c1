# graphite-editor (verified core)

The layer panel's data and the line and freehand drawing tools of the editor, written in
Verus.

- `src/byte_order.rs`: laying 64-bit words out as bytes, with the round-trip law.
- `src/layer_panel.rs`: `RawBuffer`, `LayerMetadata`, `LayerPanelEntry` and the layer
  thumbnail document.
- `src/tool.rs`: what both tools share: keys, hints, cursors, document requests, the tool
  message type, the options bar's number field.
- `src/line_tool.rs`, `src/freehand_tool.rs`: each tool as a state machine from state and
  message to next state and an ordered list of responses, with its invariant and laws.
- `app/`: the unverified host side: serde forms of the library's types and the
  floating-point geometry (transforms, drag distance, thumbnail numbers).
- `tests/`: concrete scenarios for the contracts and laws.
