use graphite_editor::line_tool::{
    LineOptions, LineOptionsUpdate, LineTool, LineToolContext, LineToolFsmState, LineToolMessage,
    LineToolMessageDiscriminant, LineToolResponse,
};
use graphite_editor::tool::{
    DocumentMessage, FrontendMessage, Key, MouseCursorIcon, MouseMotion, ToolMessage, ToolType,
    DEFAULT_LINE_WEIGHT_BITS,
};

fn no_context() -> LineToolContext {
    LineToolContext { new_layer_path: None, within_drag_threshold: false }
}

fn start_context(path: Vec<u64>) -> LineToolContext {
    LineToolContext { new_layer_path: Some(path), within_drag_threshold: false }
}

fn redraw() -> ToolMessage {
    ToolMessage::Line(LineToolMessage::Redraw { center: Key::Alt, lock_angle: Key::Control, snap_angle: Key::Shift })
}

fn labels(response: &LineToolResponse) -> Vec<(String, bool)> {
    match response {
        LineToolResponse::Frontend(FrontendMessage::UpdateInputHints { hint_data }) => {
            hint_data.0.iter().flat_map(|group| group.0.iter().map(|info| (info.label.clone(), info.plus))).collect()
        }
        other => panic!("not a hint update: {:?}", other),
    }
}

fn count_transactions(responses: &[LineToolResponse]) -> i64 {
    responses
        .iter()
        .map(|response| match response {
            LineToolResponse::Document(DocumentMessage::StartTransaction) => 1,
            LineToolResponse::Document(DocumentMessage::CommitTransaction) => -1,
            LineToolResponse::Document(DocumentMessage::AbortTransaction) => -1,
            _ => 0,
        })
        .sum()
}

#[test]
fn line_default_weight_is_five_px() {
    assert_eq!(f64::from_bits(DEFAULT_LINE_WEIGHT_BITS), 5.0);
    assert_eq!(LineOptions::default().line_weight_bits, DEFAULT_LINE_WEIGHT_BITS);
    let tool = LineTool::new();
    assert_eq!(tool.fsm_state(), LineToolFsmState::Ready);
    assert_eq!(tool.layer_path(), None);
    assert_eq!(tool.options().line_weight_bits, DEFAULT_LINE_WEIGHT_BITS);
}

#[test]
fn line_drag_start_opens_transaction_and_adds_line() {
    let mut tool = LineTool::new();
    let mut responses = Vec::new();
    let message = ToolMessage::Line(LineToolMessage::DragStart);
    assert!(tool.needs_new_layer_path(&message));
    tool.process_message(message, start_context(vec![4, 2]), &mut responses);
    assert_eq!(tool.fsm_state(), LineToolFsmState::Drawing);
    assert_eq!(tool.layer_path(), Some(vec![4, 2]));
    assert_eq!(responses.len(), 6);
    assert_eq!(responses[0], LineToolResponse::StartSnapping);
    assert_eq!(responses[1], LineToolResponse::Document(DocumentMessage::StartTransaction));
    assert_eq!(responses[2], LineToolResponse::Document(DocumentMessage::DeselectAllLayers));
    assert_eq!(responses[3], LineToolResponse::AddLine { path: vec![4, 2], weight_bits: DEFAULT_LINE_WEIGHT_BITS });
    assert_eq!(
        labels(&responses[4]),
        vec![("Snap 15°".to_string(), false), ("From Center".to_string(), false), ("Lock Angle".to_string(), false)]
    );
    assert_eq!(responses[5], LineToolResponse::Frontend(FrontendMessage::UpdateMouseCursor { cursor: MouseCursorIcon::Crosshair }));
}

#[test]
fn line_redraw_updates_transform_of_drawn_layer() {
    let mut tool = LineTool::new();
    let mut responses = Vec::new();
    tool.process_message(ToolMessage::Line(LineToolMessage::DragStart), start_context(vec![9]), &mut responses);
    responses.clear();
    tool.process_message(redraw(), no_context(), &mut responses);
    assert_eq!(
        responses,
        vec![
            LineToolResponse::SnapDragEnd,
            LineToolResponse::UpdateTransform { path: vec![9], lock_angle: Key::Control, snap_angle: Key::Shift, center: Key::Alt },
        ]
    );
    assert_eq!(tool.fsm_state(), LineToolFsmState::Drawing);
    assert_eq!(tool.layer_path(), Some(vec![9]));
}

#[test]
fn line_drag_stop_commits_beyond_threshold() {
    let mut tool = LineTool::new();
    let mut responses = Vec::new();
    tool.process_message(ToolMessage::Line(LineToolMessage::DragStart), start_context(vec![1]), &mut responses);
    responses.clear();
    let stop = LineToolContext { new_layer_path: None, within_drag_threshold: false };
    tool.process_message(ToolMessage::Line(LineToolMessage::DragStop), stop, &mut responses);
    assert_eq!(tool.fsm_state(), LineToolFsmState::Ready);
    assert_eq!(tool.layer_path(), None);
    assert_eq!(responses[0], LineToolResponse::SnapDragEnd);
    assert_eq!(responses[1], LineToolResponse::StopSnapping);
    assert_eq!(responses[2], LineToolResponse::Document(DocumentMessage::CommitTransaction));
    assert_eq!(labels(&responses[3]).len(), 4);
    assert_eq!(responses.len(), 5);
}

#[test]
fn line_drag_stop_within_threshold_aborts() {
    let mut tool = LineTool::new();
    let mut responses = Vec::new();
    tool.process_message(ToolMessage::Line(LineToolMessage::DragStart), start_context(vec![1]), &mut responses);
    responses.clear();
    let stop = LineToolContext { new_layer_path: None, within_drag_threshold: true };
    tool.process_message(ToolMessage::Line(LineToolMessage::DragStop), stop, &mut responses);
    assert_eq!(responses[2], LineToolResponse::Document(DocumentMessage::AbortTransaction));
}

#[test]
fn line_abort_returns_to_ready() {
    let mut tool = LineTool::new();
    let mut responses = Vec::new();
    tool.process_message(ToolMessage::Line(LineToolMessage::DragStart), start_context(vec![3]), &mut responses);
    responses.clear();
    tool.process_message(ToolMessage::Line(LineToolMessage::Abort), no_context(), &mut responses);
    assert_eq!(tool.fsm_state(), LineToolFsmState::Ready);
    assert_eq!(tool.layer_path(), None);
    assert_eq!(responses[0], LineToolResponse::StopSnapping);
    assert_eq!(responses[1], LineToolResponse::Document(DocumentMessage::AbortTransaction));
    assert_eq!(responses.len(), 4);
    // An abort while ready does nothing at all.
    responses.clear();
    tool.process_message(ToolMessage::Line(LineToolMessage::Abort), no_context(), &mut responses);
    assert!(responses.is_empty());
    assert_eq!(tool.fsm_state(), LineToolFsmState::Ready);
}

#[test]
fn line_transactions_balance_over_a_session() {
    let mut tool = LineTool::new();
    let mut responses = Vec::new();
    let steps = vec![
        (ToolMessage::Line(LineToolMessage::DragStart), start_context(vec![1])),
        (redraw(), no_context()),
        (ToolMessage::Line(LineToolMessage::DragStart), no_context()),
        (ToolMessage::Line(LineToolMessage::DragStop), no_context()),
        (ToolMessage::Line(LineToolMessage::DragStop), no_context()),
        (ToolMessage::Line(LineToolMessage::DragStart), start_context(vec![2])),
        (ToolMessage::Line(LineToolMessage::Abort), no_context()),
    ];
    for (message, context) in steps {
        let was_drawing = (tool.fsm_state() == LineToolFsmState::Drawing) as i64;
        let before = responses.len();
        tool.process_message(message, context, &mut responses);
        let now_drawing = (tool.fsm_state() == LineToolFsmState::Drawing) as i64;
        assert_eq!(count_transactions(&responses[before..]), now_drawing - was_drawing);
    }
    assert_eq!(count_transactions(&responses), 0);
}

#[test]
fn line_unlisted_messages_are_ignored() {
    let mut tool = LineTool::new();
    let mut responses = Vec::new();
    for message in [LineToolMessage::DragStop, LineToolMessage::Abort] {
        assert!(!tool.actions().contains(&message.discriminant()));
        tool.process_message(ToolMessage::Line(message), no_context(), &mut responses);
    }
    tool.process_message(redraw(), no_context(), &mut responses);
    assert!(responses.is_empty());
    assert_eq!(tool.fsm_state(), LineToolFsmState::Ready);
    tool.process_message(ToolMessage::Line(LineToolMessage::DragStart), start_context(vec![5]), &mut responses);
    responses.clear();
    assert!(!tool.needs_new_layer_path(&ToolMessage::Line(LineToolMessage::DragStart)));
    tool.process_message(ToolMessage::Line(LineToolMessage::DragStart), no_context(), &mut responses);
    tool.process_message(ToolMessage::Other, no_context(), &mut responses);
    assert!(responses.is_empty());
    assert_eq!(tool.layer_path(), Some(vec![5]));
}

#[test]
fn line_options_update_changes_only_the_weight() {
    let mut tool = LineTool::new();
    let mut responses = Vec::new();
    let weight = 12.5f64.to_bits();
    tool.process_message(ToolMessage::Line(LineToolMessage::UpdateOptions(LineOptionsUpdate::LineWeight(weight))), no_context(), &mut responses);
    assert!(responses.is_empty());
    assert_eq!(tool.options().line_weight_bits, weight);
    tool.process_message(ToolMessage::Line(LineToolMessage::DragStart), start_context(vec![8]), &mut responses);
    assert_eq!(responses[3], LineToolResponse::AddLine { path: vec![8], weight_bits: weight });
}

#[test]
fn line_hints_and_cursor_requests() {
    let mut tool = LineTool::new();
    let mut responses = Vec::new();
    tool.process_message(ToolMessage::UpdateHints, no_context(), &mut responses);
    tool.process_message(ToolMessage::UpdateCursor, no_context(), &mut responses);
    assert_eq!(responses.len(), 2);
    assert_eq!(
        labels(&responses[0]),
        vec![
            ("Draw Line".to_string(), false),
            ("Snap 15°".to_string(), true),
            ("From Center".to_string(), true),
            ("Lock Angle".to_string(), true),
        ]
    );
    match &responses[0] {
        LineToolResponse::Frontend(FrontendMessage::UpdateInputHints { hint_data }) => {
            let first = &hint_data.0[0].0[0];
            assert_eq!(first.mouse, Some(MouseMotion::LmbDrag));
            assert!(first.key_groups.is_empty());
            assert_eq!(hint_data.0[0].0[1].key_groups[0].0, vec![Key::Shift]);
            assert_eq!(hint_data.0[0].0[2].key_groups[0].0, vec![Key::Alt]);
            assert_eq!(hint_data.0[0].0[3].key_groups[0].0, vec![Key::Control]);
        }
        _ => unreachable!(),
    }
    assert_eq!(responses[1], LineToolResponse::Frontend(FrontendMessage::UpdateMouseCursor { cursor: MouseCursorIcon::Crosshair }));
    assert_eq!(tool.fsm_state(), LineToolFsmState::Ready);
}

#[test]
fn line_actions_per_state() {
    let mut tool = LineTool::new();
    assert_eq!(tool.actions(), vec![LineToolMessageDiscriminant::DragStart]);
    let mut responses = Vec::new();
    tool.process_message(ToolMessage::Line(LineToolMessage::DragStart), start_context(vec![1]), &mut responses);
    assert_eq!(
        tool.actions(),
        vec![LineToolMessageDiscriminant::DragStop, LineToolMessageDiscriminant::Redraw, LineToolMessageDiscriminant::Abort]
    );
}

#[test]
fn line_metadata_and_properties() {
    let tool = LineTool::default();
    assert_eq!(tool.icon_name(), "VectorLineTool");
    assert_eq!(tool.tooltip(), "Line Tool");
    assert_eq!(tool.tool_type(), ToolType::Line);
    let map = tool.event_to_message_map();
    assert_eq!(map.document_dirty, None);
    assert_eq!(map.selection_changed, None);
    assert_eq!(map.tool_abort, Some(ToolMessage::Line(LineToolMessage::Abort)));
    let input = tool.properties();
    assert_eq!(input.unit, " px");
    assert_eq!(input.label, "Weight");
    assert_eq!(input.value_bits.map(f64::from_bits), Some(5.0));
    assert!(!input.is_integer);
    assert_eq!(input.min_bits.map(f64::from_bits), Some(0.0));
    let mut edited = input.clone();
    edited.value_bits = Some(7.0f64.to_bits());
    assert_eq!(
        LineTool::weight_update_message(&edited),
        ToolMessage::Line(LineToolMessage::UpdateOptions(LineOptionsUpdate::LineWeight(7.0f64.to_bits())))
    );
    assert_eq!(ToolMessage::from(LineToolMessage::DragStop), ToolMessage::Line(LineToolMessage::DragStop));
}
