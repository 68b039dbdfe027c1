use graphite_editor::freehand_tool::{
    FreehandOptions, FreehandTool, FreehandToolContext, FreehandToolFsmState, FreehandToolMessage,
    FreehandToolMessageDiscriminant, FreehandToolMessageOptionsUpdate, FreehandToolResponse,
};
use graphite_editor::tool::{
    DocumentMessage, FrontendMessage, MouseCursorIcon, MouseMotion, ToolMessage, ToolType, DEFAULT_LINE_WEIGHT_BITS,
};

type Point = (f64, f64);

fn context(tool: &FreehandTool<Point>, message: &ToolMessage, path: Vec<u64>, position: Point) -> FreehandToolContext<Point> {
    FreehandToolContext {
        new_layer_path: if tool.needs_new_layer_path(message) { Some(path) } else { None },
        position,
        differs_from_last_point: tool.last_point() != Some(position),
    }
}

fn send(tool: &mut FreehandTool<Point>, message: FreehandToolMessage, position: Point, responses: &mut Vec<FreehandToolResponse<Point>>) {
    let message = ToolMessage::Freehand(message);
    let context = context(tool, &message, vec![10, 20], position);
    tool.process_message(message, context, responses);
}

fn polyline(points: Vec<Point>) -> FreehandToolResponse<Point> {
    FreehandToolResponse::AddPolyline { path: vec![10, 20], points, weight_bits: DEFAULT_LINE_WEIGHT_BITS }
}

#[test]
fn freehand_default_weight_is_five_px() {
    assert_eq!(f64::from_bits(FreehandOptions::default().line_weight_bits), 5.0);
    let tool: FreehandTool<Point> = FreehandTool::new();
    assert_eq!(tool.fsm_state(), FreehandToolFsmState::Ready);
    assert_eq!(tool.last_point(), None);
    assert_eq!(tool.layer_path(), None);
}

#[test]
fn freehand_drag_collects_distinct_points_and_commits() {
    let mut tool = FreehandTool::new();
    let mut responses = Vec::new();
    send(&mut tool, FreehandToolMessage::DragStart, (1.0, 1.0), &mut responses);
    assert_eq!(tool.fsm_state(), FreehandToolFsmState::Drawing);
    assert_eq!(responses[0], FreehandToolResponse::Document(DocumentMessage::StartTransaction));
    assert_eq!(responses[1], FreehandToolResponse::Document(DocumentMessage::DeselectAllLayers));
    assert_eq!(responses[2], polyline(vec![(1.0, 1.0)]));
    assert_eq!(responses[3], FreehandToolResponse::Frontend(FrontendMessage::UpdateInputHints { hint_data: graphite_editor::tool::HintData(vec![]) }));
    assert_eq!(responses[4], FreehandToolResponse::Frontend(FrontendMessage::UpdateMouseCursor { cursor: MouseCursorIcon::Default }));
    assert_eq!(responses.len(), 5);

    responses.clear();
    send(&mut tool, FreehandToolMessage::PointerMove, (1.0, 1.0), &mut responses);
    assert_eq!(responses, vec![FreehandToolResponse::DeleteLayer { path: vec![10, 20] }, polyline(vec![(1.0, 1.0)])]);
    responses.clear();
    send(&mut tool, FreehandToolMessage::PointerMove, (2.0, 3.0), &mut responses);
    assert_eq!(responses, vec![FreehandToolResponse::DeleteLayer { path: vec![10, 20] }, polyline(vec![(1.0, 1.0), (2.0, 3.0)])]);
    assert_eq!(tool.last_point(), Some((2.0, 3.0)));

    responses.clear();
    send(&mut tool, FreehandToolMessage::DragStop, (5.0, 5.0), &mut responses);
    assert_eq!(tool.fsm_state(), FreehandToolFsmState::Ready);
    assert_eq!(tool.last_point(), None);
    assert_eq!(tool.layer_path(), None);
    assert_eq!(responses[0], FreehandToolResponse::DeleteLayer { path: vec![10, 20] });
    assert_eq!(responses[1], polyline(vec![(1.0, 1.0), (2.0, 3.0)]));
    assert_eq!(responses[2], FreehandToolResponse::Document(DocumentMessage::CommitTransaction));
    assert_eq!(responses.len(), 5);
}

#[test]
fn freehand_single_point_aborts() {
    let mut tool = FreehandTool::new();
    let mut responses = Vec::new();
    send(&mut tool, FreehandToolMessage::DragStart, (1.0, 1.0), &mut responses);
    send(&mut tool, FreehandToolMessage::PointerMove, (1.0, 1.0), &mut responses);
    responses.clear();
    send(&mut tool, FreehandToolMessage::Abort, (1.0, 1.0), &mut responses);
    assert_eq!(responses[0], FreehandToolResponse::Document(DocumentMessage::AbortTransaction));
    assert_eq!(responses.len(), 3);
    assert_eq!(tool.fsm_state(), FreehandToolFsmState::Ready);
}

#[test]
fn freehand_abort_with_points_commits_them() {
    let mut tool = FreehandTool::new();
    let mut responses = Vec::new();
    send(&mut tool, FreehandToolMessage::DragStart, (0.0, 0.0), &mut responses);
    send(&mut tool, FreehandToolMessage::PointerMove, (4.0, 0.0), &mut responses);
    responses.clear();
    send(&mut tool, FreehandToolMessage::Abort, (4.0, 0.0), &mut responses);
    assert_eq!(responses[1], polyline(vec![(0.0, 0.0), (4.0, 0.0)]));
    assert_eq!(responses[2], FreehandToolResponse::Document(DocumentMessage::CommitTransaction));
    assert_eq!(tool.fsm_state(), FreehandToolFsmState::Ready);
    assert_eq!(tool.layer_path(), None);
}

#[test]
fn freehand_unlisted_messages_are_ignored() {
    let mut tool = FreehandTool::new();
    let mut responses = Vec::new();
    assert!(!tool.actions().contains(&FreehandToolMessageDiscriminant::PointerMove));
    send(&mut tool, FreehandToolMessage::PointerMove, (1.0, 2.0), &mut responses);
    send(&mut tool, FreehandToolMessage::DragStop, (1.0, 2.0), &mut responses);
    send(&mut tool, FreehandToolMessage::Abort, (1.0, 2.0), &mut responses);
    assert!(responses.is_empty());
    assert_eq!(tool.fsm_state(), FreehandToolFsmState::Ready);
    send(&mut tool, FreehandToolMessage::DragStart, (1.0, 2.0), &mut responses);
    responses.clear();
    assert!(!tool.actions().contains(&FreehandToolMessageDiscriminant::DragStart));
    send(&mut tool, FreehandToolMessage::DragStart, (7.0, 7.0), &mut responses);
    assert!(responses.is_empty());
    assert_eq!(tool.last_point(), Some((1.0, 2.0)));
}

#[test]
fn freehand_transactions_balance() {
    let mut tool = FreehandTool::new();
    let mut responses = Vec::new();
    let steps = [
        FreehandToolMessage::DragStart,
        FreehandToolMessage::PointerMove,
        FreehandToolMessage::DragStop,
        FreehandToolMessage::DragStop,
        FreehandToolMessage::DragStart,
        FreehandToolMessage::Abort,
    ];
    let mut x = 0.0;
    let mut open = 0i64;
    for message in steps {
        x += 1.0;
        send(&mut tool, message, (x, 0.0), &mut responses);
    }
    for response in &responses {
        match response {
            FreehandToolResponse::Document(DocumentMessage::StartTransaction) => open += 1,
            FreehandToolResponse::Document(DocumentMessage::CommitTransaction | DocumentMessage::AbortTransaction) => open -= 1,
            _ => {}
        }
        assert!(open == 0 || open == 1);
    }
    assert_eq!(open, 0);
}

#[test]
fn freehand_options_hints_and_metadata() {
    let mut tool: FreehandTool<Point> = FreehandTool::default();
    let mut responses = Vec::new();
    let weight = 2.0f64.to_bits();
    send(&mut tool, FreehandToolMessage::UpdateOptions(FreehandToolMessageOptionsUpdate::LineWeight(weight)), (0.0, 0.0), &mut responses);
    assert!(responses.is_empty());
    assert_eq!(tool.options().line_weight_bits, weight);
    tool.process_message(ToolMessage::UpdateHints, context(&tool, &ToolMessage::UpdateHints, vec![], (0.0, 0.0)), &mut responses);
    match &responses[0] {
        FreehandToolResponse::Frontend(FrontendMessage::UpdateInputHints { hint_data }) => {
            assert_eq!(hint_data.0.len(), 1);
            let info = &hint_data.0[0].0[0];
            assert_eq!(info.label, "Draw Polyline");
            assert_eq!(info.mouse, Some(MouseMotion::LmbDrag));
            assert!(!info.plus);
        }
        other => panic!("unexpected {:?}", other),
    }
    assert_eq!(tool.icon_name(), "VectorFreehandTool");
    assert_eq!(tool.tooltip(), "Freehand Tool");
    assert_eq!(tool.tool_type(), ToolType::Freehand);
    assert_eq!(tool.event_to_message_map().tool_abort, Some(ToolMessage::Freehand(FreehandToolMessage::Abort)));
    let input = tool.properties();
    assert_eq!(input.value_bits, Some(weight));
    assert_eq!(input.min_bits.map(f64::from_bits), Some(1.0));
    assert_eq!(
        FreehandTool::<Point>::weight_update_message(&input),
        ToolMessage::Freehand(FreehandToolMessage::UpdateOptions(FreehandToolMessageOptionsUpdate::LineWeight(weight)))
    );
    assert_eq!(
        tool.actions(),
        vec![FreehandToolMessageDiscriminant::DragStart, FreehandToolMessageDiscriminant::DragStop, FreehandToolMessageDiscriminant::Abort]
    );
}
