use vstd::prelude::*;
use crate::tool::{
    copy_path, hint, hint_view, single_group, DocumentMessage, FrontendMessage, FrontendMessageView,
    EventToMessageMap, HintData, HintInfo, HintInfoView, MouseCursorIcon, MouseMotion, NumberInput,
    NumberInputView, ToolMessage, ToolType, DEFAULT_LINE_WEIGHT_BITS,
};

verus! {

/// A change to the freehand tool's options.  The weight is the bit pattern of a double, in px.
#[derive(Debug, Clone, Copy, PartialEq, Eq, Structural)]
pub enum FreehandToolMessageOptionsUpdate {
    LineWeight(u64),
}

/// The messages of the freehand tool.
#[derive(Debug, Clone, Copy, PartialEq, Eq, Structural)]
pub enum FreehandToolMessage {
    Abort,
    DragStart,
    DragStop,
    PointerMove,
    UpdateOptions(FreehandToolMessageOptionsUpdate),
}

/// The kinds of freehand tool message, without their contents.
#[derive(Debug, Clone, Copy, PartialEq, Eq, Structural)]
pub enum FreehandToolMessageDiscriminant {
    Abort,
    DragStart,
    DragStop,
    PointerMove,
    UpdateOptions,
}

pub open spec fn freehand_message_kind(message: FreehandToolMessage) -> FreehandToolMessageDiscriminant {
    match message {
        FreehandToolMessage::Abort => FreehandToolMessageDiscriminant::Abort,
        FreehandToolMessage::DragStart => FreehandToolMessageDiscriminant::DragStart,
        FreehandToolMessage::DragStop => FreehandToolMessageDiscriminant::DragStop,
        FreehandToolMessage::PointerMove => FreehandToolMessageDiscriminant::PointerMove,
        FreehandToolMessage::UpdateOptions(_) => FreehandToolMessageDiscriminant::UpdateOptions,
    }
}

impl FreehandToolMessage {
    /// The kind of this message.
    pub fn discriminant(&self) -> (kind: FreehandToolMessageDiscriminant)
        ensures
            kind == freehand_message_kind(*self),
    {
        match self {
            FreehandToolMessage::Abort => FreehandToolMessageDiscriminant::Abort,
            FreehandToolMessage::DragStart => FreehandToolMessageDiscriminant::DragStart,
            FreehandToolMessage::DragStop => FreehandToolMessageDiscriminant::DragStop,
            FreehandToolMessage::PointerMove => FreehandToolMessageDiscriminant::PointerMove,
            FreehandToolMessage::UpdateOptions(_) => FreehandToolMessageDiscriminant::UpdateOptions,
        }
    }
}

/// The options of the freehand tool: the stroke weight, as the bit pattern of a double, in px.
#[derive(Debug, Clone, Copy, PartialEq, Eq, Structural)]
pub struct FreehandOptions {
    pub line_weight_bits: u64,
}

impl Default for FreehandOptions {
    fn default() -> (options: Self)
        ensures
            options.line_weight_bits == DEFAULT_LINE_WEIGHT_BITS,
    {
        FreehandOptions { line_weight_bits: DEFAULT_LINE_WEIGHT_BITS }
    }
}

/// The two states of the freehand tool.
#[derive(Debug, Clone, Copy, PartialEq, Eq, Structural)]
pub enum FreehandToolFsmState {
    Ready,
    Drawing,
}

impl Default for FreehandToolFsmState {
    fn default() -> (state: Self)
        ensures
            state == FreehandToolFsmState::Ready,
    {
        FreehandToolFsmState::Ready
    }
}

/// What the freehand tool remembers about the polyline being drawn: its points, in document
/// coordinates, the stroke weight it was started with, and the path of its layer.
#[derive(Debug, Clone, PartialEq, Eq)]
pub struct FreehandToolData<P> {
    pub points: Vec<P>,
    pub weight_bits: u64,
    pub path: Option<Vec<u64>>,
}

pub struct FreehandToolDataView<P> {
    pub points: Seq<P>,
    pub weight_bits: u64,
    pub path: Option<Seq<u64>>,
}

impl<P> View for FreehandToolData<P> {
    type V = FreehandToolDataView<P>;

    open spec fn view(&self) -> FreehandToolDataView<P> {
        FreehandToolDataView {
            points: self.points@,
            weight_bits: self.weight_bits,
            path: match self.path {
                Some(path) => Some(path@),
                None => None,
            },
        }
    }
}

impl<P> FreehandToolData<P> {
    /// No points, no layer, weight 0.
    pub fn new() -> (data: Self)
        ensures
            data@ == (FreehandToolDataView::<P> { points: Seq::empty(), weight_bits: 0, path: None }),
    {
        FreehandToolData { points: Vec::new(), weight_bits: 0, path: None }
    }
}

/// What the document and the input devices tell the freehand tool along with a message: the
/// path for a new layer, needed when a drag starts; the pointer position in document
/// coordinates; and whether that position differs from the last point of the polyline.
#[derive(Debug, Clone, PartialEq, Eq)]
pub struct FreehandToolContext<P> {
    pub new_layer_path: Option<Vec<u64>>,
    pub position: P,
    pub differs_from_last_point: bool,
}

pub struct FreehandToolContextView<P> {
    pub new_layer_path: Option<Seq<u64>>,
    pub position: P,
    pub differs_from_last_point: bool,
}

impl<P> View for FreehandToolContext<P> {
    type V = FreehandToolContextView<P>;

    open spec fn view(&self) -> FreehandToolContextView<P> {
        FreehandToolContextView {
            new_layer_path: match self.new_layer_path {
                Some(path) => Some(path@),
                None => None,
            },
            position: self.position,
            differs_from_last_point: self.differs_from_last_point,
        }
    }
}

/// What the freehand tool asks its host to do, in order.
#[derive(Debug, Clone, PartialEq, Eq)]
pub enum FreehandToolResponse<P> {
    Document(DocumentMessage),
    Frontend(FrontendMessage),
    /// Delete the layer at `path`: the preview of the polyline so far.
    DeleteLayer { path: Vec<u64> },
    /// Add a polyline layer at `path` through `points`, stroked with the primary color and
    /// this weight.
    AddPolyline { path: Vec<u64>, points: Vec<P>, weight_bits: u64 },
}

pub enum FreehandToolResponseView<P> {
    Document(DocumentMessage),
    Frontend(FrontendMessageView),
    DeleteLayer { path: Seq<u64> },
    AddPolyline { path: Seq<u64>, points: Seq<P>, weight_bits: u64 },
}

impl<P> View for FreehandToolResponse<P> {
    type V = FreehandToolResponseView<P>;

    open spec fn view(&self) -> FreehandToolResponseView<P> {
        match self {
            FreehandToolResponse::Document(message) => FreehandToolResponseView::Document(*message),
            FreehandToolResponse::Frontend(message) => FreehandToolResponseView::Frontend(message@),
            FreehandToolResponse::DeleteLayer { path } => FreehandToolResponseView::DeleteLayer { path: path@ },
            FreehandToolResponse::AddPolyline { path, points, weight_bits } => FreehandToolResponseView::AddPolyline {
                path: path@,
                points: points@,
                weight_bits: *weight_bits,
            },
        }
    }
}

pub open spec fn freehand_responses_view<P>(responses: Seq<FreehandToolResponse<P>>) -> Seq<FreehandToolResponseView<P>> {
    responses.map_values(|response: FreehandToolResponse<P>| response@)
}

fn push_response<P>(responses: &mut Vec<FreehandToolResponse<P>>, response: FreehandToolResponse<P>)
    ensures
        freehand_responses_view(final(responses)@) == freehand_responses_view(old(responses)@).push(response@),
{
    let ghost view = response@;
    responses.push(response);
    proof {
        assert(freehand_responses_view(responses@) =~= freehand_responses_view(old(responses)@).push(view));
    }
}

/// A copy of the points.
fn copy_points<P: Copy>(points: &Vec<P>) -> (copy: Vec<P>)
    ensures
        copy@ == points@,
{
    let mut copy: Vec<P> = Vec::new();
    let mut i: usize = 0;
    while i < points.len()
        invariant
            i <= points.len(),
            copy@ == points@.take(i as int),
        decreases points.len() - i,
    {
        copy.push(points[i]);
        proof {
            assert(points@.take(i + 1) =~= points@.take(i as int).push(points@[i as int]));
        }
        i = i + 1;
    }
    proof {
        assert(points@.take(points.len() as int) =~= points@);
    }
    copy
}

/// The preview removal: delete the layer of the polyline drawn so far.
pub open spec fn remove_preview_view<P>(data: FreehandToolDataView<P>) -> FreehandToolResponseView<P> {
    FreehandToolResponseView::DeleteLayer { path: data.path.unwrap() }
}

/// The polyline through the points collected so far, on the tool's layer, with its weight.
pub open spec fn add_polyline_view<P>(data: FreehandToolDataView<P>) -> FreehandToolResponseView<P> {
    FreehandToolResponseView::AddPolyline {
        path: data.path.unwrap(),
        points: data.points,
        weight_bits: data.weight_bits,
    }
}

/// Asks to delete the preview layer of the polyline.
pub fn remove_preview<P>(data: &FreehandToolData<P>) -> (response: FreehandToolResponse<P>)
    requires
        data.path is Some,
    ensures
        response@ == remove_preview_view(data@),
{
    match &data.path {
        Some(path) => FreehandToolResponse::DeleteLayer { path: copy_path(path) },
        None => {
            proof {
                assert(false);
            }
            FreehandToolResponse::DeleteLayer { path: Vec::new() }
        },
    }
}

/// Asks to add the polyline through the points collected so far.
pub fn add_polyline<P: Copy>(data: &FreehandToolData<P>) -> (response: FreehandToolResponse<P>)
    requires
        data.path is Some,
    ensures
        response@ == add_polyline_view(data@),
{
    let points = copy_points(&data.points);
    match &data.path {
        Some(path) => FreehandToolResponse::AddPolyline {
            path: copy_path(path),
            points,
            weight_bits: data.weight_bits,
        },
        None => {
            proof {
                assert(false);
            }
            FreehandToolResponse::DeleteLayer { path: Vec::new() }
        },
    }
}

/// The input hints of each state: dragging draws a polyline; nothing is hinted while drawing.
pub open spec fn freehand_hints(state: FreehandToolFsmState) -> Seq<Seq<HintInfoView>> {
    match state {
        FreehandToolFsmState::Ready => seq![
            seq![hint_view(None, Some(MouseMotion::LmbDrag), "Draw Polyline"@, false)],
        ],
        FreehandToolFsmState::Drawing => Seq::empty(),
    }
}

pub open spec fn freehand_hints_response<P>(state: FreehandToolFsmState) -> FreehandToolResponseView<P> {
    FreehandToolResponseView::Frontend(FrontendMessageView::UpdateInputHints { hint_data: freehand_hints(state) })
}

/// The freehand tool shows the default cursor in every state.
pub open spec fn freehand_cursor_response<P>(state: FreehandToolFsmState) -> FreehandToolResponseView<P> {
    FreehandToolResponseView::Frontend(FrontendMessageView::UpdateMouseCursor { cursor: MouseCursorIcon::Default })
}

/// The messages each state reacts to.
pub open spec fn freehand_actions(state: FreehandToolFsmState) -> Seq<FreehandToolMessageDiscriminant> {
    match state {
        FreehandToolFsmState::Ready => seq![
            FreehandToolMessageDiscriminant::DragStart,
            FreehandToolMessageDiscriminant::DragStop,
            FreehandToolMessageDiscriminant::Abort,
        ],
        FreehandToolFsmState::Drawing => seq![
            FreehandToolMessageDiscriminant::DragStop,
            FreehandToolMessageDiscriminant::PointerMove,
            FreehandToolMessageDiscriminant::Abort,
        ],
    }
}

/// Whether handling `event` in `state` creates a layer, and so needs a path for it.
pub open spec fn freehand_needs_new_layer_path(state: FreehandToolFsmState, event: ToolMessage) -> bool {
    state == FreehandToolFsmState::Ready && event == ToolMessage::Freehand(FreehandToolMessage::DragStart)
}

/// The responses that end a drag: a polyline of at least two points replaces its preview and
/// the transaction is committed; anything shorter is dropped by aborting the transaction.
pub open spec fn freehand_finish<P>(data: FreehandToolDataView<P>) -> Seq<FreehandToolResponseView<P>> {
    if data.points.len() >= 2 {
        seq![
            remove_preview_view(data),
            add_polyline_view(data),
            FreehandToolResponseView::Document(DocumentMessage::CommitTransaction),
        ]
    } else {
        seq![FreehandToolResponseView::Document(DocumentMessage::AbortTransaction)]
    }
}

/// The state machine of the freehand tool: the next state, the remembered polyline, and the
/// responses, for one message.
pub open spec fn freehand_transition<P>(
    state: FreehandToolFsmState,
    event: ToolMessage,
    data: FreehandToolDataView<P>,
    context: FreehandToolContextView<P>,
    options: FreehandOptions,
) -> (FreehandToolFsmState, FreehandToolDataView<P>, Seq<FreehandToolResponseView<P>>) {
    match event {
        ToolMessage::Freehand(message) => match (state, message) {
            (FreehandToolFsmState::Ready, FreehandToolMessage::DragStart) => {
                let next = FreehandToolDataView {
                    points: data.points.push(context.position),
                    weight_bits: options.line_weight_bits,
                    path: Some(context.new_layer_path.unwrap()),
                };
                (
                    FreehandToolFsmState::Drawing,
                    next,
                    seq![
                        FreehandToolResponseView::Document(DocumentMessage::StartTransaction),
                        FreehandToolResponseView::Document(DocumentMessage::DeselectAllLayers),
                        add_polyline_view(next),
                    ],
                )
            },
            (FreehandToolFsmState::Drawing, FreehandToolMessage::PointerMove) => {
                let next = if context.differs_from_last_point {
                    FreehandToolDataView { points: data.points.push(context.position), ..data }
                } else {
                    data
                };
                (FreehandToolFsmState::Drawing, next, seq![remove_preview_view(next), add_polyline_view(next)])
            },
            (FreehandToolFsmState::Drawing, FreehandToolMessage::DragStop)
            | (FreehandToolFsmState::Drawing, FreehandToolMessage::Abort) => (
                FreehandToolFsmState::Ready,
                FreehandToolDataView { points: Seq::empty(), path: None, ..data },
                freehand_finish(data),
            ),
            _ => (state, data, Seq::empty()),
        },
        _ => (state, data, Seq::empty()),
    }
}

impl FreehandToolFsmState {
    /// Handles one message: returns the next state, updates the remembered polyline and
    /// appends the responses, as `freehand_transition` says.
    pub fn transition<P: Copy>(
        self,
        event: ToolMessage,
        tool_data: &mut FreehandToolData<P>,
        context: FreehandToolContext<P>,
        tool_options: &FreehandOptions,
        responses: &mut Vec<FreehandToolResponse<P>>,
    ) -> (next: Self)
        requires
            self == FreehandToolFsmState::Drawing ==> old(tool_data).path is Some,
            freehand_needs_new_layer_path(self, event) ==> context.new_layer_path is Some,
        ensures
            next == freehand_transition(self, event, old(tool_data)@, context@, *tool_options).0,
            final(tool_data)@ == freehand_transition(self, event, old(tool_data)@, context@, *tool_options).1,
            freehand_responses_view(final(responses)@) == freehand_responses_view(old(responses)@)
                + freehand_transition(self, event, old(tool_data)@, context@, *tool_options).2,
    {
        let ghost before = freehand_responses_view(responses@);
        let ghost expected = freehand_transition(self, event, old(tool_data)@, context@, *tool_options);
        match event {
            ToolMessage::Freehand(message) => match (self, message) {
                (FreehandToolFsmState::Ready, FreehandToolMessage::DragStart) => {
                    push_response(responses, FreehandToolResponse::Document(DocumentMessage::StartTransaction));
                    push_response(responses, FreehandToolResponse::Document(DocumentMessage::DeselectAllLayers));
                    let path = match context.new_layer_path {
                        Some(path) => path,
                        None => {
                            proof {
                                assert(false);
                            }
                            Vec::new()
                        },
                    };
                    tool_data.path = Some(path);
                    tool_data.points.push(context.position);
                    tool_data.weight_bits = tool_options.line_weight_bits;
                    let polyline = add_polyline(tool_data);
                    push_response(responses, polyline);
                    proof {
                        assert(tool_data@ == expected.1);
                        assert(freehand_responses_view(responses@) =~= before + expected.2);
                    }
                    FreehandToolFsmState::Drawing
                },
                (FreehandToolFsmState::Drawing, FreehandToolMessage::PointerMove) => {
                    if context.differs_from_last_point {
                        tool_data.points.push(context.position);
                    }
                    proof {
                        assert(tool_data@ == expected.1);
                    }
                    let preview = remove_preview(tool_data);
                    push_response(responses, preview);
                    let polyline = add_polyline(tool_data);
                    push_response(responses, polyline);
                    proof {
                        assert(freehand_responses_view(responses@) =~= before + expected.2);
                    }
                    FreehandToolFsmState::Drawing
                },
                (FreehandToolFsmState::Drawing, FreehandToolMessage::DragStop)
                | (FreehandToolFsmState::Drawing, FreehandToolMessage::Abort) => {
                    if tool_data.points.len() >= 2 {
                        let preview = remove_preview(tool_data);
                        push_response(responses, preview);
                        let polyline = add_polyline(tool_data);
                        push_response(responses, polyline);
                        push_response(responses, FreehandToolResponse::Document(DocumentMessage::CommitTransaction));
                    } else {
                        push_response(responses, FreehandToolResponse::Document(DocumentMessage::AbortTransaction));
                    }
                    tool_data.path = None;
                    tool_data.points.clear();
                    proof {
                        assert(tool_data@ == expected.1);
                        assert(freehand_responses_view(responses@) =~= before + expected.2);
                    }
                    FreehandToolFsmState::Ready
                },
                _ => {
                    proof {
                        assert(freehand_responses_view(responses@) =~= before + Seq::empty());
                    }
                    self
                },
            },
            _ => {
                proof {
                    assert(freehand_responses_view(responses@) =~= before + Seq::empty());
                }
                self
            },
        }
    }

    /// The input hints of this state.
    pub fn hint_data(&self) -> (data: HintData)
        ensures
            data@ == freehand_hints(*self),
    {
        match self {
            FreehandToolFsmState::Ready => {
                let mut infos: Vec<HintInfo> = Vec::new();
                infos.push(hint(None, Some(MouseMotion::LmbDrag), "Draw Polyline", false));
                let ghost views = infos@.map_values(|info: HintInfo| info@);
                proof {
                    assert(views =~= freehand_hints(*self)[0]);
                }
                single_group(infos)
            },
            FreehandToolFsmState::Drawing => {
                let data = HintData(Vec::new());
                proof {
                    assert(data@ =~= freehand_hints(*self));
                }
                data
            },
        }
    }

    /// Asks the user interface to show the input hints of this state.
    pub fn update_hints<P>(&self, responses: &mut Vec<FreehandToolResponse<P>>)
        ensures
            freehand_responses_view(final(responses)@) == freehand_responses_view(old(responses)@).push(
                freehand_hints_response(*self),
            ),
    {
        let hint_data = self.hint_data();
        push_response(responses, FreehandToolResponse::Frontend(FrontendMessage::UpdateInputHints { hint_data }));
    }

    /// Asks the user interface to show the cursor of this state.
    pub fn update_cursor<P>(&self, responses: &mut Vec<FreehandToolResponse<P>>)
        ensures
            freehand_responses_view(final(responses)@) == freehand_responses_view(old(responses)@).push(
                freehand_cursor_response(*self),
            ),
    {
        push_response(
            responses,
            FreehandToolResponse::Frontend(FrontendMessage::UpdateMouseCursor { cursor: MouseCursorIcon::Default }),
        );
    }
}

/// The freehand tool: its state, the polyline being drawn and its options.
pub struct FreehandTool<P> {
    fsm_state: FreehandToolFsmState,
    data: FreehandToolData<P>,
    options: FreehandOptions,
}

pub struct FreehandToolView<P> {
    pub fsm_state: FreehandToolFsmState,
    pub data: FreehandToolDataView<P>,
    pub options: FreehandOptions,
}

impl<P> FreehandToolView<P> {
    /// While drawing, the tool holds the path of a layer and at least one point; when ready,
    /// it holds neither.
    pub open spec fn well_formed(self) -> bool {
        &&& (self.fsm_state == FreehandToolFsmState::Drawing) == (self.data.path is Some)
        &&& self.fsm_state == FreehandToolFsmState::Ready ==> self.data.points.len() == 0
        &&& self.fsm_state == FreehandToolFsmState::Drawing ==> self.data.points.len() >= 1
    }
}

impl<P> View for FreehandTool<P> {
    type V = FreehandToolView<P>;

    closed spec fn view(&self) -> FreehandToolView<P> {
        FreehandToolView { fsm_state: self.fsm_state, data: self.data@, options: self.options }
    }
}

/// One message handled by the whole tool: hint and cursor requests are answered from the
/// current state, an options update only changes the options, and every other message goes
/// through the state machine; when the state changes, the hints and the cursor of the new
/// state follow the machine's own responses.
pub open spec fn freehand_process<P>(
    tool: FreehandToolView<P>,
    message: ToolMessage,
    context: FreehandToolContextView<P>,
) -> (FreehandToolView<P>, Seq<FreehandToolResponseView<P>>) {
    match message {
        ToolMessage::UpdateHints => (tool, seq![freehand_hints_response(tool.fsm_state)]),
        ToolMessage::UpdateCursor => (tool, seq![freehand_cursor_response(tool.fsm_state)]),
        ToolMessage::Freehand(
            FreehandToolMessage::UpdateOptions(FreehandToolMessageOptionsUpdate::LineWeight(weight_bits)),
        ) => (FreehandToolView { options: FreehandOptions { line_weight_bits: weight_bits }, ..tool }, Seq::empty()),
        _ => {
            let (state, data, responses) = freehand_transition(
                tool.fsm_state,
                message,
                tool.data,
                context,
                tool.options,
            );
            let next = FreehandToolView { fsm_state: state, data, options: tool.options };
            if state != tool.fsm_state {
                (next, responses + seq![freehand_hints_response(state), freehand_cursor_response(state)])
            } else {
                (next, responses)
            }
        },
    }
}

/// A freehand tool that is ready to draw, holds no polyline, and has the default weight.
pub open spec fn freehand_tool_initial<P>() -> FreehandToolView<P> {
    FreehandToolView {
        fsm_state: FreehandToolFsmState::Ready,
        data: FreehandToolDataView { points: Seq::empty(), weight_bits: 0, path: None },
        options: FreehandOptions { line_weight_bits: DEFAULT_LINE_WEIGHT_BITS },
    }
}

impl<P> FreehandTool<P> {
    #[verifier::type_invariant]
    spec fn type_inv(self) -> bool {
        self@.well_formed()
    }
}

impl<P: Copy> FreehandTool<P> {
    /// A tool that is ready to draw, with the default options.
    pub fn new() -> (tool: Self)
        ensures
            tool@ == freehand_tool_initial::<P>(),
            tool@.well_formed(),
    {
        FreehandTool {
            fsm_state: FreehandToolFsmState::default(),
            data: FreehandToolData::new(),
            options: FreehandOptions::default(),
        }
    }

    /// Whether handling `message` now creates a layer, so that the caller has to supply a path
    /// for it in the context.
    pub fn needs_new_layer_path(&self, message: &ToolMessage) -> (needed: bool)
        ensures
            needed == freehand_needs_new_layer_path(self@.fsm_state, *message),
    {
        match (self.fsm_state, *message) {
            (FreehandToolFsmState::Ready, ToolMessage::Freehand(FreehandToolMessage::DragStart)) => true,
            _ => false,
        }
    }

    /// The last point of the polyline being drawn, if any.
    pub fn last_point(&self) -> (point: Option<P>)
        ensures
            point == (if self@.data.points.len() == 0 {
                None
            } else {
                Some(self@.data.points.last())
            }),
    {
        let len = self.data.points.len();
        if len == 0 {
            None
        } else {
            Some(self.data.points[len - 1])
        }
    }

    /// The current state.
    pub fn fsm_state(&self) -> (state: FreehandToolFsmState)
        ensures
            state == self@.fsm_state,
    {
        self.fsm_state
    }

    /// The current options.
    pub fn options(&self) -> (options: FreehandOptions)
        ensures
            options == self@.options,
    {
        self.options
    }

    /// The path of the layer being drawn, if the tool is drawing.
    pub fn layer_path(&self) -> (path: Option<Vec<u64>>)
        ensures
            path is Some == self@.data.path is Some,
            path is Some ==> path.unwrap()@ == self@.data.path.unwrap(),
    {
        match &self.data.path {
            Some(path) => Some(copy_path(path)),
            None => None,
        }
    }

    /// The kinds of message the current state reacts to.
    pub fn actions(&self) -> (actions: Vec<FreehandToolMessageDiscriminant>)
        ensures
            actions@ == freehand_actions(self@.fsm_state),
    {
        let mut actions: Vec<FreehandToolMessageDiscriminant> = Vec::new();
        match self.fsm_state {
            FreehandToolFsmState::Ready => {
                actions.push(FreehandToolMessageDiscriminant::DragStart);
                actions.push(FreehandToolMessageDiscriminant::DragStop);
                actions.push(FreehandToolMessageDiscriminant::Abort);
            },
            FreehandToolFsmState::Drawing => {
                actions.push(FreehandToolMessageDiscriminant::DragStop);
                actions.push(FreehandToolMessageDiscriminant::PointerMove);
                actions.push(FreehandToolMessageDiscriminant::Abort);
            },
        }
        proof {
            assert(actions@ =~= freehand_actions(self@.fsm_state));
        }
        actions
    }

    /// The tool wants an abort message when it is aborted from outside, and nothing on
    /// document or selection changes.
    pub fn event_to_message_map(&self) -> (map: EventToMessageMap)
        ensures
            map == (EventToMessageMap {
                document_dirty: None,
                tool_abort: Some(ToolMessage::Freehand(FreehandToolMessage::Abort)),
                selection_changed: None,
            }),
    {
        EventToMessageMap {
            document_dirty: None,
            tool_abort: Some(ToolMessage::from(FreehandToolMessage::Abort)),
            selection_changed: None,
        }
    }

    /// The name of the tool's icon.
    pub fn icon_name(&self) -> (name: String)
        ensures
            name@ == "VectorFreehandTool"@,
    {
        String::from_str("VectorFreehandTool")
    }

    /// The tool's tooltip.
    pub fn tooltip(&self) -> (tooltip: String)
        ensures
            tooltip@ == "Freehand Tool"@,
    {
        String::from_str("Freehand Tool")
    }

    /// Which tool this is.
    pub fn tool_type(&self) -> (tool_type: ToolType)
        ensures
            tool_type == ToolType::Freehand,
    {
        ToolType::Freehand
    }

    /// The options bar: a number field for the stroke weight, in px, not restricted to
    /// integers, with its lower bound.
    pub fn properties(&self) -> (input: NumberInput)
        ensures
            input@ == (NumberInputView {
                unit: " px"@,
                label: "Weight"@,
                value_bits: Some(self@.options.line_weight_bits),
                is_integer: false,
                min_bits: Some(0x3ff0_0000_0000_0000u64),
            }),
    {
        NumberInput {
            unit: String::from_str(" px"),
            label: String::from_str("Weight"),
            value_bits: Some(self.options.line_weight_bits),
            is_integer: false,
            min_bits: Some(0x3ff0_0000_0000_0000),
        }
    }

    /// The message the weight field sends when the user edits it.
    pub fn weight_update_message(input: &NumberInput) -> (message: ToolMessage)
        requires
            input.value_bits is Some,
        ensures
            message == ToolMessage::Freehand(FreehandToolMessage::UpdateOptions(FreehandToolMessageOptionsUpdate::LineWeight(input.value_bits.unwrap()))),
    {
        match input.value_bits {
            Some(weight_bits) => ToolMessage::from(FreehandToolMessage::UpdateOptions(FreehandToolMessageOptionsUpdate::LineWeight(weight_bits))),
            None => {
                proof {
                    assert(false);
                }
                ToolMessage::Other
            },
        }
    }

    /// Handles one message as `freehand_process` says, appending the responses.
    pub fn process_message(
        &mut self,
        message: ToolMessage,
        context: FreehandToolContext<P>,
        responses: &mut Vec<FreehandToolResponse<P>>,
    )
        requires
            freehand_needs_new_layer_path(old(self)@.fsm_state, message) ==> context.new_layer_path is Some,
        ensures
            final(self)@ == freehand_process(old(self)@, message, context@).0,
            freehand_responses_view(final(responses)@) == freehand_responses_view(old(responses)@)
                + freehand_process(old(self)@, message, context@).1,
            final(self)@.well_formed(),
    {
        proof {
            use_type_invariant(&*self);
        }
        match message {
            ToolMessage::UpdateHints => {
                self.fsm_state.update_hints(responses);
                return;
            },
            ToolMessage::UpdateCursor => {
                self.fsm_state.update_cursor(responses);
                return;
            },
            ToolMessage::Freehand(
                FreehandToolMessage::UpdateOptions(FreehandToolMessageOptionsUpdate::LineWeight(weight_bits)),
            ) => {
                self.options.line_weight_bits = weight_bits;
                return;
            },
            _ => {},
        }
        let mut tool = FreehandTool::new();
        std::mem::swap(self, &mut tool);
        let FreehandTool { fsm_state, mut data, options } = tool;
        let new_state = fsm_state.transition(message, &mut data, context, &options, responses);
        let ghost after_transition = freehand_responses_view(responses@);
        if fsm_state != new_state {
            new_state.update_hints(responses);
            new_state.update_cursor(responses);
            proof {
                assert(freehand_responses_view(responses@) =~= after_transition
                    + seq![freehand_hints_response(new_state), freehand_cursor_response(new_state)]);
            }
        }
        *self = FreehandTool { fsm_state: new_state, data, options };
    }
}

impl<P: Copy> Default for FreehandTool<P> {
    /// Same as `new`.
    fn default() -> (tool: Self)
        ensures
            tool@ == freehand_tool_initial::<P>(),
            tool@.well_formed(),
    {
        Self::new()
    }
}

/// How many document transactions a list of responses leaves open: one more for each start,
/// one fewer for each commit or abort.
pub open spec fn freehand_transaction_balance<P>(responses: Seq<FreehandToolResponseView<P>>) -> int
    decreases responses.len(),
{
    if responses.len() == 0 {
        0
    } else {
        freehand_transaction_balance(responses.drop_last()) + match responses.last() {
            FreehandToolResponseView::Document(DocumentMessage::StartTransaction) => 1int,
            FreehandToolResponseView::Document(DocumentMessage::CommitTransaction) => -1int,
            FreehandToolResponseView::Document(DocumentMessage::AbortTransaction) => -1int,
            _ => 0int,
        }
    }
}

proof fn lemma_freehand_balance_append<P>(a: Seq<FreehandToolResponseView<P>>, b: Seq<FreehandToolResponseView<P>>)
    ensures
        freehand_transaction_balance(a + b) == freehand_transaction_balance(a) + freehand_transaction_balance(b),
    decreases b.len(),
{
    if b.len() > 0 {
        lemma_freehand_balance_append(a, b.drop_last());
        assert((a + b).drop_last() =~= a + b.drop_last());
    }
}

/// 1 while drawing, 0 otherwise.
pub open spec fn freehand_drawing(state: FreehandToolFsmState) -> int {
    if state == FreehandToolFsmState::Drawing {
        1
    } else {
        0
    }
}

/// A document transaction is open exactly while the freehand tool draws: each message
/// changes the number of open transactions by the change in whether the tool is drawing.
pub proof fn law_freehand_transaction_open_while_drawing<P>(
    tool: FreehandToolView<P>,
    message: ToolMessage,
    context: FreehandToolContextView<P>,
)
    requires
        tool.well_formed(),
        freehand_needs_new_layer_path(tool.fsm_state, message) ==> context.new_layer_path is Some,
    ensures
        freehand_transaction_balance(freehand_process(tool, message, context).1) == freehand_drawing(
            freehand_process(tool, message, context).0.fsm_state,
        ) - freehand_drawing(tool.fsm_state),
{
    reveal_with_fuel(freehand_transaction_balance, 4);
    let (state, data, responses) = freehand_transition(tool.fsm_state, message, tool.data, context, tool.options);
    let tail = seq![freehand_hints_response::<P>(state), freehand_cursor_response::<P>(state)];
    lemma_freehand_balance_append(responses, tail);
}

/// A message of the freehand tool that the current state does not list among its actions,
/// other than an options update, changes nothing and asks for nothing.
pub proof fn law_freehand_unlisted_message_is_ignored<P>(
    tool: FreehandToolView<P>,
    message: FreehandToolMessage,
    context: FreehandToolContextView<P>,
)
    requires
        tool.well_formed(),
        freehand_message_kind(message) != FreehandToolMessageDiscriminant::UpdateOptions,
        !freehand_actions(tool.fsm_state).contains(freehand_message_kind(message)),
    ensures
        freehand_process(tool, ToolMessage::Freehand(message), context) == (
            tool,
            Seq::<FreehandToolResponseView<P>>::empty(),
        ),
{
    let actions = freehand_actions(tool.fsm_state);
    if tool.fsm_state == FreehandToolFsmState::Ready {
        assert(actions[0] == FreehandToolMessageDiscriminant::DragStart);
        assert(actions[1] == FreehandToolMessageDiscriminant::DragStop);
        assert(actions[2] == FreehandToolMessageDiscriminant::Abort);
    } else {
        assert(actions[0] == FreehandToolMessageDiscriminant::DragStop);
        assert(actions[1] == FreehandToolMessageDiscriminant::PointerMove);
        assert(actions[2] == FreehandToolMessageDiscriminant::Abort);
    }
}

/// An abort always leaves the freehand tool ready, holding no layer and no points.
pub proof fn law_freehand_abort_returns_to_ready<P>(tool: FreehandToolView<P>, context: FreehandToolContextView<P>)
    requires
        tool.well_formed(),
    ensures
        freehand_process(tool, ToolMessage::Freehand(FreehandToolMessage::Abort), context).0.fsm_state
            == FreehandToolFsmState::Ready,
        freehand_process(tool, ToolMessage::Freehand(FreehandToolMessage::Abort), context).0.data.path is None,
        freehand_process(tool, ToolMessage::Freehand(FreehandToolMessage::Abort), context).0.data.points.len() == 0,
{
}

/// Ending a drag commits a polyline exactly when at least two points were collected, and the
/// polyline committed is the one through all of them, on the drawing's layer; otherwise the
/// transaction is aborted and nothing is added.
pub proof fn law_freehand_commits_collected_points<P>(
    tool: FreehandToolView<P>,
    message: FreehandToolMessage,
    context: FreehandToolContextView<P>,
)
    requires
        tool.well_formed(),
        tool.fsm_state == FreehandToolFsmState::Drawing,
        message == FreehandToolMessage::DragStop || message == FreehandToolMessage::Abort,
    ensures
        tool.data.points.len() >= 2 ==> {
            let responses = freehand_process(tool, ToolMessage::Freehand(message), context).1;
            &&& responses[1] == (FreehandToolResponseView::AddPolyline {
                path: tool.data.path.unwrap(),
                points: tool.data.points,
                weight_bits: tool.data.weight_bits,
            })
            &&& responses[2] == FreehandToolResponseView::<P>::Document(DocumentMessage::CommitTransaction)
        },
        tool.data.points.len() < 2 ==> freehand_process(tool, ToolMessage::Freehand(message), context).1[0]
            == FreehandToolResponseView::<P>::Document(DocumentMessage::AbortTransaction),
{
}

/// While a polyline is being drawn, every message either keeps drawing on the same layer,
/// keeping the points collected so far as a prefix, or ends the drawing.
pub proof fn law_freehand_drawing_only_appends<P>(
    tool: FreehandToolView<P>,
    message: ToolMessage,
    context: FreehandToolContextView<P>,
)
    requires
        tool.well_formed(),
        tool.fsm_state == FreehandToolFsmState::Drawing,
    ensures
        ({
            let next = freehand_process(tool, message, context).0;
            next.fsm_state == FreehandToolFsmState::Drawing ==> {
                &&& next.data.path == tool.data.path
                &&& tool.data.points.len() <= next.data.points.len()
                &&& next.data.points.subrange(0, tool.data.points.len() as int) == tool.data.points
            }
        }),
{
    let next = freehand_process(tool, message, context).0;
    if next.fsm_state == FreehandToolFsmState::Drawing {
        assert(next.data.points.subrange(0, tool.data.points.len() as int) =~= tool.data.points);
    }
}

/// Whenever a message changes the tool's state, its last two responses show the hints and
/// the cursor of the new state.
pub proof fn law_freehand_state_change_shows_new_hints<P>(
    tool: FreehandToolView<P>,
    message: ToolMessage,
    context: FreehandToolContextView<P>,
)
    requires
        tool.well_formed(),
        freehand_process(tool, message, context).0.fsm_state != tool.fsm_state,
    ensures
        ({
            let (next, responses) = freehand_process(tool, message, context);
            &&& responses.len() >= 2
            &&& responses[responses.len() - 2] == freehand_hints_response::<P>(next.fsm_state)
            &&& responses[responses.len() - 1] == freehand_cursor_response::<P>(next.fsm_state)
        }),
{
}

/// Asking for the hints or the cursor changes nothing and is answered with those of the
/// current state.
pub proof fn law_freehand_hint_and_cursor_requests_change_nothing<P>(tool: FreehandToolView<P>, context: FreehandToolContextView<P>)
    ensures
        freehand_process(tool, ToolMessage::UpdateHints, context) == (tool, seq![freehand_hints_response::<P>(tool.fsm_state)]),
        freehand_process(tool, ToolMessage::UpdateCursor, context) == (tool, seq![freehand_cursor_response::<P>(tool.fsm_state)]),
{
}

/// No two neighbouring points of a polyline are the same.
pub open spec fn no_repeated_neighbours<P>(points: Seq<P>) -> bool {
    forall|i: int| 0 <= i < points.len() - 1 ==> #[trigger] points[i] != points[i + 1]
}

/// The freehand tool's invariant on its state and data: ready with no layer and no points,
/// or drawing a layer with at least one point; and no point repeats the one before it.
pub open spec fn freehand_data_invariant<P>(state: FreehandToolFsmState, data: FreehandToolDataView<P>) -> bool {
    &&& state == FreehandToolFsmState::Ready ==> data.path is None && data.points.len() == 0
    &&& state == FreehandToolFsmState::Drawing ==> data.path is Some && data.points.len() >= 1
    &&& no_repeated_neighbours(data.points)
}

/// The state machine keeps the freehand tool's invariant, provided a path was supplied where
/// one is needed and the context tells truly whether the position differs from the last point.
pub proof fn law_freehand_transition_keeps_invariant<P>(
    state: FreehandToolFsmState,
    event: ToolMessage,
    data: FreehandToolDataView<P>,
    context: FreehandToolContextView<P>,
    options: FreehandOptions,
)
    requires
        freehand_data_invariant(state, data),
        freehand_needs_new_layer_path(state, event) ==> context.new_layer_path is Some,
        context.differs_from_last_point == (data.points.len() == 0 || data.points.last() != context.position),
    ensures
        ({
            let (next, next_data, _) = freehand_transition(state, event, data, context, options);
            freehand_data_invariant(next, next_data)
        }),
{
    let (next, next_data, _) = freehand_transition(state, event, data, context, options);
    let points = next_data.points;
    assert forall|i: int| 0 <= i < points.len() - 1 implies #[trigger] points[i] != points[i + 1] by {
        if i + 1 < data.points.len() {
            assert(points[i] == data.points[i]);
            assert(points[i + 1] == data.points[i + 1]);
        }
    }
}

/// The transaction requests among a list of responses, in order: `true` for a start, `false`
/// for a commit or an abort.
pub open spec fn freehand_transaction_marks<P>(responses: Seq<FreehandToolResponseView<P>>) -> Seq<bool>
    decreases responses.len(),
{
    if responses.len() == 0 {
        Seq::empty()
    } else {
        let marks = freehand_transaction_marks(responses.drop_last());
        match responses.last() {
            FreehandToolResponseView::Document(DocumentMessage::StartTransaction) => marks.push(true),
            FreehandToolResponseView::Document(DocumentMessage::CommitTransaction) => marks.push(false),
            FreehandToolResponseView::Document(DocumentMessage::AbortTransaction) => marks.push(false),
            _ => marks,
        }
    }
}

proof fn lemma_freehand_marks_append<P>(a: Seq<FreehandToolResponseView<P>>, b: Seq<FreehandToolResponseView<P>>)
    ensures
        freehand_transaction_marks(a + b) == freehand_transaction_marks(a) + freehand_transaction_marks(b),
    decreases b.len(),
{
    if b.len() == 0 {
        assert(a + b =~= a);
        assert(freehand_transaction_marks(a) + freehand_transaction_marks(b) =~= freehand_transaction_marks(a));
    } else {
        lemma_freehand_marks_append(a, b.drop_last());
        assert((a + b).drop_last() =~= a + b.drop_last());
        let left = freehand_transaction_marks(a);
        let right = freehand_transaction_marks(b.drop_last());
        assert((left + right).push(true) =~= left + right.push(true));
        assert((left + right).push(false) =~= left + right.push(false));
    }
}

/// The transaction requests of one message: a start when the tool begins to draw, a commit
/// or an abort when it stops, and none otherwise.
proof fn lemma_freehand_step_marks<P>(
    tool: FreehandToolView<P>,
    message: ToolMessage,
    context: FreehandToolContextView<P>,
)
    requires
        tool.well_formed(),
        freehand_needs_new_layer_path(tool.fsm_state, message) ==> context.new_layer_path is Some,
    ensures
        ({
            let (next, responses) = freehand_process(tool, message, context);
            &&& next.well_formed()
            &&& freehand_transaction_marks(responses) == if tool.fsm_state == FreehandToolFsmState::Ready
                && next.fsm_state == FreehandToolFsmState::Drawing {
                seq![true]
            } else if tool.fsm_state == FreehandToolFsmState::Drawing && next.fsm_state
                == FreehandToolFsmState::Ready {
                seq![false]
            } else {
                Seq::empty()
            }
        }),
{
    reveal_with_fuel(freehand_transaction_marks, 4);
    let (state, data, responses) = freehand_transition(tool.fsm_state, message, tool.data, context, tool.options);
    let tail = seq![freehand_hints_response::<P>(state), freehand_cursor_response::<P>(state)];
    lemma_freehand_marks_append(responses, tail);
    assert(freehand_transaction_marks(tail) =~= Seq::empty());
    assert(freehand_transaction_marks(responses) + Seq::<bool>::empty() =~= freehand_transaction_marks(responses));
    assert(freehand_transaction_marks(seq![freehand_hints_response::<P>(tool.fsm_state)]) =~= Seq::<bool>::empty());
    assert(freehand_transaction_marks(seq![freehand_cursor_response::<P>(tool.fsm_state)]) =~= Seq::<bool>::empty());
}

/// The tool and all responses after handling each message of `steps` in turn, each with its
/// context.
pub open spec fn freehand_run<P>(tool: FreehandToolView<P>, steps: Seq<(ToolMessage, FreehandToolContextView<P>)>) -> (
    FreehandToolView<P>,
    Seq<FreehandToolResponseView<P>>,
)
    decreases steps.len(),
{
    if steps.len() == 0 {
        (tool, Seq::empty())
    } else {
        let (before, responses) = freehand_run(tool, steps.drop_last());
        let (after, more) = freehand_process(before, steps.last().0, steps.last().1);
        (after, responses + more)
    }
}

/// Over any run of messages from a ready tool, where every drag start comes with a path for
/// the new layer, transaction starts and ends strictly alternate, beginning with a start, and
/// a transaction is left open exactly when the tool ends up drawing.
pub proof fn law_freehand_transactions_alternate<P>(
    tool: FreehandToolView<P>,
    steps: Seq<(ToolMessage, FreehandToolContextView<P>)>,
)
    requires
        tool.well_formed(),
        tool.fsm_state == FreehandToolFsmState::Ready,
        forall|i: int|
            0 <= i < steps.len() && (#[trigger] steps[i]).0 == ToolMessage::Freehand(FreehandToolMessage::DragStart)
                ==> steps[i].1.new_layer_path is Some,
    ensures
        ({
            let (last, responses) = freehand_run(tool, steps);
            let marks = freehand_transaction_marks(responses);
            &&& last.well_formed()
            &&& forall|i: int| 0 <= i < marks.len() ==> #[trigger] marks[i] == (i % 2 == 0)
            &&& marks.len() % 2 == freehand_drawing(last.fsm_state)
        }),
    decreases steps.len(),
{
    if steps.len() > 0 {
        let init = steps.drop_last();
        assert forall|i: int|
            0 <= i < init.len() && (#[trigger] init[i]).0 == ToolMessage::Freehand(FreehandToolMessage::DragStart)
                implies init[i].1.new_layer_path is Some by {
            assert(init[i] == steps[i]);
        }
        law_freehand_transactions_alternate(tool, init);
        let (before, responses) = freehand_run(tool, init);
        let step = steps.last();
        assert(step == steps[steps.len() - 1]);
        lemma_freehand_step_marks(before, step.0, step.1);
        let (after, more) = freehand_process(before, step.0, step.1);
        lemma_freehand_marks_append(responses, more);
    }
}

/// While drawing, a pointer move to a position that differs from the last collected point
/// appends exactly that position, however many points were collected before; a move that
/// does not differ leaves the points as they are.  Either way the preview is replaced by the
/// polyline through all the points.
pub proof fn law_freehand_pointer_move_appends_position<P>(
    tool: FreehandToolView<P>,
    context: FreehandToolContextView<P>,
)
    requires
        tool.well_formed(),
        tool.fsm_state == FreehandToolFsmState::Drawing,
    ensures
        ({
            let (next, responses) = freehand_process(tool, ToolMessage::Freehand(FreehandToolMessage::PointerMove), context);
            &&& next.fsm_state == FreehandToolFsmState::Drawing
            &&& next.data.points == if context.differs_from_last_point {
                tool.data.points.push(context.position)
            } else {
                tool.data.points
            }
            &&& responses == seq![
                FreehandToolResponseView::DeleteLayer { path: tool.data.path.unwrap() },
                FreehandToolResponseView::AddPolyline {
                    path: tool.data.path.unwrap(),
                    points: next.data.points,
                    weight_bits: tool.data.weight_bits,
                },
            ]
        }),
{
}

/// Every polyline is stroked with the weight in the options at its drag start: starting a drag
/// remembers the current option weight, whatever was remembered from an earlier polyline, and
/// the first preview carries it along with the starting position.
pub proof fn law_freehand_drag_start_uses_current_weight<P>(
    tool: FreehandToolView<P>,
    context: FreehandToolContextView<P>,
)
    requires
        tool.well_formed(),
        tool.fsm_state == FreehandToolFsmState::Ready,
        context.new_layer_path is Some,
    ensures
        ({
            let (next, responses) = freehand_process(tool, ToolMessage::Freehand(FreehandToolMessage::DragStart), context);
            &&& next.fsm_state == FreehandToolFsmState::Drawing
            &&& next.data.weight_bits == tool.options.line_weight_bits
            &&& next.data.points == seq![context.position]
            &&& responses.contains(
                FreehandToolResponseView::AddPolyline {
                    path: context.new_layer_path.unwrap(),
                    points: seq![context.position],
                    weight_bits: tool.options.line_weight_bits,
                },
            )
        }),
{
    let (next, responses) = freehand_process(tool, ToolMessage::Freehand(FreehandToolMessage::DragStart), context);
    assert(tool.data.points.push(context.position) =~= seq![context.position]);
    assert(responses[2] == FreehandToolResponseView::AddPolyline {
        path: context.new_layer_path.unwrap(),
        points: seq![context.position],
        weight_bits: tool.options.line_weight_bits,
    });
}

/// A weight set in the options bar is the weight of the next polyline drawn: after an options
/// update to `weight_bits` in the ready state, a drag start strokes its polyline with it.
pub proof fn law_freehand_weight_update_applies_to_next_polyline<P>(
    tool: FreehandToolView<P>,
    weight_bits: u64,
    update_context: FreehandToolContextView<P>,
    context: FreehandToolContextView<P>,
)
    requires
        tool.well_formed(),
        tool.fsm_state == FreehandToolFsmState::Ready,
        context.new_layer_path is Some,
    ensures
        ({
            let updated = freehand_process(
                tool,
                ToolMessage::Freehand(
                    FreehandToolMessage::UpdateOptions(FreehandToolMessageOptionsUpdate::LineWeight(weight_bits)),
                ),
                update_context,
            ).0;
            let (next, responses) = freehand_process(
                updated,
                ToolMessage::Freehand(FreehandToolMessage::DragStart),
                context,
            );
            &&& next.data.weight_bits == weight_bits
            &&& responses.contains(
                FreehandToolResponseView::AddPolyline {
                    path: context.new_layer_path.unwrap(),
                    points: seq![context.position],
                    weight_bits,
                },
            )
        }),
{
    let updated = freehand_process(
        tool,
        ToolMessage::Freehand(FreehandToolMessage::UpdateOptions(FreehandToolMessageOptionsUpdate::LineWeight(weight_bits))),
        update_context,
    ).0;
    law_freehand_drag_start_uses_current_weight(updated, context);
}

/// The weight a polyline was started with stays with it: while drawing, no message changes
/// the remembered weight, so the committed polyline carries the weight of its drag start.
pub proof fn law_freehand_drawing_keeps_its_weight<P>(
    tool: FreehandToolView<P>,
    message: ToolMessage,
    context: FreehandToolContextView<P>,
)
    requires
        tool.well_formed(),
        tool.fsm_state == FreehandToolFsmState::Drawing,
    ensures
        freehand_process(tool, message, context).0.data.weight_bits == tool.data.weight_bits,
{
}

} // verus!
