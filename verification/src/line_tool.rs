use vstd::prelude::*;
use crate::tool::{
    copy_path, hint, hint_view, single_group, DocumentMessage, EventToMessageMap, FrontendMessage,
    FrontendMessageView, HintData, HintInfo, HintInfoView, Key, MouseCursorIcon, MouseMotion,
    NumberInput, NumberInputView, ToolMessage, ToolType, DEFAULT_LINE_WEIGHT_BITS,
};

verus! {

/// A change to the line tool's options.  The weight is the bit pattern of a double, in px.
#[derive(Debug, Clone, Copy, PartialEq, Eq, Structural)]
pub enum LineOptionsUpdate {
    LineWeight(u64),
}

/// The messages of the line tool.
#[derive(Debug, Clone, Copy, PartialEq, Eq, Structural)]
pub enum LineToolMessage {
    Abort,
    DragStart,
    DragStop,
    Redraw { center: Key, lock_angle: Key, snap_angle: Key },
    UpdateOptions(LineOptionsUpdate),
}

/// The kinds of line tool message, without their contents.
#[derive(Debug, Clone, Copy, PartialEq, Eq, Structural)]
pub enum LineToolMessageDiscriminant {
    Abort,
    DragStart,
    DragStop,
    Redraw,
    UpdateOptions,
}

pub open spec fn line_message_kind(message: LineToolMessage) -> LineToolMessageDiscriminant {
    match message {
        LineToolMessage::Abort => LineToolMessageDiscriminant::Abort,
        LineToolMessage::DragStart => LineToolMessageDiscriminant::DragStart,
        LineToolMessage::DragStop => LineToolMessageDiscriminant::DragStop,
        LineToolMessage::Redraw { .. } => LineToolMessageDiscriminant::Redraw,
        LineToolMessage::UpdateOptions(_) => LineToolMessageDiscriminant::UpdateOptions,
    }
}

impl LineToolMessage {
    /// The kind of this message.
    pub fn discriminant(&self) -> (kind: LineToolMessageDiscriminant)
        ensures
            kind == line_message_kind(*self),
    {
        match self {
            LineToolMessage::Abort => LineToolMessageDiscriminant::Abort,
            LineToolMessage::DragStart => LineToolMessageDiscriminant::DragStart,
            LineToolMessage::DragStop => LineToolMessageDiscriminant::DragStop,
            LineToolMessage::Redraw { .. } => LineToolMessageDiscriminant::Redraw,
            LineToolMessage::UpdateOptions(_) => LineToolMessageDiscriminant::UpdateOptions,
        }
    }
}

/// The options of the line tool: the stroke weight, as the bit pattern of a double, in px.
#[derive(Debug, Clone, Copy, PartialEq, Eq, Structural)]
pub struct LineOptions {
    pub line_weight_bits: u64,
}

impl Default for LineOptions {
    fn default() -> (options: Self)
        ensures
            options.line_weight_bits == DEFAULT_LINE_WEIGHT_BITS,
    {
        LineOptions { line_weight_bits: DEFAULT_LINE_WEIGHT_BITS }
    }
}

/// The two states of the line tool.
#[derive(Debug, Clone, Copy, PartialEq, Eq, Structural)]
pub enum LineToolFsmState {
    Ready,
    Drawing,
}

impl Default for LineToolFsmState {
    fn default() -> (state: Self)
        ensures
            state == LineToolFsmState::Ready,
    {
        LineToolFsmState::Ready
    }
}

/// What the line tool remembers about the line being drawn: the path of its layer and the
/// stroke weight it was started with.
#[derive(Debug, Clone, PartialEq, Eq)]
pub struct LineToolData {
    pub path: Option<Vec<u64>>,
    pub weight_bits: u64,
}

pub struct LineToolDataView {
    pub path: Option<Seq<u64>>,
    pub weight_bits: u64,
}

impl View for LineToolData {
    type V = LineToolDataView;

    open spec fn view(&self) -> LineToolDataView {
        LineToolDataView {
            path: match self.path {
                Some(path) => Some(path@),
                None => None,
            },
            weight_bits: self.weight_bits,
        }
    }
}

impl Default for LineToolData {
    fn default() -> (data: Self)
        ensures
            data@ == (LineToolDataView { path: None, weight_bits: 0 }),
    {
        LineToolData { path: None, weight_bits: 0 }
    }
}

/// What the document and the input devices tell the line tool along with a message: the
/// path for a new layer, needed when a drag starts, and whether the pointer is still within
/// the drag threshold of where the drag started.
#[derive(Debug, Clone, PartialEq, Eq)]
pub struct LineToolContext {
    pub new_layer_path: Option<Vec<u64>>,
    pub within_drag_threshold: bool,
}

pub struct LineToolContextView {
    pub new_layer_path: Option<Seq<u64>>,
    pub within_drag_threshold: bool,
}

impl View for LineToolContext {
    type V = LineToolContextView;

    open spec fn view(&self) -> LineToolContextView {
        LineToolContextView {
            new_layer_path: match self.new_layer_path {
                Some(path) => Some(path@),
                None => None,
            },
            within_drag_threshold: self.within_drag_threshold,
        }
    }
}

/// What the line tool asks its host to do, in order.
#[derive(Debug, Clone, PartialEq, Eq)]
pub enum LineToolResponse {
    Document(DocumentMessage),
    Frontend(FrontendMessage),
    /// Start snapping to the document's bounding boxes and handles, and snap the pointer
    /// position as the start of the drag.
    StartSnapping,
    /// Snap the pointer position as the current end of the drag.
    SnapDragEnd,
    /// Stop snapping and clear what it drew.
    StopSnapping,
    /// Add an empty line layer at `path`, stroked with the primary color and this weight.
    AddLine { path: Vec<u64>, weight_bits: u64 },
    /// Set the transform of the line layer at `path` from the drag, where the three keys,
    /// when held, lock the angle, snap the angle and draw from the center.
    UpdateTransform { path: Vec<u64>, lock_angle: Key, snap_angle: Key, center: Key },
}

pub enum LineToolResponseView {
    Document(DocumentMessage),
    Frontend(FrontendMessageView),
    StartSnapping,
    SnapDragEnd,
    StopSnapping,
    AddLine { path: Seq<u64>, weight_bits: u64 },
    UpdateTransform { path: Seq<u64>, lock_angle: Key, snap_angle: Key, center: Key },
}

impl View for LineToolResponse {
    type V = LineToolResponseView;

    open spec fn view(&self) -> LineToolResponseView {
        match self {
            LineToolResponse::Document(message) => LineToolResponseView::Document(*message),
            LineToolResponse::Frontend(message) => LineToolResponseView::Frontend(message@),
            LineToolResponse::StartSnapping => LineToolResponseView::StartSnapping,
            LineToolResponse::SnapDragEnd => LineToolResponseView::SnapDragEnd,
            LineToolResponse::StopSnapping => LineToolResponseView::StopSnapping,
            LineToolResponse::AddLine { path, weight_bits } => LineToolResponseView::AddLine {
                path: path@,
                weight_bits: *weight_bits,
            },
            LineToolResponse::UpdateTransform { path, lock_angle, snap_angle, center } =>
                LineToolResponseView::UpdateTransform {
                path: path@,
                lock_angle: *lock_angle,
                snap_angle: *snap_angle,
                center: *center,
            },
        }
    }
}

pub open spec fn line_responses_view(responses: Seq<LineToolResponse>) -> Seq<LineToolResponseView> {
    responses.map_values(|response: LineToolResponse| response@)
}

fn push_response(responses: &mut Vec<LineToolResponse>, response: LineToolResponse)
    ensures
        line_responses_view(final(responses)@) == line_responses_view(old(responses)@).push(response@),
{
    let ghost view = response@;
    responses.push(response);
    proof {
        assert(line_responses_view(responses@) =~= line_responses_view(old(responses)@).push(view));
    }
}

/// The input hints of each state.
pub open spec fn line_hints(state: LineToolFsmState) -> Seq<Seq<HintInfoView>> {
    match state {
        LineToolFsmState::Ready => seq![
            seq![
                hint_view(None, Some(MouseMotion::LmbDrag), "Draw Line"@, false),
                hint_view(Some(Key::Shift), None, "Snap 15°"@, true),
                hint_view(Some(Key::Alt), None, "From Center"@, true),
                hint_view(Some(Key::Control), None, "Lock Angle"@, true),
            ],
        ],
        LineToolFsmState::Drawing => seq![
            seq![
                hint_view(Some(Key::Shift), None, "Snap 15°"@, false),
                hint_view(Some(Key::Alt), None, "From Center"@, false),
                hint_view(Some(Key::Control), None, "Lock Angle"@, false),
            ],
        ],
    }
}

pub open spec fn line_hints_response(state: LineToolFsmState) -> LineToolResponseView {
    LineToolResponseView::Frontend(FrontendMessageView::UpdateInputHints { hint_data: line_hints(state) })
}

/// The line tool shows a crosshair in every state.
pub open spec fn line_cursor_response(state: LineToolFsmState) -> LineToolResponseView {
    LineToolResponseView::Frontend(FrontendMessageView::UpdateMouseCursor { cursor: MouseCursorIcon::Crosshair })
}

/// The messages each state reacts to.
pub open spec fn line_actions(state: LineToolFsmState) -> Seq<LineToolMessageDiscriminant> {
    match state {
        LineToolFsmState::Ready => seq![LineToolMessageDiscriminant::DragStart],
        LineToolFsmState::Drawing => seq![
            LineToolMessageDiscriminant::DragStop,
            LineToolMessageDiscriminant::Redraw,
            LineToolMessageDiscriminant::Abort,
        ],
    }
}

/// Whether handling `event` in `state` creates a layer, and so needs a path for it.
pub open spec fn line_needs_new_layer_path(state: LineToolFsmState, event: ToolMessage) -> bool {
    state == LineToolFsmState::Ready && event == ToolMessage::Line(LineToolMessage::DragStart)
}

/// The state machine of the line tool: the next state, the remembered line, and the
/// responses, for one message.
pub open spec fn line_transition(
    state: LineToolFsmState,
    event: ToolMessage,
    data: LineToolDataView,
    context: LineToolContextView,
    options: LineOptions,
) -> (LineToolFsmState, LineToolDataView, Seq<LineToolResponseView>) {
    match event {
        ToolMessage::Line(message) => match (state, message) {
            (LineToolFsmState::Ready, LineToolMessage::DragStart) => {
                let path = context.new_layer_path.unwrap();
                (
                    LineToolFsmState::Drawing,
                    LineToolDataView { path: Some(path), weight_bits: options.line_weight_bits },
                    seq![
                        LineToolResponseView::StartSnapping,
                        LineToolResponseView::Document(DocumentMessage::StartTransaction),
                        LineToolResponseView::Document(DocumentMessage::DeselectAllLayers),
                        LineToolResponseView::AddLine { path, weight_bits: options.line_weight_bits },
                    ],
                )
            },
            (LineToolFsmState::Drawing, LineToolMessage::Redraw { center, lock_angle, snap_angle }) => (
                LineToolFsmState::Drawing,
                data,
                seq![
                    LineToolResponseView::SnapDragEnd,
                    LineToolResponseView::UpdateTransform {
                        path: data.path.unwrap(),
                        lock_angle,
                        snap_angle,
                        center,
                    },
                ],
            ),
            (LineToolFsmState::Drawing, LineToolMessage::DragStop) => (
                LineToolFsmState::Ready,
                LineToolDataView { path: None, ..data },
                seq![
                    LineToolResponseView::SnapDragEnd,
                    LineToolResponseView::StopSnapping,
                    LineToolResponseView::Document(
                        if context.within_drag_threshold {
                            DocumentMessage::AbortTransaction
                        } else {
                            DocumentMessage::CommitTransaction
                        },
                    ),
                ],
            ),
            (LineToolFsmState::Drawing, LineToolMessage::Abort) => (
                LineToolFsmState::Ready,
                LineToolDataView { path: None, ..data },
                seq![
                    LineToolResponseView::StopSnapping,
                    LineToolResponseView::Document(DocumentMessage::AbortTransaction),
                ],
            ),
            _ => (state, data, Seq::empty()),
        },
        _ => (state, data, Seq::empty()),
    }
}

impl LineToolFsmState {
    /// Handles one message: returns the next state, updates the remembered line and appends
    /// the responses, as `line_transition` says.
    pub fn transition(
        self,
        event: ToolMessage,
        tool_data: &mut LineToolData,
        context: LineToolContext,
        tool_options: &LineOptions,
        responses: &mut Vec<LineToolResponse>,
    ) -> (next: Self)
        requires
            self == LineToolFsmState::Drawing ==> old(tool_data).path is Some,
            line_needs_new_layer_path(self, event) ==> context.new_layer_path is Some,
        ensures
            next == line_transition(self, event, old(tool_data)@, context@, *tool_options).0,
            final(tool_data)@ == line_transition(self, event, old(tool_data)@, context@, *tool_options).1,
            line_responses_view(final(responses)@) == line_responses_view(old(responses)@)
                + line_transition(self, event, old(tool_data)@, context@, *tool_options).2,
    {
        let ghost before = line_responses_view(responses@);
        match event {
            ToolMessage::Line(message) => match (self, message) {
                (LineToolFsmState::Ready, LineToolMessage::DragStart) => {
                    push_response(responses, LineToolResponse::StartSnapping);
                    push_response(responses, LineToolResponse::Document(DocumentMessage::StartTransaction));
                    let path = match context.new_layer_path {
                        Some(path) => path,
                        None => { proof { assert(false); } Vec::new() },
                    };
                    push_response(responses, LineToolResponse::Document(DocumentMessage::DeselectAllLayers));
                    tool_data.weight_bits = tool_options.line_weight_bits;
                    push_response(
                        responses,
                        LineToolResponse::AddLine { path: copy_path(&path), weight_bits: tool_data.weight_bits },
                    );
                    tool_data.path = Some(path);
                    proof {
                        assert(line_responses_view(responses@) =~= before
                            + line_transition(self, event, old(tool_data)@, context@, *tool_options).2);
                    }
                    LineToolFsmState::Drawing
                },
                (LineToolFsmState::Drawing, LineToolMessage::Redraw { center, lock_angle, snap_angle }) => {
                    push_response(responses, LineToolResponse::SnapDragEnd);
                    let path = match &tool_data.path {
                        Some(path) => copy_path(path),
                        None => { proof { assert(false); } Vec::new() },
                    };
                    push_response(responses, LineToolResponse::UpdateTransform { path, lock_angle, snap_angle, center });
                    proof {
                        assert(line_responses_view(responses@) =~= before
                            + line_transition(self, event, old(tool_data)@, context@, *tool_options).2);
                    }
                    LineToolFsmState::Drawing
                },
                (LineToolFsmState::Drawing, LineToolMessage::DragStop) => {
                    push_response(responses, LineToolResponse::SnapDragEnd);
                    push_response(responses, LineToolResponse::StopSnapping);
                    if context.within_drag_threshold {
                        push_response(responses, LineToolResponse::Document(DocumentMessage::AbortTransaction));
                    } else {
                        push_response(responses, LineToolResponse::Document(DocumentMessage::CommitTransaction));
                    }
                    tool_data.path = None;
                    proof {
                        assert(line_responses_view(responses@) =~= before
                            + line_transition(self, event, old(tool_data)@, context@, *tool_options).2);
                    }
                    LineToolFsmState::Ready
                },
                (LineToolFsmState::Drawing, LineToolMessage::Abort) => {
                    push_response(responses, LineToolResponse::StopSnapping);
                    push_response(responses, LineToolResponse::Document(DocumentMessage::AbortTransaction));
                    tool_data.path = None;
                    proof {
                        assert(line_responses_view(responses@) =~= before
                            + line_transition(self, event, old(tool_data)@, context@, *tool_options).2);
                    }
                    LineToolFsmState::Ready
                },
                _ => {
                    proof {
                        assert(line_responses_view(responses@) =~= before + Seq::empty());
                    }
                    self
                },
            },
            _ => {
                proof {
                    assert(line_responses_view(responses@) =~= before + Seq::empty());
                }
                self
            },
        }
    }

    /// The input hints of this state.
    pub fn hint_data(&self) -> (data: HintData)
        ensures
            data@ == line_hints(*self),
    {
        let mut infos: Vec<HintInfo> = Vec::new();
        match self {
            LineToolFsmState::Ready => {
                infos.push(hint(None, Some(MouseMotion::LmbDrag), "Draw Line", false));
                infos.push(hint(Some(Key::Shift), None, "Snap 15°", true));
                infos.push(hint(Some(Key::Alt), None, "From Center", true));
                infos.push(hint(Some(Key::Control), None, "Lock Angle", true));
            },
            LineToolFsmState::Drawing => {
                infos.push(hint(Some(Key::Shift), None, "Snap 15°", false));
                infos.push(hint(Some(Key::Alt), None, "From Center", false));
                infos.push(hint(Some(Key::Control), None, "Lock Angle", false));
            },
        }
        let ghost views = infos@.map_values(|info: HintInfo| info@);
        proof {
            assert(views =~= line_hints(*self)[0]);
        }
        single_group(infos)
    }

    /// Asks the user interface to show the input hints of this state.
    pub fn update_hints(&self, responses: &mut Vec<LineToolResponse>)
        ensures
            line_responses_view(final(responses)@) == line_responses_view(old(responses)@).push(line_hints_response(*self)),
    {
        let hint_data = self.hint_data();
        push_response(responses, LineToolResponse::Frontend(FrontendMessage::UpdateInputHints { hint_data }));
    }

    /// Asks the user interface to show the cursor of this state.
    pub fn update_cursor(&self, responses: &mut Vec<LineToolResponse>)
        ensures
            line_responses_view(final(responses)@) == line_responses_view(old(responses)@).push(line_cursor_response(*self)),
    {
        push_response(
            responses,
            LineToolResponse::Frontend(FrontendMessage::UpdateMouseCursor { cursor: MouseCursorIcon::Crosshair }),
        );
    }
}

/// The line tool: its state, the line being drawn and its options.
pub struct LineTool {
    fsm_state: LineToolFsmState,
    tool_data: LineToolData,
    options: LineOptions,
}

pub struct LineToolView {
    pub fsm_state: LineToolFsmState,
    pub tool_data: LineToolDataView,
    pub options: LineOptions,
}

impl LineToolView {
    /// The tool holds the path of a layer exactly while it is drawing.
    pub open spec fn well_formed(self) -> bool {
        (self.fsm_state == LineToolFsmState::Drawing) == (self.tool_data.path is Some)
    }
}

impl View for LineTool {
    type V = LineToolView;

    closed spec fn view(&self) -> LineToolView {
        LineToolView { fsm_state: self.fsm_state, tool_data: self.tool_data@, options: self.options }
    }
}

/// One message handled by the whole tool: hint and cursor requests are answered from the
/// current state, an options update only changes the options, and every other message goes
/// through the state machine; when the state changes, the hints and the cursor of the new
/// state follow the machine's own responses.
pub open spec fn line_process(tool: LineToolView, message: ToolMessage, context: LineToolContextView) -> (
    LineToolView,
    Seq<LineToolResponseView>,
) {
    match message {
        ToolMessage::UpdateHints => (tool, seq![line_hints_response(tool.fsm_state)]),
        ToolMessage::UpdateCursor => (tool, seq![line_cursor_response(tool.fsm_state)]),
        ToolMessage::Line(LineToolMessage::UpdateOptions(LineOptionsUpdate::LineWeight(weight_bits))) => (
            LineToolView { options: LineOptions { line_weight_bits: weight_bits }, ..tool },
            Seq::empty(),
        ),
        _ => {
            let (state, data, responses) = line_transition(
                tool.fsm_state,
                message,
                tool.tool_data,
                context,
                tool.options,
            );
            let next = LineToolView { fsm_state: state, tool_data: data, options: tool.options };
            if state != tool.fsm_state {
                (next, responses + seq![line_hints_response(state), line_cursor_response(state)])
            } else {
                (next, responses)
            }
        },
    }
}

/// A line tool that is ready to draw, holds no line, and has the default weight.
pub open spec fn line_tool_initial() -> LineToolView {
    LineToolView {
        fsm_state: LineToolFsmState::Ready,
        tool_data: LineToolDataView { path: None, weight_bits: 0 },
        options: LineOptions { line_weight_bits: DEFAULT_LINE_WEIGHT_BITS },
    }
}

impl LineTool {
    #[verifier::type_invariant]
    spec fn type_inv(self) -> bool {
        self@.well_formed()
    }

    /// A tool that is ready to draw, with the default options.
    pub fn new() -> (tool: Self)
        ensures
            tool@ == line_tool_initial(),
            tool@.well_formed(),
    {
        LineTool {
            fsm_state: LineToolFsmState::default(),
            tool_data: LineToolData::default(),
            options: LineOptions::default(),
        }
    }

    /// Whether handling `message` now creates a layer, so that the caller has to supply a path
    /// for it in the context.
    pub fn needs_new_layer_path(&self, message: &ToolMessage) -> (needed: bool)
        ensures
            needed == line_needs_new_layer_path(self@.fsm_state, *message),
    {
        match (self.fsm_state, *message) {
            (LineToolFsmState::Ready, ToolMessage::Line(LineToolMessage::DragStart)) => true,
            _ => false,
        }
    }

    /// The current state.
    pub fn fsm_state(&self) -> (state: LineToolFsmState)
        ensures
            state == self@.fsm_state,
    {
        self.fsm_state
    }

    /// The current options.
    pub fn options(&self) -> (options: LineOptions)
        ensures
            options == self@.options,
    {
        self.options
    }

    /// The path of the layer being drawn, if the tool is drawing.
    pub fn layer_path(&self) -> (path: Option<Vec<u64>>)
        ensures
            path is Some == self@.tool_data.path is Some,
            path is Some ==> path.unwrap()@ == self@.tool_data.path.unwrap(),
    {
        match &self.tool_data.path {
            Some(path) => Some(copy_path(path)),
            None => None,
        }
    }

    /// The kinds of message the current state reacts to.
    pub fn actions(&self) -> (actions: Vec<LineToolMessageDiscriminant>)
        ensures
            actions@ == line_actions(self@.fsm_state),
    {
        let mut actions: Vec<LineToolMessageDiscriminant> = Vec::new();
        match self.fsm_state {
            LineToolFsmState::Ready => {
                actions.push(LineToolMessageDiscriminant::DragStart);
            },
            LineToolFsmState::Drawing => {
                actions.push(LineToolMessageDiscriminant::DragStop);
                actions.push(LineToolMessageDiscriminant::Redraw);
                actions.push(LineToolMessageDiscriminant::Abort);
            },
        }
        proof {
            assert(actions@ =~= line_actions(self@.fsm_state));
        }
        actions
    }

    /// The tool wants an abort message when it is aborted from outside, and nothing on
    /// document or selection changes.
    pub fn event_to_message_map(&self) -> (map: EventToMessageMap)
        ensures
            map == (EventToMessageMap {
                document_dirty: None,
                tool_abort: Some(ToolMessage::Line(LineToolMessage::Abort)),
                selection_changed: None,
            }),
    {
        EventToMessageMap {
            document_dirty: None,
            tool_abort: Some(ToolMessage::from(LineToolMessage::Abort)),
            selection_changed: None,
        }
    }

    /// The name of the tool's icon.
    pub fn icon_name(&self) -> (name: String)
        ensures
            name@ == "VectorLineTool"@,
    {
        String::from_str("VectorLineTool")
    }

    /// The tool's tooltip.
    pub fn tooltip(&self) -> (tooltip: String)
        ensures
            tooltip@ == "Line Tool"@,
    {
        String::from_str("Line Tool")
    }

    /// Which tool this is.
    pub fn tool_type(&self) -> (tool_type: ToolType)
        ensures
            tool_type == ToolType::Line,
    {
        ToolType::Line
    }

    /// The options bar: a number field for the stroke weight, in px, not restricted to
    /// integers, with its lower bound.
    pub fn properties(&self) -> (input: NumberInput)
        ensures
            input@ == (NumberInputView {
                unit: " px"@,
                label: "Weight"@,
                value_bits: Some(self@.options.line_weight_bits),
                is_integer: false,
                min_bits: Some(0u64),
            }),
    {
        NumberInput {
            unit: String::from_str(" px"),
            label: String::from_str("Weight"),
            value_bits: Some(self.options.line_weight_bits),
            is_integer: false,
            min_bits: Some(0),
        }
    }

    /// The message the weight field sends when the user edits it.
    pub fn weight_update_message(input: &NumberInput) -> (message: ToolMessage)
        requires
            input.value_bits is Some,
        ensures
            message == ToolMessage::Line(LineToolMessage::UpdateOptions(LineOptionsUpdate::LineWeight(input.value_bits.unwrap()))),
    {
        match input.value_bits {
            Some(weight_bits) => ToolMessage::from(LineToolMessage::UpdateOptions(LineOptionsUpdate::LineWeight(weight_bits))),
            None => {
                proof {
                    assert(false);
                }
                ToolMessage::Other
            },
        }
    }

    /// Handles one message as `line_process` says, appending the responses.
    pub fn process_message(
        &mut self,
        message: ToolMessage,
        context: LineToolContext,
        responses: &mut Vec<LineToolResponse>,
    )
        requires
            line_needs_new_layer_path(old(self)@.fsm_state, message) ==> context.new_layer_path is Some,
        ensures
            final(self)@ == line_process(old(self)@, message, context@).0,
            line_responses_view(final(responses)@) == line_responses_view(old(responses)@)
                + line_process(old(self)@, message, context@).1,
            final(self)@.well_formed(),
    {
        proof {
            use_type_invariant(&*self);
        }
        match message {
            ToolMessage::UpdateHints => {
                self.fsm_state.update_hints(responses);
                return;
            },
            ToolMessage::UpdateCursor => {
                self.fsm_state.update_cursor(responses);
                return;
            },
            ToolMessage::Line(LineToolMessage::UpdateOptions(LineOptionsUpdate::LineWeight(weight_bits))) => {
                self.options.line_weight_bits = weight_bits;
                return;
            },
            _ => {},
        }
        let mut tool = LineTool::new();
        std::mem::swap(self, &mut tool);
        let LineTool { fsm_state, mut tool_data, options } = tool;
        let new_state = fsm_state.transition(message, &mut tool_data, context, &options, responses);
        let ghost after_transition = line_responses_view(responses@);
        if fsm_state != new_state {
            new_state.update_hints(responses);
            new_state.update_cursor(responses);
            proof {
                assert(line_responses_view(responses@) =~= after_transition
                    + seq![line_hints_response(new_state), line_cursor_response(new_state)]);
            }
        }
        *self = LineTool { fsm_state: new_state, tool_data, options };
    }
}

impl Default for LineTool {
    /// Same as `new`.
    fn default() -> (tool: Self)
        ensures
            tool@ == line_tool_initial(),
            tool@.well_formed(),
    {
        Self::new()
    }
}

/// How many document transactions a list of responses leaves open: one more for each start,
/// one fewer for each commit or abort.
pub open spec fn line_transaction_balance(responses: Seq<LineToolResponseView>) -> int
    decreases responses.len(),
{
    if responses.len() == 0 {
        0
    } else {
        line_transaction_balance(responses.drop_last()) + match responses.last() {
            LineToolResponseView::Document(DocumentMessage::StartTransaction) => 1int,
            LineToolResponseView::Document(DocumentMessage::CommitTransaction) => -1int,
            LineToolResponseView::Document(DocumentMessage::AbortTransaction) => -1int,
            _ => 0int,
        }
    }
}

proof fn lemma_line_balance_append(a: Seq<LineToolResponseView>, b: Seq<LineToolResponseView>)
    ensures
        line_transaction_balance(a + b) == line_transaction_balance(a) + line_transaction_balance(b),
    decreases b.len(),
{
    if b.len() > 0 {
        lemma_line_balance_append(a, b.drop_last());
        assert((a + b).drop_last() =~= a + b.drop_last());
    }
}

/// 1 while drawing, 0 otherwise.
pub open spec fn line_drawing(state: LineToolFsmState) -> int {
    if state == LineToolFsmState::Drawing {
        1
    } else {
        0
    }
}

/// A document transaction is open exactly while the line tool draws: each message changes
/// the number of open transactions by the change in whether the tool is drawing.
pub proof fn law_line_transaction_open_while_drawing(
    tool: LineToolView,
    message: ToolMessage,
    context: LineToolContextView,
)
    requires
        tool.well_formed(),
        line_needs_new_layer_path(tool.fsm_state, message) ==> context.new_layer_path is Some,
    ensures
        line_transaction_balance(line_process(tool, message, context).1) == line_drawing(
            line_process(tool, message, context).0.fsm_state,
        ) - line_drawing(tool.fsm_state),
{
    reveal_with_fuel(line_transaction_balance, 5);
    let (state, data, responses) = line_transition(tool.fsm_state, message, tool.tool_data, context, tool.options);
    let tail = seq![line_hints_response(state), line_cursor_response(state)];
    lemma_line_balance_append(responses, tail);
}

/// A message of the line tool that the current state does not list among its actions, other
/// than an options update, changes nothing and asks for nothing.
pub proof fn law_line_unlisted_message_is_ignored(
    tool: LineToolView,
    message: LineToolMessage,
    context: LineToolContextView,
)
    requires
        tool.well_formed(),
        line_message_kind(message) != LineToolMessageDiscriminant::UpdateOptions,
        !line_actions(tool.fsm_state).contains(line_message_kind(message)),
    ensures
        line_process(tool, ToolMessage::Line(message), context) == (tool, Seq::<LineToolResponseView>::empty()),
{
    let actions = line_actions(tool.fsm_state);
    if tool.fsm_state == LineToolFsmState::Ready {
        assert(actions[0] == LineToolMessageDiscriminant::DragStart);
    } else {
        assert(actions[0] == LineToolMessageDiscriminant::DragStop);
        assert(actions[1] == LineToolMessageDiscriminant::Redraw);
        assert(actions[2] == LineToolMessageDiscriminant::Abort);
    }
}

/// An abort always leaves the line tool ready, holding no layer.
pub proof fn law_line_abort_returns_to_ready(tool: LineToolView, context: LineToolContextView)
    requires
        tool.well_formed(),
    ensures
        line_process(tool, ToolMessage::Line(LineToolMessage::Abort), context).0.fsm_state
            == LineToolFsmState::Ready,
        line_process(tool, ToolMessage::Line(LineToolMessage::Abort), context).0.tool_data.path is None,
{
}

/// While a line is being drawn, every message either keeps drawing the same layer or ends
/// the drawing.
pub proof fn law_line_drawing_keeps_its_layer(tool: LineToolView, message: ToolMessage, context: LineToolContextView)
    requires
        tool.well_formed(),
        tool.fsm_state == LineToolFsmState::Drawing,
    ensures
        line_process(tool, message, context).0.fsm_state == LineToolFsmState::Drawing
            ==> line_process(tool, message, context).0.tool_data.path == tool.tool_data.path,
{
}

/// Whenever a message changes the tool's state, its last two responses show the hints and
/// the cursor of the new state.
pub proof fn law_line_state_change_shows_new_hints(
    tool: LineToolView,
    message: ToolMessage,
    context: LineToolContextView,
)
    requires
        tool.well_formed(),
        line_process(tool, message, context).0.fsm_state != tool.fsm_state,
    ensures
        ({
            let (next, responses) = line_process(tool, message, context);
            &&& responses.len() >= 2
            &&& responses[responses.len() - 2] == line_hints_response(next.fsm_state)
            &&& responses[responses.len() - 1] == line_cursor_response(next.fsm_state)
        }),
{
}

/// Asking for the hints or the cursor changes nothing and is answered with those of the
/// current state.
pub proof fn law_line_hint_and_cursor_requests_change_nothing(tool: LineToolView, context: LineToolContextView)
    ensures
        line_process(tool, ToolMessage::UpdateHints, context) == (tool, seq![line_hints_response(tool.fsm_state)]),
        line_process(tool, ToolMessage::UpdateCursor, context) == (tool, seq![line_cursor_response(tool.fsm_state)]),
{
}

/// The state machine keeps the line tool's invariant: after any message, the tool holds a
/// layer path exactly when it is drawing, provided a path was supplied where one is needed.
pub proof fn law_line_transition_keeps_invariant(
    state: LineToolFsmState,
    event: ToolMessage,
    data: LineToolDataView,
    context: LineToolContextView,
    options: LineOptions,
)
    requires
        (state == LineToolFsmState::Drawing) == (data.path is Some),
        line_needs_new_layer_path(state, event) ==> context.new_layer_path is Some,
    ensures
        ({
            let (next, next_data, _) = line_transition(state, event, data, context, options);
            (next == LineToolFsmState::Drawing) == (next_data.path is Some)
        }),
{
}

/// The transaction requests among a list of responses, in order: `true` for a start, `false`
/// for a commit or an abort.
pub open spec fn line_transaction_marks(responses: Seq<LineToolResponseView>) -> Seq<bool>
    decreases responses.len(),
{
    if responses.len() == 0 {
        Seq::empty()
    } else {
        let marks = line_transaction_marks(responses.drop_last());
        match responses.last() {
            LineToolResponseView::Document(DocumentMessage::StartTransaction) => marks.push(true),
            LineToolResponseView::Document(DocumentMessage::CommitTransaction) => marks.push(false),
            LineToolResponseView::Document(DocumentMessage::AbortTransaction) => marks.push(false),
            _ => marks,
        }
    }
}

proof fn lemma_line_marks_append(a: Seq<LineToolResponseView>, b: Seq<LineToolResponseView>)
    ensures
        line_transaction_marks(a + b) == line_transaction_marks(a) + line_transaction_marks(b),
    decreases b.len(),
{
    if b.len() == 0 {
        assert(a + b =~= a);
        assert(line_transaction_marks(a) + line_transaction_marks(b) =~= line_transaction_marks(a));
    } else {
        lemma_line_marks_append(a, b.drop_last());
        assert((a + b).drop_last() =~= a + b.drop_last());
        let left = line_transaction_marks(a);
        let right = line_transaction_marks(b.drop_last());
        assert((left + right).push(true) =~= left + right.push(true));
        assert((left + right).push(false) =~= left + right.push(false));
    }
}

/// The transaction requests of one message: a start when the tool begins to draw, a commit
/// or an abort when it stops, and none otherwise.
proof fn lemma_line_step_marks(tool: LineToolView, message: ToolMessage, context: LineToolContextView)
    requires
        tool.well_formed(),
        line_needs_new_layer_path(tool.fsm_state, message) ==> context.new_layer_path is Some,
    ensures
        ({
            let (next, responses) = line_process(tool, message, context);
            &&& next.well_formed()
            &&& line_transaction_marks(responses) == if tool.fsm_state == LineToolFsmState::Ready
                && next.fsm_state == LineToolFsmState::Drawing {
                seq![true]
            } else if tool.fsm_state == LineToolFsmState::Drawing && next.fsm_state
                == LineToolFsmState::Ready {
                seq![false]
            } else {
                Seq::empty()
            }
        }),
{
    reveal_with_fuel(line_transaction_marks, 5);
    let (state, data, responses) = line_transition(tool.fsm_state, message, tool.tool_data, context, tool.options);
    let tail = seq![line_hints_response(state), line_cursor_response(state)];
    lemma_line_marks_append(responses, tail);
    assert(line_transaction_marks(tail) =~= Seq::empty());
    assert(line_transaction_marks(responses) + Seq::<bool>::empty() =~= line_transaction_marks(responses));
    assert(line_transaction_marks(seq![line_hints_response(tool.fsm_state)]) =~= Seq::<bool>::empty());
    assert(line_transaction_marks(seq![line_cursor_response(tool.fsm_state)]) =~= Seq::<bool>::empty());
}

/// The tool and all responses after handling each message of `steps` in turn, each with its
/// context.
pub open spec fn line_run(tool: LineToolView, steps: Seq<(ToolMessage, LineToolContextView)>) -> (
    LineToolView,
    Seq<LineToolResponseView>,
)
    decreases steps.len(),
{
    if steps.len() == 0 {
        (tool, Seq::empty())
    } else {
        let (before, responses) = line_run(tool, steps.drop_last());
        let (after, more) = line_process(before, steps.last().0, steps.last().1);
        (after, responses + more)
    }
}

/// Over any run of messages from a ready tool, where every drag start comes with a path for
/// the new layer, transaction starts and ends strictly alternate, beginning with a start, and
/// a transaction is left open exactly when the tool ends up drawing.
pub proof fn law_line_transactions_alternate(tool: LineToolView, steps: Seq<(ToolMessage, LineToolContextView)>)
    requires
        tool.well_formed(),
        tool.fsm_state == LineToolFsmState::Ready,
        forall|i: int|
            0 <= i < steps.len() && (#[trigger] steps[i]).0 == ToolMessage::Line(LineToolMessage::DragStart)
                ==> steps[i].1.new_layer_path is Some,
    ensures
        ({
            let (last, responses) = line_run(tool, steps);
            let marks = line_transaction_marks(responses);
            &&& last.well_formed()
            &&& forall|i: int| 0 <= i < marks.len() ==> #[trigger] marks[i] == (i % 2 == 0)
            &&& marks.len() % 2 == line_drawing(last.fsm_state)
        }),
    decreases steps.len(),
{
    if steps.len() > 0 {
        let init = steps.drop_last();
        assert forall|i: int|
            0 <= i < init.len() && (#[trigger] init[i]).0 == ToolMessage::Line(LineToolMessage::DragStart)
                implies init[i].1.new_layer_path is Some by {
            assert(init[i] == steps[i]);
        }
        law_line_transactions_alternate(tool, init);
        let (before, responses) = line_run(tool, init);
        let step = steps.last();
        assert(step == steps[steps.len() - 1]);
        lemma_line_step_marks(before, step.0, step.1);
        let (after, more) = line_process(before, step.0, step.1);
        lemma_line_marks_append(responses, more);
    }
}

/// Every line is stroked with the weight in the options at its drag start: starting a drag
/// adds a line at the new layer's path with the current option weight, and the tool
/// remembers that weight, whatever it remembered from an earlier line.
pub proof fn law_line_drag_start_uses_current_weight(tool: LineToolView, context: LineToolContextView)
    requires
        tool.well_formed(),
        tool.fsm_state == LineToolFsmState::Ready,
        context.new_layer_path is Some,
    ensures
        ({
            let (next, responses) = line_process(tool, ToolMessage::Line(LineToolMessage::DragStart), context);
            &&& next.fsm_state == LineToolFsmState::Drawing
            &&& next.tool_data.weight_bits == tool.options.line_weight_bits
            &&& next.tool_data.path == context.new_layer_path
            &&& responses.contains(
                LineToolResponseView::AddLine {
                    path: context.new_layer_path.unwrap(),
                    weight_bits: tool.options.line_weight_bits,
                },
            )
        }),
{
    let (next, responses) = line_process(tool, ToolMessage::Line(LineToolMessage::DragStart), context);
    assert(responses[3] == LineToolResponseView::AddLine {
        path: context.new_layer_path.unwrap(),
        weight_bits: tool.options.line_weight_bits,
    });
}

/// A weight set in the options bar is the weight of the next line drawn: after an options
/// update to `weight_bits` in the ready state, a drag start adds its line with that weight.
pub proof fn law_line_weight_update_applies_to_next_line(
    tool: LineToolView,
    weight_bits: u64,
    update_context: LineToolContextView,
    context: LineToolContextView,
)
    requires
        tool.well_formed(),
        tool.fsm_state == LineToolFsmState::Ready,
        context.new_layer_path is Some,
    ensures
        ({
            let updated = line_process(
                tool,
                ToolMessage::Line(LineToolMessage::UpdateOptions(LineOptionsUpdate::LineWeight(weight_bits))),
                update_context,
            ).0;
            let (next, responses) = line_process(updated, ToolMessage::Line(LineToolMessage::DragStart), context);
            &&& updated.options.line_weight_bits == weight_bits
            &&& next.tool_data.weight_bits == weight_bits
            &&& responses.contains(
                LineToolResponseView::AddLine { path: context.new_layer_path.unwrap(), weight_bits },
            )
        }),
{
    let updated = line_process(
        tool,
        ToolMessage::Line(LineToolMessage::UpdateOptions(LineOptionsUpdate::LineWeight(weight_bits))),
        update_context,
    ).0;
    law_line_drag_start_uses_current_weight(updated, context);
}

/// Each hint of the line tool names the key that does what its label says: Shift snaps the
/// angle, Alt draws from the center, Control locks the angle, and dragging with the left
/// button draws the line; in both states the hints form one group.
pub proof fn law_line_hints_name_their_keys(state: LineToolFsmState)
    ensures
        line_hints(state).len() == 1,
        forall|i: int|
            0 <= i < line_hints(state)[0].len() ==> {
                let h = #[trigger] line_hints(state)[0][i];
                &&& h.label == "Snap 15°"@ ==> h.key_groups == seq![seq![Key::Shift]] && h.mouse is None
                &&& h.label == "From Center"@ ==> h.key_groups == seq![seq![Key::Alt]] && h.mouse is None
                &&& h.label == "Lock Angle"@ ==> h.key_groups == seq![seq![Key::Control]] && h.mouse is None
                &&& h.label == "Draw Line"@ ==> h.key_groups.len() == 0 && h.mouse == Some(MouseMotion::LmbDrag)
            },
{
    reveal_strlit("Snap 15°");
    reveal_strlit("From Center");
    reveal_strlit("Lock Angle");
    reveal_strlit("Draw Line");
    assert("Snap 15°"@.len() == 8);
    assert("From Center"@.len() == 11);
    assert("Lock Angle"@.len() == 10);
    assert("Draw Line"@.len() == 9);
}

/// While drawing, the line tool hints the same modifier keys as when ready, in the same order,
/// only no longer joined to the drag hint that the ready state shows first.
pub proof fn law_line_drawing_hints_keep_the_modifiers()
    ensures
        line_hints(LineToolFsmState::Ready)[0].len() == 4,
        line_hints(LineToolFsmState::Drawing)[0].len() == 3,
        forall|i: int|
            0 <= i < 3 ==> #[trigger] line_hints(LineToolFsmState::Drawing)[0][i] == (HintInfoView {
                plus: false,
                ..line_hints(LineToolFsmState::Ready)[0][i + 1]
            }),
{
}

} // verus!
