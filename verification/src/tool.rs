use vstd::prelude::*;
use crate::freehand_tool::FreehandToolMessage;
use crate::line_tool::LineToolMessage;

verus! {

/// The keyboard keys that the drawing tools name in their hints and messages.
#[derive(Debug, Clone, Copy, PartialEq, Eq, Structural)]
pub enum Key {
    Shift,
    Control,
    Alt,
}

/// The mouse gestures that the drawing tools name in their hints.
#[derive(Debug, Clone, Copy, PartialEq, Eq, Structural)]
pub enum MouseMotion {
    LmbDrag,
}

/// The mouse cursors that the drawing tools ask for.
#[derive(Debug, Clone, Copy, PartialEq, Eq, Structural)]
pub enum MouseCursorIcon {
    Default,
    Crosshair,
}

/// The kinds of tool implemented here.
#[derive(Debug, Clone, Copy, PartialEq, Eq, Structural)]
pub enum ToolType {
    Line,
    Freehand,
}

/// Keys that are pressed together.
#[derive(Debug, Clone, PartialEq, Eq)]
pub struct KeysGroup(pub Vec<Key>);

impl View for KeysGroup {
    type V = Seq<Key>;

    open spec fn view(&self) -> Seq<Key> {
        self.0@
    }
}

pub open spec fn keys_groups_view(groups: Seq<KeysGroup>) -> Seq<Seq<Key>> {
    groups.map_values(|group: KeysGroup| group@)
}

/// One entry of the input hints bar: which keys and mouse gesture do what.
#[derive(Debug, Clone, PartialEq, Eq)]
pub struct HintInfo {
    pub key_groups: Vec<KeysGroup>,
    pub key_groups_mac: Option<Vec<KeysGroup>>,
    pub mouse: Option<MouseMotion>,
    pub label: String,
    pub plus: bool,
}

pub struct HintInfoView {
    pub key_groups: Seq<Seq<Key>>,
    pub key_groups_mac: Option<Seq<Seq<Key>>>,
    pub mouse: Option<MouseMotion>,
    pub label: Seq<char>,
    pub plus: bool,
}

impl View for HintInfo {
    type V = HintInfoView;

    open spec fn view(&self) -> HintInfoView {
        HintInfoView {
            key_groups: keys_groups_view(self.key_groups@),
            key_groups_mac: match self.key_groups_mac {
                Some(groups) => Some(keys_groups_view(groups@)),
                None => None,
            },
            mouse: self.mouse,
            label: self.label@,
            plus: self.plus,
        }
    }
}

/// Hints shown together, as one group.
#[derive(Debug, Clone, PartialEq, Eq)]
pub struct HintGroup(pub Vec<HintInfo>);

impl View for HintGroup {
    type V = Seq<HintInfoView>;

    open spec fn view(&self) -> Seq<HintInfoView> {
        self.0@.map_values(|info: HintInfo| info@)
    }
}

/// The whole content of the input hints bar.
#[derive(Debug, Clone, PartialEq, Eq)]
pub struct HintData(pub Vec<HintGroup>);

impl View for HintData {
    type V = Seq<Seq<HintInfoView>>;

    open spec fn view(&self) -> Seq<Seq<HintInfoView>> {
        self.0@.map_values(|group: HintGroup| group@)
    }
}

/// A hint with at most one key, no separate keys for the Mac, an optional mouse gesture,
/// a label, and whether it is shown joined to the hint before it.
pub open spec fn hint_view(key: Option<Key>, mouse: Option<MouseMotion>, label: Seq<char>, plus: bool) -> HintInfoView {
    HintInfoView {
        key_groups: match key {
            Some(k) => seq![seq![k]],
            None => Seq::empty(),
        },
        key_groups_mac: None,
        mouse,
        label,
        plus,
    }
}

/// Builds the hint that `hint_view` describes.
pub fn hint(key: Option<Key>, mouse: Option<MouseMotion>, label: &str, plus: bool) -> (info: HintInfo)
    ensures
        info@ == hint_view(key, mouse, label@, plus),
{
    let mut key_groups: Vec<KeysGroup> = Vec::new();
    match key {
        Some(k) => {
            let mut keys: Vec<Key> = Vec::new();
            keys.push(k);
            key_groups.push(KeysGroup(keys));
        },
        None => {},
    }
    let info = HintInfo { key_groups, key_groups_mac: None, mouse, label: String::from_str(label), plus };
    proof {
        assert(keys_groups_view(info.key_groups@) =~= hint_view(key, mouse, label@, plus).key_groups);
    }
    info
}

/// Builds a hint bar made of a single group holding `infos`, in order.
pub fn single_group(infos: Vec<HintInfo>) -> (data: HintData)
    ensures
        data@ == seq![infos@.map_values(|info: HintInfo| info@)],
{
    let mut groups: Vec<HintGroup> = Vec::new();
    groups.push(HintGroup(infos));
    let data = HintData(groups);
    proof {
        assert(data@ =~= seq![infos@.map_values(|info: HintInfo| info@)]);
    }
    data
}

/// Requests to the document that open and close an undoable transaction or change the selection.
#[derive(Debug, Clone, Copy, PartialEq, Eq, Structural)]
pub enum DocumentMessage {
    StartTransaction,
    DeselectAllLayers,
    AbortTransaction,
    CommitTransaction,
}

/// Requests to the user interface.
#[derive(Debug, Clone, PartialEq, Eq)]
pub enum FrontendMessage {
    UpdateInputHints { hint_data: HintData },
    UpdateMouseCursor { cursor: MouseCursorIcon },
}

pub enum FrontendMessageView {
    UpdateInputHints { hint_data: Seq<Seq<HintInfoView>> },
    UpdateMouseCursor { cursor: MouseCursorIcon },
}

impl View for FrontendMessage {
    type V = FrontendMessageView;

    open spec fn view(&self) -> FrontendMessageView {
        match self {
            FrontendMessage::UpdateInputHints { hint_data } => FrontendMessageView::UpdateInputHints {
                hint_data: hint_data@,
            },
            FrontendMessage::UpdateMouseCursor { cursor } => FrontendMessageView::UpdateMouseCursor {
                cursor: *cursor,
            },
        }
    }
}

/// The messages that reach a tool.  `Other` stands for every message meant for another tool
/// or for the tool system itself; neither drawing tool reacts to it.
#[derive(Debug, Clone, Copy, PartialEq, Eq, Structural)]
pub enum ToolMessage {
    UpdateHints,
    UpdateCursor,
    Line(LineToolMessage),
    Freehand(FreehandToolMessage),
    Other,
}

impl From<LineToolMessage> for ToolMessage {
    fn from(message: LineToolMessage) -> (tool_message: Self) {
        ToolMessage::Line(message)
    }
}

impl vstd::std_specs::convert::FromSpecImpl<LineToolMessage> for ToolMessage {
    open spec fn obeys_from_spec() -> bool {
        true
    }

    open spec fn from_spec(message: LineToolMessage) -> ToolMessage {
        ToolMessage::Line(message)
    }
}

impl From<FreehandToolMessage> for ToolMessage {
    fn from(message: FreehandToolMessage) -> (tool_message: Self) {
        ToolMessage::Freehand(message)
    }
}

impl vstd::std_specs::convert::FromSpecImpl<FreehandToolMessage> for ToolMessage {
    open spec fn obeys_from_spec() -> bool {
        true
    }

    open spec fn from_spec(message: FreehandToolMessage) -> ToolMessage {
        ToolMessage::Freehand(message)
    }
}

/// Which message a tool wants to receive when the document changes, when the tool is
/// aborted from outside, and when the selection changes.
#[derive(Debug, Clone, Copy, PartialEq, Eq, Structural)]
pub struct EventToMessageMap {
    pub document_dirty: Option<ToolMessage>,
    pub tool_abort: Option<ToolMessage>,
    pub selection_changed: Option<ToolMessage>,
}

/// The number field of a tool's options bar.  Numbers are held as the bit patterns of
/// their IEEE 754 double-precision values.
#[derive(Debug, Clone, PartialEq, Eq)]
pub struct NumberInput {
    pub unit: String,
    pub label: String,
    pub value_bits: Option<u64>,
    pub is_integer: bool,
    pub min_bits: Option<u64>,
}

pub struct NumberInputView {
    pub unit: Seq<char>,
    pub label: Seq<char>,
    pub value_bits: Option<u64>,
    pub is_integer: bool,
    pub min_bits: Option<u64>,
}

impl View for NumberInput {
    type V = NumberInputView;

    open spec fn view(&self) -> NumberInputView {
        NumberInputView {
            unit: self.unit@,
            label: self.label@,
            value_bits: self.value_bits,
            is_integer: self.is_integer,
            min_bits: self.min_bits,
        }
    }
}

/// The stroke weight both drawing tools start with, 5 px, as the bit pattern of the double.
pub const DEFAULT_LINE_WEIGHT_BITS: u64 = 0x4014_0000_0000_0000;

/// A copy of a layer path.
pub fn copy_path(path: &Vec<u64>) -> (copy: Vec<u64>)
    ensures
        copy@ == path@,
{
    let mut copy: Vec<u64> = Vec::new();
    let mut i: usize = 0;
    while i < path.len()
        invariant
            i <= path.len(),
            copy@ == path@.take(i as int),
        decreases path.len() - i,
    {
        copy.push(path[i]);
        proof {
            assert(path@.take(i + 1) =~= path@.take(i as int).push(path@[i as int]));
        }
        i = i + 1;
    }
    proof {
        assert(path@.take(path.len() as int) =~= path@);
    }
    copy
}

} // verus!
