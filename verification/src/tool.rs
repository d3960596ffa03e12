//! The tools of the window and the rules on which of them is active.

use vstd::prelude::*;

verus! {

/// What the pointer does on the image.
#[derive(Debug, Clone, Copy, PartialEq, Eq, Structural)]
pub enum Tool {
    /// No tool: the pointer only pans.
    Idle,
    Pencil,
    Highlight,
    Arrow,
    Measure,
    Text,
    PickColor,
    Select,
    Scale,
}

impl Default for Tool {
    fn default() -> (tool: Self)
        ensures
            tool == Tool::Idle,
    {
        Tool::Idle
    }
}

impl Tool {
    /// The name under which a tool is stored and selected.
    pub open spec fn spec_name(self) -> Seq<char> {
        match self {
            Tool::Idle => "none"@,
            Tool::Pencil => "pencil"@,
            Tool::Highlight => "highlight"@,
            Tool::Arrow => "arrow"@,
            Tool::Measure => "measure"@,
            Tool::Text => "text"@,
            Tool::PickColor => "pick-color"@,
            Tool::Select => "select"@,
            Tool::Scale => "scale"@,
        }
    }

    /// Whether the tool draws on the image.
    pub open spec fn spec_is_annotation(self) -> bool {
        self == Tool::Pencil || self.spec_is_vector_annotation()
    }

    /// Whether the tool places a shape that can be edited afterwards.
    pub open spec fn spec_is_vector_annotation(self) -> bool {
        self == Tool::Highlight || self == Tool::Arrow || self == Tool::Measure || self
            == Tool::Text
    }

    /// The tool's name.
    pub fn name(self) -> (name: &'static str)
        ensures
            name@ == self.spec_name(),
    {
        match self {
            Tool::Idle => "none",
            Tool::Pencil => "pencil",
            Tool::Highlight => "highlight",
            Tool::Arrow => "arrow",
            Tool::Measure => "measure",
            Tool::Text => "text",
            Tool::PickColor => "pick-color",
            Tool::Select => "select",
            Tool::Scale => "scale",
        }
    }

    /// The tool of that name, if there is one.
    pub fn from_name(name: &str) -> (tool: Option<Tool>)
        ensures
            forall|candidate: Tool| tool == Some(candidate) <==> name@ == #[trigger]
                candidate.spec_name(),
    {
        let name = String::from_str(name);
        let tool = if name == String::from_str("none") {
            Some(Tool::Idle)
        } else if name == String::from_str("pencil") {
            Some(Tool::Pencil)
        } else if name == String::from_str("highlight") {
            Some(Tool::Highlight)
        } else if name == String::from_str("arrow") {
            Some(Tool::Arrow)
        } else if name == String::from_str("measure") {
            Some(Tool::Measure)
        } else if name == String::from_str("text") {
            Some(Tool::Text)
        } else if name == String::from_str("pick-color") {
            Some(Tool::PickColor)
        } else if name == String::from_str("select") {
            Some(Tool::Select)
        } else if name == String::from_str("scale") {
            Some(Tool::Scale)
        } else {
            None
        };
        proof {
            assert forall|candidate: Tool| tool == Some(candidate) <==> name@ == #[trigger]
                candidate.spec_name() by {
                if tool is Some && name@ == candidate.spec_name() {
                    names_are_distinct(tool->0, candidate);
                }
            }
        }
        tool
    }

    /// Whether the tool draws on the image.
    pub fn is_annotation(self) -> (annotation: bool)
        ensures
            annotation == self.spec_is_annotation(),
    {
        matches!(self, Tool::Pencil | Tool::Highlight | Tool::Arrow | Tool::Measure | Tool::Text)
    }

    /// Whether the tool places a shape that can be edited afterwards.
    pub fn is_vector_annotation(self) -> (vector: bool)
        ensures
            vector == self.spec_is_vector_annotation(),
    {
        matches!(self, Tool::Highlight | Tool::Arrow | Tool::Measure | Tool::Text)
    }
}

/// When the colour palette is shown.
pub open spec fn spec_palette_visible(tool: Tool, return_tool: Option<Tool>) -> bool {
    tool.spec_is_annotation() || (tool == Tool::PickColor && return_tool is Some)
}

/// The tool that a request leads to.
pub open spec fn spec_resting_tool(requested: Tool, editable: bool) -> Tool {
    if editable && requested == Tool::Idle {
        Tool::Select
    } else {
        requested
    }
}

/// Whether the colour palette is shown: for each drawing tool, and for the
/// colour picker when it returns to one.
pub fn palette_visible(tool: Tool, return_tool: Option<Tool>) -> (visible: bool)
    ensures
        visible == spec_palette_visible(tool, return_tool),
{
    tool.is_annotation() || matches!(tool, Tool::PickColor) && return_tool.is_some()
}

/// Whether a press of the pencil starts a stroke: not on an annotation, which
/// is then selected instead.
pub fn pencil_drag_available(annotation_hit: bool) -> (available: bool)
    ensures
        available == !annotation_hit,
{
    !annotation_hit
}

/// The tool that a request leads to: where pixels can be edited, the resting
/// state is the selection.
pub fn resting_tool(requested: Tool, editable: bool) -> (tool: Tool)
    ensures
        tool == spec_resting_tool(requested, editable),
{
    if editable && matches!(requested, Tool::Idle) {
        Tool::Select
    } else {
        requested
    }
}

/// Two tools never share a name.
pub proof fn names_are_distinct(left: Tool, right: Tool)
    requires
        left.spec_name() == right.spec_name(),
    ensures
        left == right,
{
    reveal_strlit("none");
    reveal_strlit("pencil");
    reveal_strlit("highlight");
    reveal_strlit("arrow");
    reveal_strlit("measure");
    reveal_strlit("text");
    reveal_strlit("pick-color");
    reveal_strlit("select");
    reveal_strlit("scale");
    assert("none"@.len() == 4 && "none"@[0] == 'n');
    assert("pencil"@.len() == 6 && "pencil"@[0] == 'p');
    assert("highlight"@.len() == 9 && "highlight"@[0] == 'h');
    assert("arrow"@.len() == 5 && "arrow"@[0] == 'a');
    assert("measure"@.len() == 7 && "measure"@[0] == 'm');
    assert("text"@.len() == 4 && "text"@[0] == 't');
    assert("pick-color"@.len() == 10 && "pick-color"@[0] == 'p');
    assert("select"@.len() == 6 && "select"@[0] == 's');
    assert("scale"@.len() == 5 && "scale"@[0] == 's');
}

} // verus!
