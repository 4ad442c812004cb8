use vstd::prelude::*;
use vstd::string::StrSliceExecFns;

verus! {

/// Control type of an editable field.
pub const EDIT_CONTROL: i32 = 50004;

/// Control type of a document.
pub const DOCUMENT_CONTROL: i32 = 50030;

/// Control type of a group container.
pub const GROUP_CONTROL: i32 = 50026;

/// Property id of an element's value.
pub const VALUE_PROPERTY: i32 = 30045;

/// Event id of the text-changed notification.
pub const TEXT_CHANGED_EVENT: i32 = 20015;

/// Controls whose focus and value changes are followed.
pub open spec fn is_input_control(control_type: i32) -> bool {
    control_type == EDIT_CONTROL || control_type == GROUP_CONTROL
}

/// Controls whose text-changed notifications are followed.
pub open spec fn is_text_control(control_type: i32) -> bool {
    control_type == EDIT_CONTROL || control_type == DOCUMENT_CONTROL || control_type
        == GROUP_CONTROL
}

/// A known control type of an input control.
pub open spec fn known_input(control_type: Option<i32>) -> bool {
    control_type matches Some(ct) && is_input_control(ct)
}

/// A known control type of a text control.
pub open spec fn known_text(control_type: Option<i32>) -> bool {
    control_type matches Some(ct) && is_text_control(ct)
}

/// A property change is forwarded exactly when it changes the value, of an
/// input control that holds the focus, and leaves some text to show.
pub open spec fn property_forwarded(
    property_id: i32,
    control_type: Option<i32>,
    has_focus: bool,
    text: Seq<char>,
) -> bool {
    &&& property_id == VALUE_PROPERTY
    &&& known_input(control_type)
    &&& has_focus
    &&& text.len() > 0
}

/// A text-changed notification is forwarded exactly when it is one, from a
/// focused text control, with some text to show.
pub open spec fn text_change_forwarded(
    event_id: i32,
    has_focus: bool,
    control_type: Option<i32>,
    text: Seq<char>,
) -> bool {
    &&& event_id == TEXT_CHANGED_EVENT
    &&& has_focus
    &&& known_text(control_type)
    &&& text.len() > 0
}

/// Where a forwarded message was captured.
#[derive(Clone, Copy, Debug, PartialEq, Eq, Structural)]
pub enum CapturePath {
    Property,
    TextChanged,
}

pub fn is_input_control_type(control_type: i32) -> (r: bool)
    ensures
        r == is_input_control(control_type),
{
    control_type == EDIT_CONTROL || control_type == GROUP_CONTROL
}

pub fn is_text_control_type(control_type: i32) -> (r: bool)
    ensures
        r == is_text_control(control_type),
{
    control_type == EDIT_CONTROL || control_type == DOCUMENT_CONTROL || control_type
        == GROUP_CONTROL
}

/// Whether a focus change onto a control of `control_type` (absent when the
/// host could not tell) is reported.
pub fn accepts_focus(control_type: Option<i32>) -> (r: bool)
    ensures
        r == known_input(control_type),
{
    match control_type {
        Some(ct) => is_input_control_type(ct),
        None => false,
    }
}

/// Whether a property change is worth reading any text for: it changes the
/// value of an input control.
pub fn property_relevant(property_id: i32, control_type: Option<i32>) -> (r: bool)
    ensures
        r == (property_id == VALUE_PROPERTY && known_input(control_type)),
{
    property_id == VALUE_PROPERTY && accepts_focus(control_type)
}

/// Whether a property change goes on to the debounce channel.
pub fn forwards_property_change(
    property_id: i32,
    control_type: Option<i32>,
    has_focus: bool,
    text: &String,
) -> (r: bool)
    ensures
        r == property_forwarded(property_id, control_type, has_focus, text@),
{
    property_relevant(property_id, control_type) && has_focus && text.as_str().unicode_len() > 0
}

/// Whether a text-changed notification is worth reading any text for.
pub fn text_change_relevant(event_id: i32, has_focus: bool, control_type: Option<i32>) -> (r: bool)
    ensures
        r == (event_id == TEXT_CHANGED_EVENT && has_focus && known_text(control_type)),
{
    event_id == TEXT_CHANGED_EVENT && has_focus && match control_type {
        Some(ct) => is_text_control_type(ct),
        None => false,
    }
}

/// Whether a text-changed notification goes on to the debounce channel.
pub fn forwards_text_change(
    event_id: i32,
    has_focus: bool,
    control_type: Option<i32>,
    text: &String,
) -> (r: bool)
    ensures
        r == text_change_forwarded(event_id, has_focus, control_type, text@),
{
    text_change_relevant(event_id, has_focus, control_type) && text.as_str().unicode_len() > 0
}

/// Each of the four conditions on a property change decides on its own: with
/// the other three met, the change is forwarded exactly when it holds.
pub proof fn lemma_property_gates_independent(
    control_type: i32,
    text: Seq<char>,
    other_property: i32,
    other_control: i32,
)
    requires
        is_input_control(control_type),
        text.len() > 0,
        other_property != VALUE_PROPERTY,
        !is_input_control(other_control),
    ensures
        property_forwarded(VALUE_PROPERTY, Some(control_type), true, text),
        !property_forwarded(other_property, Some(control_type), true, text),
        !property_forwarded(VALUE_PROPERTY, Some(other_control), true, text),
        !property_forwarded(VALUE_PROPERTY, None, true, text),
        !property_forwarded(VALUE_PROPERTY, Some(control_type), false, text),
        !property_forwarded(VALUE_PROPERTY, Some(control_type), true, Seq::empty()),
{
}

} // verus!
