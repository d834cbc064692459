//! Editor toast notifications: the severity levels the editor understands.
use vstd::prelude::*;

verus! {

/// The severity of an editor toast notification.
#[derive(Clone, Copy)]
pub enum EditorToasterSeverity {
    Warning,
}

/// The engine's number for each severity.
pub open spec fn severity_code(value: EditorToasterSeverity) -> u8 {
    match value {
        EditorToasterSeverity::Warning => 1,
    }
}

impl From<EditorToasterSeverity> for u8 {
    fn from(value: EditorToasterSeverity) -> (r: u8) {
        match value {
            EditorToasterSeverity::Warning => 1,
        }
    }
}

impl vstd::std_specs::convert::FromSpecImpl<EditorToasterSeverity> for u8 {
    open spec fn obeys_from_spec() -> bool {
        true
    }

    open spec fn from_spec(value: EditorToasterSeverity) -> u8 {
        severity_code(value)
    }
}

/// Whether a toast can be shown: only inside the editor.
pub fn should_show_toast(is_editor_hint: bool) -> (r: bool)
    ensures
        r == is_editor_hint,
{
    is_editor_hint
}

} // verus!
