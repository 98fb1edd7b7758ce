//! The kinds of notice shown to a visitor after a form was handled.

use vstd::prelude::*;

verus! {

/// Whether a notice reports success or failure.
#[derive(Debug, Clone, Copy, PartialEq, Eq, Structural)]
pub enum ToastKind {
    Success,
    Error,
}

impl ToastKind {
    /// The name of the kind, as style sheets and scripts know it.
    pub fn as_str(&self) -> (name: &'static str)
        ensures
            *self == ToastKind::Success ==> name@ == "success"@,
            *self == ToastKind::Error ==> name@ == "error"@,
    {
        match self {
            ToastKind::Success => "success",
            ToastKind::Error => "error",
        }
    }

    /// The sign shown beside the notice.
    pub fn icon(&self) -> (sign: &'static str)
        ensures
            *self == ToastKind::Success ==> sign@ == "✓"@,
            *self == ToastKind::Error ==> sign@ == "✕"@,
    {
        match self {
            ToastKind::Success => "✓",
            ToastKind::Error => "✕",
        }
    }
}

} // verus!
