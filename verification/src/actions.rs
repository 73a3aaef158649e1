//! The vocabulary of the dispatcher: how a platform delivers URLs, and the
//! UI actions the embedding shell performs on the dispatcher's behalf.
//!
//! Each dispatcher entry point returns a list of [`UiAction`] values; the
//! shell walks the list in order and performs each action against its real
//! window handles. The abstract form [`AbsAction`] is the same action over
//! character sequences, used by the contracts.

use vstd::prelude::*;

verus! {

/// How the operating system delivers a deep-link URL to a freshly started
/// primary instance.
#[derive(Clone, Copy, Debug, PartialEq, Eq, Structural)]
pub enum Platform {
    /// A native scheme-registration hook is available from the start: every
    /// URL, including one that launched the process, arrives through the
    /// registered callback. The argument vector is not inspected.
    CallbackDriven,
    /// No native hook exists at first launch: the operating system hands the
    /// URL to the new process as its second argument, and only later
    /// invocations of an already-running instance go through the
    /// single-instance relay.
    ArgumentVectorDriven,
}

/// One UI action the embedding shell must perform, in order.
#[derive(Clone, Debug, PartialEq, Eq)]
pub enum UiAction {
    /// Create the single application window.
    CreateWindow,
    /// Bring the existing window to the front.
    FocusWindow,
    /// Script-injection fallback: assign `value` to the global variable
    /// `name` inside the webview's script context, so the URL is readable
    /// even before any event listener has attached.
    SetGlobal { name: String, value: String },
    /// Emit the event `name` to the webview, carrying the raw URL `payload`.
    EmitEvent { name: String, payload: String },
}

/// The abstract form of a [`UiAction`]: the same action over character
/// sequences.
pub enum AbsAction {
    CreateWindow,
    FocusWindow,
    SetGlobal { name: Seq<char>, value: Seq<char> },
    EmitEvent { name: Seq<char>, payload: Seq<char> },
}

impl View for UiAction {
    type V = AbsAction;

    open spec fn view(&self) -> AbsAction {
        match self {
            UiAction::CreateWindow => AbsAction::CreateWindow,
            UiAction::FocusWindow => AbsAction::FocusWindow,
            UiAction::SetGlobal { name, value } => AbsAction::SetGlobal {
                name: name@,
                value: value@,
            },
            UiAction::EmitEvent { name, payload } => AbsAction::EmitEvent {
                name: name@,
                payload: payload@,
            },
        }
    }
}

/// The abstract form of a whole action list.
pub open spec fn abs_actions(s: Seq<UiAction>) -> Seq<AbsAction> {
    s.map_values(|a: UiAction| a@)
}

/// The events an action list emits, in order: each element is the pair of
/// event name and payload.
pub open spec fn emitted_events(s: Seq<AbsAction>) -> Seq<(Seq<char>, Seq<char>)>
    decreases s.len(),
{
    if s.len() == 0 {
        Seq::empty()
    } else {
        let rest = emitted_events(s.drop_first());
        match s[0] {
            AbsAction::EmitEvent { name, payload } => seq![(name, payload)] + rest,
            _ => rest,
        }
    }
}

/// The global-variable assignments an action list makes, in order: each
/// element is the pair of variable name and assigned value.
pub open spec fn global_assignments(s: Seq<AbsAction>) -> Seq<(Seq<char>, Seq<char>)>
    decreases s.len(),
{
    if s.len() == 0 {
        Seq::empty()
    } else {
        let rest = global_assignments(s.drop_first());
        match s[0] {
            AbsAction::SetGlobal { name, value } => seq![(name, value)] + rest,
            _ => rest,
        }
    }
}

/// How many windows an action list creates.
pub open spec fn window_creations(s: Seq<AbsAction>) -> nat
    decreases s.len(),
{
    if s.len() == 0 {
        0
    } else {
        let rest = window_creations(s.drop_first());
        match s[0] {
            AbsAction::CreateWindow => rest + 1,
            _ => rest,
        }
    }
}

} // verus!
