//! The window operations a request can call for.

use vstd::prelude::*;

verus! {

/// Something worth telling the operator about while sizing the window.
#[derive(Clone, Copy, Debug, PartialEq, Eq, Structural)]
pub enum Notice {
    /// The window is on no monitor.
    NoMonitor,
    /// Asking for the window's monitor failed.
    QueryFailed,
}

/// One operation on the window. Sizes and positions are in logical units.
#[derive(Clone, Copy, Debug, PartialEq, Eq, Structural)]
pub enum WindowAction {
    /// Print a notice to the console.
    Report { notice: Notice },
    /// Move the window to the top left corner of the screen.
    MoveToOrigin,
    /// Give the window this size.
    Resize { width: u32, height: u32 },
    /// Switch the window's drop shadow on or off.
    Shadow { enabled: bool },
    /// Keep the window above all others, or stop doing so.
    AlwaysOnTop { enabled: bool },
    /// Move the window to the centre of its monitor.
    Center,
}

/// The text of a notice. `detail` describes the failure and is used only
/// where the notice is about one.
pub open spec fn notice_text(notice: Notice, detail: Seq<char>) -> Seq<char> {
    match notice {
        Notice::NoMonitor => "No monitor found"@,
        Notice::QueryFailed => "An error occurred: "@ + detail,
    }
}

/// Appends `tail` to `text` with `String::push_str`, which is documented to
/// append the given slice onto the end of the string. Not proved: that the
/// string afterwards is the old string followed by `tail`.
#[verifier::external_body]
fn append(text: &mut String, tail: &str)
    ensures
        final(text)@ == old(text)@ + tail@,
{
    text.push_str(tail);
}

impl Notice {
    /// The line to print for this notice.
    pub fn message(&self, detail: &str) -> (text: String)
        ensures
            text@ == notice_text(*self, detail@),
    {
        match self {
            Notice::NoMonitor => "No monitor found".to_owned(),
            Notice::QueryFailed => {
                let mut text: String = "An error occurred: ".to_owned();
                append(&mut text, detail);
                text
            },
        }
    }
}

impl WindowAction {
    /// Whether a failure of this operation stops the request.
    ///
    /// Centring is done on a best-effort basis and a notice cannot fail;
    /// every other operation has to succeed.
    pub open spec fn is_required(self) -> bool {
        !(self is Center) && !(self is Report)
    }

    /// Tells the caller whether to give up when this operation fails.
    pub fn must_succeed(&self) -> (required: bool)
        ensures
            required == self.is_required(),
    {
        match self {
            WindowAction::Center => false,
            WindowAction::Report { .. } => false,
            WindowAction::MoveToOrigin => true,
            WindowAction::Resize { .. } => true,
            WindowAction::Shadow { .. } => true,
            WindowAction::AlwaysOnTop { .. } => true,
        }
    }
}

} // verus!
