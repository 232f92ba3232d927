use vstd::prelude::*;

verus! {

/// Why a window command failed, as the model of [`WindowError`] sees it.
pub enum WindowFault {
    MainWindowMissing,
    InvalidUrl(Seq<char>),
    BuilderFailed(Seq<char>),
    BuildFailed(Seq<char>),
    CloseFailed(Seq<char>),
    FocusFailed(Seq<char>),
}

/// Why a window command failed. The variants that carry text carry the words
/// of the party that refused: the URL parser or the windowing subsystem.
#[derive(Clone, Debug, PartialEq, Eq)]
pub enum WindowError {
    /// The main window, which a new window is parented to, is not open.
    MainWindowMissing,
    /// The address does not parse as an absolute URL.
    InvalidUrl(String),
    /// The windowing subsystem refused to make a builder for the window.
    BuilderFailed(String),
    /// The windowing subsystem failed to build or show the window.
    BuildFailed(String),
    /// The windowing subsystem failed to close the window.
    CloseFailed(String),
    /// The windowing subsystem failed to focus the window.
    FocusFailed(String),
}

impl View for WindowError {
    type V = WindowFault;

    open spec fn view(&self) -> WindowFault {
        match self {
            WindowError::MainWindowMissing => WindowFault::MainWindowMissing,
            WindowError::InvalidUrl(t) => WindowFault::InvalidUrl(t@),
            WindowError::BuilderFailed(t) => WindowFault::BuilderFailed(t@),
            WindowError::BuildFailed(t) => WindowFault::BuildFailed(t@),
            WindowError::CloseFailed(t) => WindowFault::CloseFailed(t@),
            WindowError::FocusFailed(t) => WindowFault::FocusFailed(t@),
        }
    }
}

/// The text reported to the front end for a fault.
pub open spec fn fault_message(f: WindowFault) -> Seq<char> {
    match f {
        WindowFault::MainWindowMissing => "Main window not found"@,
        WindowFault::InvalidUrl(t) => "Invalid URL: "@ + t,
        WindowFault::BuilderFailed(t) => "Failed to create window builder: "@ + t,
        WindowFault::BuildFailed(t) => "Failed to create window: "@ + t,
        WindowFault::CloseFailed(t) => "Failed to close window: "@ + t,
        WindowFault::FocusFailed(t) => "Failed to focus window: "@ + t,
    }
}

fn prefixed(head: &str, t: &String) -> (r: String)
    ensures
        r@ == head@ + t@,
{
    let mut r = String::from_str(head);
    r.append(t.as_str());
    r
}

impl WindowError {
    /// The text reported to the front end for this error.
    pub fn message(&self) -> (r: String)
        ensures
            r@ == fault_message(self@),
    {
        proof {
            reveal_strlit("Main window not found");
            reveal_strlit("Invalid URL: ");
            reveal_strlit("Failed to create window builder: ");
            reveal_strlit("Failed to create window: ");
            reveal_strlit("Failed to close window: ");
            reveal_strlit("Failed to focus window: ");
        }
        match self {
            WindowError::MainWindowMissing => String::from_str("Main window not found"),
            WindowError::InvalidUrl(t) => prefixed("Invalid URL: ", t),
            WindowError::BuilderFailed(t) => prefixed("Failed to create window builder: ", t),
            WindowError::BuildFailed(t) => prefixed("Failed to create window: ", t),
            WindowError::CloseFailed(t) => prefixed("Failed to close window: ", t),
            WindowError::FocusFailed(t) => prefixed("Failed to focus window: ", t),
        }
    }
}

} // verus!
