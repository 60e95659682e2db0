use vstd::prelude::*;
use crate::text::{owned, join2};

verus! {

/// A message shown in the top bar for a few seconds.
#[derive(Debug, Clone)]
pub enum Notification {
    Error(String),
    Info(String),
    Warn(String),
}

/// Failures the dashboard reports to the user.
#[derive(Debug, Clone)]
pub enum Error {
    FetchError(String),
    ParseError(String),
    PaneSetError(String),
    StreamError(String),
    UnknownError(String),
}

/// What the top bar says of an error: the failed action, then the message.
pub open spec fn spec_error_notice(err: Error) -> Seq<char> {
    match err {
        Error::FetchError(m) => "Failed to fetch data: "@ + m@,
        Error::PaneSetError(m) => "Failed to set pane: "@ + m@,
        Error::ParseError(m) => "Failed to parse data: "@ + m@,
        Error::StreamError(m) => "Failed to fetch stream: "@ + m@,
        Error::UnknownError(m) => m@,
    }
}

/// The error notification shown for a failure.
pub fn error_notification(err: &Error) -> (n: Notification)
    ensures
        n matches Notification::Error(t) && t@ == spec_error_notice(*err),
{
    let text = match err {
        Error::FetchError(m) => join2("Failed to fetch data: ", m.as_str()),
        Error::PaneSetError(m) => join2("Failed to set pane: ", m.as_str()),
        Error::ParseError(m) => join2("Failed to parse data: ", m.as_str()),
        Error::StreamError(m) => join2("Failed to fetch stream: ", m.as_str()),
        Error::UnknownError(m) => owned(m.as_str()),
    };
    Notification::Error(text)
}

/// The text of a notification in the top bar: errors and warnings are
/// marked, information is shown as it is.
pub open spec fn spec_notification_text(n: Notification) -> Seq<char> {
    match n {
        Notification::Info(s) => s@,
        Notification::Error(s) => "err: "@ + s@,
        Notification::Warn(s) => "warn: "@ + s@,
    }
}

/// The text shown for a notification.
pub fn notification_text(n: &Notification) -> (t: String)
    ensures
        t@ == spec_notification_text(*n),
{
    match n {
        Notification::Info(s) => owned(s.as_str()),
        Notification::Error(s) => join2("err: ", s.as_str()),
        Notification::Warn(s) => join2("warn: ", s.as_str()),
    }
}

/// Orientation of a pane split.
#[derive(Debug, Clone, Copy, PartialEq, Eq, Structural)]
pub enum Axis {
    Horizontal,
    Vertical,
}

/// One of the four saved dashboard layouts.
#[derive(Debug, Clone, Copy, PartialEq, Eq, Hash, Structural)]
pub enum LayoutId {
    Layout1,
    Layout2,
    Layout3,
    Layout4,
}

/// Name of a layout in the layout picker.
pub open spec fn spec_layout_label(id: LayoutId) -> Seq<char> {
    match id {
        LayoutId::Layout1 => "Layout 1"@,
        LayoutId::Layout2 => "Layout 2"@,
        LayoutId::Layout3 => "Layout 3"@,
        LayoutId::Layout4 => "Layout 4"@,
    }
}

impl LayoutId {
    /// The picker name, e.g. "Layout 2".
    pub fn to_string(&self) -> (res: String)
        ensures
            res@ == spec_layout_label(*self),
    {
        match self {
            LayoutId::Layout1 => owned("Layout 1"),
            LayoutId::Layout2 => owned("Layout 2"),
            LayoutId::Layout3 => owned("Layout 3"),
            LayoutId::Layout4 => owned("Layout 4"),
        }
    }

    /// Every layout, in picker order.
    pub fn all() -> (v: Vec<LayoutId>)
        ensures
            v@ == seq![LayoutId::Layout1, LayoutId::Layout2, LayoutId::Layout3, LayoutId::Layout4],
    {
        vec![LayoutId::Layout1, LayoutId::Layout2, LayoutId::Layout3, LayoutId::Layout4]
    }
}

/// Glyphs of the bundled icon font.
#[derive(Debug, Clone, Copy, PartialEq, Eq, Structural)]
pub enum Icon {
    Locked,
    Unlocked,
    ResizeFull,
    ResizeSmall,
    Close,
    Layout,
    Cog,
}

/// Code point of an icon in the private-use area of the icon font.
pub open spec fn spec_icon_code(icon: Icon) -> u32 {
    match icon {
        Icon::Unlocked => 0xE800,
        Icon::Locked => 0xE801,
        Icon::ResizeFull => 0xE802,
        Icon::ResizeSmall => 0xE803,
        Icon::Close => 0xE804,
        Icon::Layout => 0xE805,
        Icon::Cog => 0xE806,
    }
}

/// The icon's character in the icon font.
pub open spec fn spec_icon_char(icon: Icon) -> char {
    match icon {
        Icon::Unlocked => '\u{E800}',
        Icon::Locked => '\u{E801}',
        Icon::ResizeFull => '\u{E802}',
        Icon::ResizeSmall => '\u{E803}',
        Icon::Close => '\u{E804}',
        Icon::Layout => '\u{E805}',
        Icon::Cog => '\u{E806}',
    }
}

impl Icon {
    /// The icon's character in the icon font.
    pub fn to_char(self) -> (c: char)
        ensures
            c == spec_icon_char(self),
            c as u32 == spec_icon_code(self),
    {
        match self {
            Icon::Unlocked => '\u{E800}',
            Icon::Locked => '\u{E801}',
            Icon::ResizeFull => '\u{E802}',
            Icon::ResizeSmall => '\u{E803}',
            Icon::Close => '\u{E804}',
            Icon::Layout => '\u{E805}',
            Icon::Cog => '\u{E806}',
        }
    }
}


impl From<Icon> for char {
    fn from(icon: Icon) -> (c: char) {
        icon.to_char()
    }
}

impl vstd::std_specs::convert::FromSpecImpl<Icon> for char {
    open spec fn obeys_from_spec() -> bool {
        true
    }

    open spec fn from_spec(icon: Icon) -> char {
        spec_icon_char(icon)
    }
}

} // verus!
