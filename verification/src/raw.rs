//! Raw protocol events, as far as translation reads them.

use vstd::prelude::*;

verus! {

// The codes by which the X protocol tells its core events apart.
pub const KEY_PRESS: i32 = 2;
pub const KEY_RELEASE: i32 = 3;
pub const BUTTON_PRESS: i32 = 4;
pub const BUTTON_RELEASE: i32 = 5;
pub const MOTION_NOTIFY: i32 = 6;
pub const ENTER_NOTIFY: i32 = 7;
pub const LEAVE_NOTIFY: i32 = 8;
pub const FOCUS_IN: i32 = 9;
pub const FOCUS_OUT: i32 = 10;
pub const KEYMAP_NOTIFY: i32 = 11;
pub const EXPOSE: i32 = 12;
pub const GRAPHICS_EXPOSE: i32 = 13;
pub const NO_EXPOSE: i32 = 14;
pub const VISIBILITY_NOTIFY: i32 = 15;
pub const CREATE_NOTIFY: i32 = 16;
pub const DESTROY_NOTIFY: i32 = 17;
pub const UNMAP_NOTIFY: i32 = 18;
pub const MAP_NOTIFY: i32 = 19;
pub const MAP_REQUEST: i32 = 20;
pub const REPARENT_NOTIFY: i32 = 21;
pub const CONFIGURE_NOTIFY: i32 = 22;
pub const CONFIGURE_REQUEST: i32 = 23;
pub const GRAVITY_NOTIFY: i32 = 24;
pub const RESIZE_REQUEST: i32 = 25;
pub const CIRCULATE_NOTIFY: i32 = 26;
pub const CIRCULATE_REQUEST: i32 = 27;
pub const PROPERTY_NOTIFY: i32 = 28;
pub const SELECTION_CLEAR: i32 = 29;
pub const SELECTION_REQUEST: i32 = 30;
pub const SELECTION_NOTIFY: i32 = 31;
pub const COLORMAP_NOTIFY: i32 = 32;
pub const CLIENT_MESSAGE: i32 = 33;
pub const MAPPING_NOTIFY: i32 = 34;
pub const GENERIC_EVENT: i32 = 35;

/// The state of a property notification whose property got a new value.
pub const PROPERTY_NEW_VALUE: i32 = 0;

/// The state of a property notification whose property was deleted.
pub const PROPERTY_DELETE: i32 = 1;

/// How many data words a client message holds at most.
pub const CLIENT_MESSAGE_WORDS: usize = 5;

/// What a property notification says: which property of which window, and
/// whether it got a new value or was deleted. The value itself is not in it.
#[derive(Clone, Copy, Debug, PartialEq, Eq, Structural, Hash)]
pub struct PropertyEvent {
    pub window: u64,
    /// The property, by its atom.
    pub atom: u64,
    /// [`PROPERTY_NEW_VALUE`] or [`PROPERTY_DELETE`].
    pub state: i32,
}

/// What a client message says: the window it is about, the kind of request
/// by its atom, and up to five data words whose meaning the kind decides.
#[derive(Clone, Debug, PartialEq, Eq)]
pub struct ClientMessage {
    pub window: u64,
    pub message_type: u64,
    pub data: Vec<i64>,
}

/// The mathematical value of a [`ClientMessage`].
pub struct ClientMessageView {
    pub window: u64,
    pub message_type: u64,
    pub data: Seq<i64>,
}

impl View for ClientMessage {
    type V = ClientMessageView;

    open spec fn view(&self) -> ClientMessageView {
        ClientMessageView { window: self.window, message_type: self.message_type, data: self.data@ }
    }
}

/// One event of the display server, with the fields that translation reads.
///
/// Every core event of the protocol has a variant of its own, also those
/// that translate to nothing, so that each can be told apart in a log.
#[derive(Clone, Debug, PartialEq, Eq)]
pub enum RawEvent {
    /// A key went down.
    KeyPress { state: u32, keycode: u32 },
    /// A key came up.
    KeyRelease,
    /// A pointer button went down.
    ButtonPress { state: u32, button: u32, window: u64 },
    /// A pointer button came up.
    ButtonRelease,
    /// The pointer moved.
    MotionNotify { window: u64, x_root: i32, y_root: i32 },
    /// The pointer entered a window.
    EnterNotify { window: u64 },
    /// The pointer left a window.
    LeaveNotify,
    /// A window got the input focus.
    FocusIn { window: u64 },
    /// A window lost the input focus.
    FocusOut,
    KeymapNotify,
    Expose,
    GraphicsExpose,
    NoExpose,
    VisibilityNotify,
    /// A window came into being, unmapped as yet.
    CreateNotify,
    /// A window is gone.
    DestroyNotify { window: u64 },
    /// A window was taken off the screen.
    UnmapNotify,
    /// A window was put on the screen.
    MapNotify,
    /// A client asked for a window to be put on the screen.
    MapRequest { window: u64 },
    ReparentNotify,
    ConfigureNotify,
    ConfigureRequest,
    GravityNotify,
    ResizeRequest,
    CirculateNotify,
    CirculateRequest,
    /// A property of a window changed.
    PropertyNotify(PropertyEvent),
    SelectionClear,
    SelectionRequest,
    SelectionNotify,
    ColormapNotify,
    /// A client sent a request in the inter-client protocol.
    ClientMessage(ClientMessage),
    MappingNotify,
    GenericEvent,
    /// An event with a code outside the core protocol.
    Unknown { code: i32 },
}

/// The mathematical value of a [`RawEvent`].
pub enum RawEventView {
    KeyPress { state: u32, keycode: u32 },
    KeyRelease,
    ButtonPress { state: u32, button: u32, window: u64 },
    ButtonRelease,
    MotionNotify { window: u64, x_root: i32, y_root: i32 },
    EnterNotify { window: u64 },
    LeaveNotify,
    FocusIn { window: u64 },
    FocusOut,
    KeymapNotify,
    Expose,
    GraphicsExpose,
    NoExpose,
    VisibilityNotify,
    CreateNotify,
    DestroyNotify { window: u64 },
    UnmapNotify,
    MapNotify,
    MapRequest { window: u64 },
    ReparentNotify,
    ConfigureNotify,
    ConfigureRequest,
    GravityNotify,
    ResizeRequest,
    CirculateNotify,
    CirculateRequest,
    PropertyNotify(PropertyEvent),
    SelectionClear,
    SelectionRequest,
    SelectionNotify,
    ColormapNotify,
    ClientMessage(ClientMessageView),
    MappingNotify,
    GenericEvent,
    Unknown { code: i32 },
}

impl View for RawEvent {
    type V = RawEventView;

    open spec fn view(&self) -> RawEventView {
        match self {
            RawEvent::KeyPress { state, keycode } => RawEventView::KeyPress {
                state: *state,
                keycode: *keycode,
            },
            RawEvent::KeyRelease => RawEventView::KeyRelease,
            RawEvent::ButtonPress { state, button, window } => RawEventView::ButtonPress {
                state: *state,
                button: *button,
                window: *window,
            },
            RawEvent::ButtonRelease => RawEventView::ButtonRelease,
            RawEvent::MotionNotify { window, x_root, y_root } => RawEventView::MotionNotify {
                window: *window,
                x_root: *x_root,
                y_root: *y_root,
            },
            RawEvent::EnterNotify { window } => RawEventView::EnterNotify { window: *window },
            RawEvent::LeaveNotify => RawEventView::LeaveNotify,
            RawEvent::FocusIn { window } => RawEventView::FocusIn { window: *window },
            RawEvent::FocusOut => RawEventView::FocusOut,
            RawEvent::KeymapNotify => RawEventView::KeymapNotify,
            RawEvent::Expose => RawEventView::Expose,
            RawEvent::GraphicsExpose => RawEventView::GraphicsExpose,
            RawEvent::NoExpose => RawEventView::NoExpose,
            RawEvent::VisibilityNotify => RawEventView::VisibilityNotify,
            RawEvent::CreateNotify => RawEventView::CreateNotify,
            RawEvent::DestroyNotify { window } => RawEventView::DestroyNotify { window: *window },
            RawEvent::UnmapNotify => RawEventView::UnmapNotify,
            RawEvent::MapNotify => RawEventView::MapNotify,
            RawEvent::MapRequest { window } => RawEventView::MapRequest { window: *window },
            RawEvent::ReparentNotify => RawEventView::ReparentNotify,
            RawEvent::ConfigureNotify => RawEventView::ConfigureNotify,
            RawEvent::ConfigureRequest => RawEventView::ConfigureRequest,
            RawEvent::GravityNotify => RawEventView::GravityNotify,
            RawEvent::ResizeRequest => RawEventView::ResizeRequest,
            RawEvent::CirculateNotify => RawEventView::CirculateNotify,
            RawEvent::CirculateRequest => RawEventView::CirculateRequest,
            RawEvent::PropertyNotify(p) => RawEventView::PropertyNotify(*p),
            RawEvent::SelectionClear => RawEventView::SelectionClear,
            RawEvent::SelectionRequest => RawEventView::SelectionRequest,
            RawEvent::SelectionNotify => RawEventView::SelectionNotify,
            RawEvent::ColormapNotify => RawEventView::ColormapNotify,
            RawEvent::ClientMessage(m) => RawEventView::ClientMessage(m@),
            RawEvent::MappingNotify => RawEventView::MappingNotify,
            RawEvent::GenericEvent => RawEventView::GenericEvent,
            RawEvent::Unknown { code } => RawEventView::Unknown { code: *code },
        }
    }
}

/// Whether `code` is that of a core event of the protocol.
pub open spec fn is_core_code(code: int) -> bool {
    KEY_PRESS <= code <= GENERIC_EVENT
}

/// Whether events with this code can translate to an event at all: the
/// codes of the ten kinds that translation has a rule for.
pub open spec fn is_translated_code(code: int) -> bool {
    ||| code == KEY_PRESS
    ||| code == BUTTON_PRESS
    ||| code == BUTTON_RELEASE
    ||| code == MOTION_NOTIFY
    ||| code == ENTER_NOTIFY
    ||| code == FOCUS_IN
    ||| code == DESTROY_NOTIFY
    ||| code == MAP_REQUEST
    ||| code == PROPERTY_NOTIFY
    ||| code == CLIENT_MESSAGE
}

impl RawEventView {
    /// The protocol's code for this kind of event.
    pub open spec fn code(self) -> i32 {
        match self {
            RawEventView::KeyPress { .. } => KEY_PRESS,
            RawEventView::KeyRelease => KEY_RELEASE,
            RawEventView::ButtonPress { .. } => BUTTON_PRESS,
            RawEventView::ButtonRelease => BUTTON_RELEASE,
            RawEventView::MotionNotify { .. } => MOTION_NOTIFY,
            RawEventView::EnterNotify { .. } => ENTER_NOTIFY,
            RawEventView::LeaveNotify => LEAVE_NOTIFY,
            RawEventView::FocusIn { .. } => FOCUS_IN,
            RawEventView::FocusOut => FOCUS_OUT,
            RawEventView::KeymapNotify => KEYMAP_NOTIFY,
            RawEventView::Expose => EXPOSE,
            RawEventView::GraphicsExpose => GRAPHICS_EXPOSE,
            RawEventView::NoExpose => NO_EXPOSE,
            RawEventView::VisibilityNotify => VISIBILITY_NOTIFY,
            RawEventView::CreateNotify => CREATE_NOTIFY,
            RawEventView::DestroyNotify { .. } => DESTROY_NOTIFY,
            RawEventView::UnmapNotify => UNMAP_NOTIFY,
            RawEventView::MapNotify => MAP_NOTIFY,
            RawEventView::MapRequest { .. } => MAP_REQUEST,
            RawEventView::ReparentNotify => REPARENT_NOTIFY,
            RawEventView::ConfigureNotify => CONFIGURE_NOTIFY,
            RawEventView::ConfigureRequest => CONFIGURE_REQUEST,
            RawEventView::GravityNotify => GRAVITY_NOTIFY,
            RawEventView::ResizeRequest => RESIZE_REQUEST,
            RawEventView::CirculateNotify => CIRCULATE_NOTIFY,
            RawEventView::CirculateRequest => CIRCULATE_REQUEST,
            RawEventView::PropertyNotify(_) => PROPERTY_NOTIFY,
            RawEventView::SelectionClear => SELECTION_CLEAR,
            RawEventView::SelectionRequest => SELECTION_REQUEST,
            RawEventView::SelectionNotify => SELECTION_NOTIFY,
            RawEventView::ColormapNotify => COLORMAP_NOTIFY,
            RawEventView::ClientMessage(_) => CLIENT_MESSAGE,
            RawEventView::MappingNotify => MAPPING_NOTIFY,
            RawEventView::GenericEvent => GENERIC_EVENT,
            RawEventView::Unknown { code } => code,
        }
    }

    /// The name of this kind of event, for a log.
    pub open spec fn name(self) -> Seq<char> {
        match self {
            RawEventView::KeyPress { .. } => "KeyPress"@,
            RawEventView::KeyRelease => "KeyRelease"@,
            RawEventView::ButtonPress { .. } => "ButtonPress"@,
            RawEventView::ButtonRelease => "ButtonRelease"@,
            RawEventView::MotionNotify { .. } => "MotionNotify"@,
            RawEventView::EnterNotify { .. } => "EnterNotify"@,
            RawEventView::LeaveNotify => "LeaveNotify"@,
            RawEventView::FocusIn { .. } => "FocusIn"@,
            RawEventView::FocusOut => "FocusOut"@,
            RawEventView::KeymapNotify => "KeymapNotify"@,
            RawEventView::Expose => "Expose"@,
            RawEventView::GraphicsExpose => "GraphicsExpose"@,
            RawEventView::NoExpose => "NoExpose"@,
            RawEventView::VisibilityNotify => "VisibilityNotify"@,
            RawEventView::CreateNotify => "CreateNotify"@,
            RawEventView::DestroyNotify { .. } => "DestroyNotify"@,
            RawEventView::UnmapNotify => "UnmapNotify"@,
            RawEventView::MapNotify => "MapNotify"@,
            RawEventView::MapRequest { .. } => "MapRequest"@,
            RawEventView::ReparentNotify => "ReparentNotify"@,
            RawEventView::ConfigureNotify => "ConfigureNotify"@,
            RawEventView::ConfigureRequest => "ConfigureRequest"@,
            RawEventView::GravityNotify => "GravityNotify"@,
            RawEventView::ResizeRequest => "ResizeRequest"@,
            RawEventView::CirculateNotify => "CirculateNotify"@,
            RawEventView::CirculateRequest => "CirculateRequest"@,
            RawEventView::PropertyNotify(_) => "PropertyNotify"@,
            RawEventView::SelectionClear => "SelectionClear"@,
            RawEventView::SelectionRequest => "SelectionRequest"@,
            RawEventView::SelectionNotify => "SelectionNotify"@,
            RawEventView::ColormapNotify => "ColormapNotify"@,
            RawEventView::ClientMessage(_) => "ClientMessage"@,
            RawEventView::MappingNotify => "MappingNotify"@,
            RawEventView::GenericEvent => "GenericEvent"@,
            RawEventView::Unknown { .. } => "Unknown"@,
        }
    }

    /// An event is well formed when its variant and its code agree: only an
    /// event with a code outside the core protocol is `Unknown`. A client
    /// message, besides, holds no more data words than the protocol has
    /// room for.
    pub open spec fn well_formed(self) -> bool {
        &&& self matches RawEventView::Unknown { code } ==> !is_core_code(code as int)
        &&& self matches RawEventView::ClientMessage(m) ==> m.data.len() <= CLIENT_MESSAGE_WORDS
    }
}

impl RawEvent {
    /// The protocol's code for this kind of event.
    pub fn code(&self) -> (code: i32)
        ensures
            code == self@.code(),
    {
        match self {
            RawEvent::KeyPress { .. } => KEY_PRESS,
            RawEvent::KeyRelease => KEY_RELEASE,
            RawEvent::ButtonPress { .. } => BUTTON_PRESS,
            RawEvent::ButtonRelease => BUTTON_RELEASE,
            RawEvent::MotionNotify { .. } => MOTION_NOTIFY,
            RawEvent::EnterNotify { .. } => ENTER_NOTIFY,
            RawEvent::LeaveNotify => LEAVE_NOTIFY,
            RawEvent::FocusIn { .. } => FOCUS_IN,
            RawEvent::FocusOut => FOCUS_OUT,
            RawEvent::KeymapNotify => KEYMAP_NOTIFY,
            RawEvent::Expose => EXPOSE,
            RawEvent::GraphicsExpose => GRAPHICS_EXPOSE,
            RawEvent::NoExpose => NO_EXPOSE,
            RawEvent::VisibilityNotify => VISIBILITY_NOTIFY,
            RawEvent::CreateNotify => CREATE_NOTIFY,
            RawEvent::DestroyNotify { .. } => DESTROY_NOTIFY,
            RawEvent::UnmapNotify => UNMAP_NOTIFY,
            RawEvent::MapNotify => MAP_NOTIFY,
            RawEvent::MapRequest { .. } => MAP_REQUEST,
            RawEvent::ReparentNotify => REPARENT_NOTIFY,
            RawEvent::ConfigureNotify => CONFIGURE_NOTIFY,
            RawEvent::ConfigureRequest => CONFIGURE_REQUEST,
            RawEvent::GravityNotify => GRAVITY_NOTIFY,
            RawEvent::ResizeRequest => RESIZE_REQUEST,
            RawEvent::CirculateNotify => CIRCULATE_NOTIFY,
            RawEvent::CirculateRequest => CIRCULATE_REQUEST,
            RawEvent::PropertyNotify(_) => PROPERTY_NOTIFY,
            RawEvent::SelectionClear => SELECTION_CLEAR,
            RawEvent::SelectionRequest => SELECTION_REQUEST,
            RawEvent::SelectionNotify => SELECTION_NOTIFY,
            RawEvent::ColormapNotify => COLORMAP_NOTIFY,
            RawEvent::ClientMessage(_) => CLIENT_MESSAGE,
            RawEvent::MappingNotify => MAPPING_NOTIFY,
            RawEvent::GenericEvent => GENERIC_EVENT,
            RawEvent::Unknown { code } => *code,
        }
    }

    /// The name of this kind of event, for a log.
    pub fn name(&self) -> (name: &'static str)
        ensures
            name@ == self@.name(),
    {
        match self {
            RawEvent::KeyPress { .. } => "KeyPress",
            RawEvent::KeyRelease => "KeyRelease",
            RawEvent::ButtonPress { .. } => "ButtonPress",
            RawEvent::ButtonRelease => "ButtonRelease",
            RawEvent::MotionNotify { .. } => "MotionNotify",
            RawEvent::EnterNotify { .. } => "EnterNotify",
            RawEvent::LeaveNotify => "LeaveNotify",
            RawEvent::FocusIn { .. } => "FocusIn",
            RawEvent::FocusOut => "FocusOut",
            RawEvent::KeymapNotify => "KeymapNotify",
            RawEvent::Expose => "Expose",
            RawEvent::GraphicsExpose => "GraphicsExpose",
            RawEvent::NoExpose => "NoExpose",
            RawEvent::VisibilityNotify => "VisibilityNotify",
            RawEvent::CreateNotify => "CreateNotify",
            RawEvent::DestroyNotify { .. } => "DestroyNotify",
            RawEvent::UnmapNotify => "UnmapNotify",
            RawEvent::MapNotify => "MapNotify",
            RawEvent::MapRequest { .. } => "MapRequest",
            RawEvent::ReparentNotify => "ReparentNotify",
            RawEvent::ConfigureNotify => "ConfigureNotify",
            RawEvent::ConfigureRequest => "ConfigureRequest",
            RawEvent::GravityNotify => "GravityNotify",
            RawEvent::ResizeRequest => "ResizeRequest",
            RawEvent::CirculateNotify => "CirculateNotify",
            RawEvent::CirculateRequest => "CirculateRequest",
            RawEvent::PropertyNotify(_) => "PropertyNotify",
            RawEvent::SelectionClear => "SelectionClear",
            RawEvent::SelectionRequest => "SelectionRequest",
            RawEvent::SelectionNotify => "SelectionNotify",
            RawEvent::ColormapNotify => "ColormapNotify",
            RawEvent::ClientMessage(_) => "ClientMessage",
            RawEvent::MappingNotify => "MappingNotify",
            RawEvent::GenericEvent => "GenericEvent",
            RawEvent::Unknown { .. } => "Unknown",
        }
    }
}

/// What suffices to tell the names apart: the length and the first two
/// letters.
spec fn initials(name: Seq<char>) -> (nat, char, char) {
    (name.len(), name[0], name[1])
}

/// The length and the first two letters of each kind's name.
spec fn initials_of(event: RawEventView) -> (nat, char, char) {
    match event {
        RawEventView::KeyPress { .. } => (8, 'K', 'e'),
        RawEventView::KeyRelease => (10, 'K', 'e'),
        RawEventView::ButtonPress { .. } => (11, 'B', 'u'),
        RawEventView::ButtonRelease => (13, 'B', 'u'),
        RawEventView::MotionNotify { .. } => (12, 'M', 'o'),
        RawEventView::EnterNotify { .. } => (11, 'E', 'n'),
        RawEventView::LeaveNotify => (11, 'L', 'e'),
        RawEventView::FocusIn { .. } => (7, 'F', 'o'),
        RawEventView::FocusOut => (8, 'F', 'o'),
        RawEventView::KeymapNotify => (12, 'K', 'e'),
        RawEventView::Expose => (6, 'E', 'x'),
        RawEventView::GraphicsExpose => (14, 'G', 'r'),
        RawEventView::NoExpose => (8, 'N', 'o'),
        RawEventView::VisibilityNotify => (16, 'V', 'i'),
        RawEventView::CreateNotify => (12, 'C', 'r'),
        RawEventView::DestroyNotify { .. } => (13, 'D', 'e'),
        RawEventView::UnmapNotify => (11, 'U', 'n'),
        RawEventView::MapNotify => (9, 'M', 'a'),
        RawEventView::MapRequest { .. } => (10, 'M', 'a'),
        RawEventView::ReparentNotify => (14, 'R', 'e'),
        RawEventView::ConfigureNotify => (15, 'C', 'o'),
        RawEventView::ConfigureRequest => (16, 'C', 'o'),
        RawEventView::GravityNotify => (13, 'G', 'r'),
        RawEventView::ResizeRequest => (13, 'R', 'e'),
        RawEventView::CirculateNotify => (15, 'C', 'i'),
        RawEventView::CirculateRequest => (16, 'C', 'i'),
        RawEventView::PropertyNotify(_) => (14, 'P', 'r'),
        RawEventView::SelectionClear => (14, 'S', 'e'),
        RawEventView::SelectionRequest => (16, 'S', 'e'),
        RawEventView::SelectionNotify => (15, 'S', 'e'),
        RawEventView::ColormapNotify => (14, 'C', 'o'),
        RawEventView::ClientMessage(_) => (13, 'C', 'l'),
        RawEventView::MappingNotify => (13, 'M', 'a'),
        RawEventView::GenericEvent => (12, 'G', 'e'),
        RawEventView::Unknown { .. } => (7, 'U', 'n'),
    }
}

proof fn lemma_initials(event: RawEventView)
    ensures
        initials(event.name()) == initials_of(event),
{
    reveal_strlit("KeyPress");
    reveal_strlit("KeyRelease");
    reveal_strlit("ButtonPress");
    reveal_strlit("ButtonRelease");
    reveal_strlit("MotionNotify");
    reveal_strlit("EnterNotify");
    reveal_strlit("LeaveNotify");
    reveal_strlit("FocusIn");
    reveal_strlit("FocusOut");
    reveal_strlit("KeymapNotify");
    reveal_strlit("Expose");
    reveal_strlit("GraphicsExpose");
    reveal_strlit("NoExpose");
    reveal_strlit("VisibilityNotify");
    reveal_strlit("CreateNotify");
    reveal_strlit("DestroyNotify");
    reveal_strlit("UnmapNotify");
    reveal_strlit("MapNotify");
    reveal_strlit("MapRequest");
    reveal_strlit("ReparentNotify");
    reveal_strlit("ConfigureNotify");
    reveal_strlit("ConfigureRequest");
    reveal_strlit("GravityNotify");
    reveal_strlit("ResizeRequest");
    reveal_strlit("CirculateNotify");
    reveal_strlit("CirculateRequest");
    reveal_strlit("PropertyNotify");
    reveal_strlit("SelectionClear");
    reveal_strlit("SelectionRequest");
    reveal_strlit("SelectionNotify");
    reveal_strlit("ColormapNotify");
    reveal_strlit("ClientMessage");
    reveal_strlit("MappingNotify");
    reveal_strlit("GenericEvent");
    reveal_strlit("Unknown");
}

/// The names tell the kinds apart: of two events with the same name, either
/// both are core events with the same code, or both are events outside the
/// core protocol.
pub proof fn lemma_names_tell_kinds_apart(a: RawEventView, b: RawEventView)
    requires
        a.name() == b.name(),
    ensures
        a is Unknown <==> b is Unknown,
        !(a is Unknown) ==> a.code() == b.code(),
{
    lemma_initials(a);
    lemma_initials(b);
}

} // verus!
