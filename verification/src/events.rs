//! The typed event model: a closed set of event variants, a per-event
//! `handled` flag, and the derived classification of every variant into a
//! category bitmask and a display name.
use vstd::prelude::*;
use vstd::string::StringExecFns;

use crate::text::{append_i32, append_u32, dec_int, dec_nat};

verus! {

/// The payload-free tag of an event.  Classification and display names are
/// functions of this tag alone, never of the payload.
#[derive(Clone, Copy, Debug, PartialEq, Eq, Structural)]
pub enum EventKind {
    Unknown,
    WindowClose,
    WindowResize,
    WindowFocus,
    WindowLostFocus,
    WindowMoved,
    AppTick,
    AppUpdate,
    AppRender,
    KeyPressed,
    KeyReleased,
    MouseButtonPressed,
    MouseButtonReleased,
    MouseMoved,
    MouseScrolled,
}

/// An event variant together with its payload.  `Unknown` is the sentinel
/// for an unrecognized platform notification; such events are dropped before
/// dispatch.
#[derive(Clone, Copy, Debug, PartialEq, Eq, Structural)]
pub enum EventType {
    Unknown,
    WindowClose,
    WindowResize { width: u32, height: u32 },
    WindowFocus,
    WindowLostFocus,
    WindowMoved,
    AppTick,
    AppUpdate,
    AppRender,
    KeyPressed { keycode: i32, repeat_count: i32 },
    KeyReleased { keycode: i32 },
    MouseButtonPressed { button: i32 },
    MouseButtonReleased { button: i32 },
    MouseMoved { x: i32, y: i32 },
    MouseScrolled { x_offset: i32, y_offset: i32 },
}

/// One category of the classification bitmask.
#[derive(Clone, Copy, Debug, PartialEq, Eq, Structural)]
pub enum EventCategory {
    NoCategory,
    EventCategoryApplication,
    EventCategoryInput,
    EventCategoryKeyboard,
    EventCategoryMouse,
    EventCategoryMouseButton,
}

/// The bit each category contributes to a bitmask.
pub open spec fn spec_category_mask(c: EventCategory) -> i32 {
    match c {
        EventCategory::NoCategory => 0,
        EventCategory::EventCategoryApplication => 1,
        EventCategory::EventCategoryInput => 2,
        EventCategory::EventCategoryKeyboard => 4,
        EventCategory::EventCategoryMouse => 8,
        EventCategory::EventCategoryMouseButton => 16,
    }
}

impl EventCategory {
    /// The bit this category contributes to a bitmask.
    pub fn mask(self) -> (r: i32)
        ensures
            r == spec_category_mask(self),
    {
        match self {
            EventCategory::NoCategory => 0,
            EventCategory::EventCategoryApplication => 1,
            EventCategory::EventCategoryInput => 2,
            EventCategory::EventCategoryKeyboard => 4,
            EventCategory::EventCategoryMouse => 8,
            EventCategory::EventCategoryMouseButton => 16,
        }
    }
}

/// The tag of an event variant, with the payload stripped.
pub open spec fn spec_kind_of(t: EventType) -> EventKind {
    match t {
        EventType::Unknown => EventKind::Unknown,
        EventType::WindowClose => EventKind::WindowClose,
        EventType::WindowResize { .. } => EventKind::WindowResize,
        EventType::WindowFocus => EventKind::WindowFocus,
        EventType::WindowLostFocus => EventKind::WindowLostFocus,
        EventType::WindowMoved => EventKind::WindowMoved,
        EventType::AppTick => EventKind::AppTick,
        EventType::AppUpdate => EventKind::AppUpdate,
        EventType::AppRender => EventKind::AppRender,
        EventType::KeyPressed { .. } => EventKind::KeyPressed,
        EventType::KeyReleased { .. } => EventKind::KeyReleased,
        EventType::MouseButtonPressed { .. } => EventKind::MouseButtonPressed,
        EventType::MouseButtonReleased { .. } => EventKind::MouseButtonReleased,
        EventType::MouseMoved { .. } => EventKind::MouseMoved,
        EventType::MouseScrolled { .. } => EventKind::MouseScrolled,
    }
}

/// The fixed category mapping: window bookkeeping and the frame hooks are
/// application events, key events are keyboard input, mouse events are mouse
/// input.  The unrecognized sentinel carries no category.
pub open spec fn spec_kind_flags(k: EventKind) -> i32 {
    match k {
        EventKind::Unknown => 0,
        EventKind::WindowClose
        | EventKind::WindowResize
        | EventKind::WindowFocus
        | EventKind::WindowLostFocus
        | EventKind::WindowMoved
        | EventKind::AppTick
        | EventKind::AppUpdate
        | EventKind::AppRender => spec_category_mask(
            EventCategory::EventCategoryApplication,
        ),
        EventKind::KeyPressed | EventKind::KeyReleased => spec_category_mask(
            EventCategory::EventCategoryKeyboard,
        ) | spec_category_mask(EventCategory::EventCategoryInput),
        EventKind::MouseButtonPressed
        | EventKind::MouseButtonReleased
        | EventKind::MouseMoved
        | EventKind::MouseScrolled => spec_category_mask(
            EventCategory::EventCategoryMouse,
        ) | spec_category_mask(EventCategory::EventCategoryInput),
    }
}

/// The category bitmask of an event variant: the flags of its tag.
pub open spec fn spec_category_flags(t: EventType) -> i32 {
    spec_kind_flags(spec_kind_of(t))
}

impl EventType {
    /// The tag of this variant, with the payload stripped.
    pub fn kind(self) -> (r: EventKind)
        ensures
            r == spec_kind_of(self),
    {
        match self {
            EventType::Unknown => EventKind::Unknown,
            EventType::WindowClose => EventKind::WindowClose,
            EventType::WindowResize { .. } => EventKind::WindowResize,
            EventType::WindowFocus => EventKind::WindowFocus,
            EventType::WindowLostFocus => EventKind::WindowLostFocus,
            EventType::WindowMoved => EventKind::WindowMoved,
            EventType::AppTick => EventKind::AppTick,
            EventType::AppUpdate => EventKind::AppUpdate,
            EventType::AppRender => EventKind::AppRender,
            EventType::KeyPressed { .. } => EventKind::KeyPressed,
            EventType::KeyReleased { .. } => EventKind::KeyReleased,
            EventType::MouseButtonPressed { .. } => EventKind::MouseButtonPressed,
            EventType::MouseButtonReleased { .. } => EventKind::MouseButtonReleased,
            EventType::MouseMoved { .. } => EventKind::MouseMoved,
            EventType::MouseScrolled { .. } => EventKind::MouseScrolled,
        }
    }
}

/// The fixed human-readable label of a tag.
pub open spec fn spec_kind_name(k: EventKind) -> Seq<char> {
    match k {
        EventKind::Unknown => "Unknown"@,
        EventKind::WindowClose => "WindowClose"@,
        EventKind::WindowResize => "WindowResize"@,
        EventKind::WindowFocus => "WindowFocus"@,
        EventKind::WindowLostFocus => "WindowLostFocus"@,
        EventKind::WindowMoved => "WindowMoved"@,
        EventKind::AppTick => "AppTick"@,
        EventKind::AppUpdate => "AppUpdate"@,
        EventKind::AppRender => "AppRender"@,
        EventKind::KeyPressed => "KeyPressed"@,
        EventKind::KeyReleased => "KeyReleased"@,
        EventKind::MouseButtonPressed => "MouseButtonPressed"@,
        EventKind::MouseButtonReleased => "MouseButtonReleased"@,
        EventKind::MouseMoved => "MouseMoved"@,
        EventKind::MouseScrolled => "MouseScrolled"@,
    }
}

/// The payload-inclusive description of an event variant.
pub open spec fn spec_description(t: EventType) -> Seq<char> {
    match t {
        EventType::Unknown => "Unknown"@,
        EventType::WindowClose => "WindowClose"@,
        EventType::WindowResize { width, height } => "WindowsResize "@ + dec_nat(
            width as int,
        ) + ", "@ + dec_nat(height as int),
        EventType::WindowFocus => "WindowFocus"@,
        EventType::WindowLostFocus => "WindowLostFocus"@,
        EventType::WindowMoved => "WindowMoved"@,
        EventType::AppTick => "AppTick"@,
        EventType::AppUpdate => "AppUpdate"@,
        EventType::AppRender => "AppRender"@,
        EventType::KeyPressed { keycode, repeat_count } => "KeyPressedEvent: "@ + dec_int(
            keycode as int,
        ) + " ("@ + dec_int(repeat_count as int) + " repeats)"@,
        EventType::KeyReleased { keycode } => "KeyReleasedEvent "@ + dec_int(keycode as int),
        EventType::MouseButtonPressed { button } => "MouseButtonPressed "@ + dec_int(
            button as int,
        ),
        EventType::MouseButtonReleased { button } => "MouseButtonReleased "@ + dec_int(
            button as int,
        ),
        EventType::MouseMoved { x, y } => "MouseMovedEvent ("@ + dec_int(x as int) + ","@
            + dec_int(y as int) + ")"@,
        EventType::MouseScrolled { x_offset, y_offset } => "MouseScrolledEvent "@ + dec_int(
            x_offset as int,
        ) + ","@ + dec_int(y_offset as int),
    }
}

impl EventType {
    /// The fixed label of this variant's tag.
    pub fn name(self) -> (r: String)
        ensures
            r@ == spec_kind_name(spec_kind_of(self)),
    {
        match self.kind() {
            EventKind::Unknown => String::from_str("Unknown"),
            EventKind::WindowClose => String::from_str("WindowClose"),
            EventKind::WindowResize => String::from_str("WindowResize"),
            EventKind::WindowFocus => String::from_str("WindowFocus"),
            EventKind::WindowLostFocus => String::from_str("WindowLostFocus"),
            EventKind::WindowMoved => String::from_str("WindowMoved"),
            EventKind::AppTick => String::from_str("AppTick"),
            EventKind::AppUpdate => String::from_str("AppUpdate"),
            EventKind::AppRender => String::from_str("AppRender"),
            EventKind::KeyPressed => String::from_str("KeyPressed"),
            EventKind::KeyReleased => String::from_str("KeyReleased"),
            EventKind::MouseButtonPressed => String::from_str("MouseButtonPressed"),
            EventKind::MouseButtonReleased => String::from_str("MouseButtonReleased"),
            EventKind::MouseMoved => String::from_str("MouseMoved"),
            EventKind::MouseScrolled => String::from_str("MouseScrolled"),
        }
    }

    /// The payload-inclusive description of this variant.
    pub fn describe(self) -> (r: String)
        ensures
            r@ == spec_description(self),
    {
        let mut s = String::new();
        match self {
            EventType::Unknown => s.append("Unknown"),
            EventType::WindowClose => s.append("WindowClose"),
            EventType::WindowResize { width, height } => {
                s.append("WindowsResize ");
                append_u32(&mut s, width);
                s.append(", ");
                append_u32(&mut s, height);
            },
            EventType::WindowFocus => s.append("WindowFocus"),
            EventType::WindowLostFocus => s.append("WindowLostFocus"),
            EventType::WindowMoved => s.append("WindowMoved"),
            EventType::AppTick => s.append("AppTick"),
            EventType::AppUpdate => s.append("AppUpdate"),
            EventType::AppRender => s.append("AppRender"),
            EventType::KeyPressed { keycode, repeat_count } => {
                s.append("KeyPressedEvent: ");
                append_i32(&mut s, keycode);
                s.append(" (");
                append_i32(&mut s, repeat_count);
                s.append(" repeats)");
            },
            EventType::KeyReleased { keycode } => {
                s.append("KeyReleasedEvent ");
                append_i32(&mut s, keycode);
            },
            EventType::MouseButtonPressed { button } => {
                s.append("MouseButtonPressed ");
                append_i32(&mut s, button);
            },
            EventType::MouseButtonReleased { button } => {
                s.append("MouseButtonReleased ");
                append_i32(&mut s, button);
            },
            EventType::MouseMoved { x, y } => {
                s.append("MouseMovedEvent (");
                append_i32(&mut s, x);
                s.append(",");
                append_i32(&mut s, y);
                s.append(")");
            },
            EventType::MouseScrolled { x_offset, y_offset } => {
                s.append("MouseScrolledEvent ");
                append_i32(&mut s, x_offset);
                s.append(",");
                append_i32(&mut s, y_offset);
            },
        }
        proof {
            assert(s@ =~= spec_description(self));
        }
        s
    }
}

/// An event as it travels through one dispatch pass: an immutable variant
/// plus the mutable `handled` flag, initially false.
pub struct Event {
    handled: bool,
    event_type: EventType,
}

impl Event {
    /// The variant this event carries.
    pub closed spec fn spec_event_type(&self) -> EventType {
        self.event_type
    }

    /// The current state of the `handled` flag.
    pub closed spec fn spec_handled(&self) -> bool {
        self.handled
    }

    /// The event that `new` constructs: the given variant, not yet handled.
    pub closed spec fn spec_new(event_type: EventType) -> Event {
        Event { handled: false, event_type }
    }

    pub fn new(event_type: EventType) -> (r: Event)
        ensures
            r == Event::spec_new(event_type),
            r.spec_event_type() == event_type,
            !r.spec_handled(),
    {
        Event { handled: false, event_type }
    }

    pub fn get_event_type(&self) -> (r: EventType)
        ensures
            r == self.spec_event_type(),
    {
        self.event_type
    }

    pub fn set_handled(&mut self, value: bool)
        ensures
            final(self).spec_handled() == value,
            final(self).spec_event_type() == old(self).spec_event_type(),
    {
        self.handled = value
    }

    pub fn is_handled(&self) -> (r: bool)
        ensures
            r == self.spec_handled(),
    {
        self.handled
    }

    pub fn get_category_flags(&self) -> (r: i32)
        ensures
            r == spec_category_flags(self.spec_event_type()),
    {
        match self.event_type {
            EventType::Unknown => 0,
            EventType::WindowClose
            | EventType::WindowResize { .. }
            | EventType::WindowFocus
            | EventType::WindowLostFocus
            | EventType::WindowMoved
            | EventType::AppTick
            | EventType::AppUpdate
            | EventType::AppRender => EventCategory::EventCategoryApplication.mask(),
            EventType::KeyPressed { .. }
            | EventType::KeyReleased { .. } => EventCategory::EventCategoryKeyboard.mask()
                | EventCategory::EventCategoryInput.mask(),
            EventType::MouseButtonPressed { .. }
            | EventType::MouseButtonReleased { .. }
            | EventType::MouseMoved { .. }
            | EventType::MouseScrolled { .. } => EventCategory::EventCategoryMouse.mask()
                | EventCategory::EventCategoryInput.mask(),
        }
    }

    /// The fixed label of this event's tag.
    pub fn get_name(&self) -> (r: String)
        ensures
            r@ == spec_kind_name(spec_kind_of(self.spec_event_type())),
    {
        self.event_type.name()
    }

    /// The payload-inclusive description of this event, deterministic in the
    /// variant.
    pub fn to_string(&self) -> (r: String)
        ensures
            r@ == spec_description(self.spec_event_type()),
    {
        self.event_type.describe()
    }

    /// Bitwise test: true iff this event's bitmask shares a bit with the
    /// given category.
    pub fn is_in_category(&self, category: EventCategory) -> (r: bool)
        ensures
            r == (spec_category_flags(self.spec_event_type()) & spec_category_mask(category) > 0),
    {
        self.get_category_flags() & category.mask() > 0
    }
}

/// Law: the category bitmask is a pure function of the tag.  Two events
/// whose variants share a tag classify identically, whatever their payloads.
pub proof fn lemma_category_flags_pure_in_tag(a: EventType, b: EventType)
    requires
        spec_kind_of(a) == spec_kind_of(b),
    ensures
        spec_category_flags(a) == spec_category_flags(b),
{
}

/// Law: constructing an event and reading it back is the identity on the
/// variant, and the fresh event is unhandled.
pub proof fn lemma_event_round_trip(t: EventType)
    ensures
        Event::spec_new(t).spec_event_type() == t,
        !Event::spec_new(t).spec_handled(),
{
}

} // verus!
