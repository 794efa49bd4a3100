//! Event names, listener options and the one-shot subscription guard.
use std::borrow::Cow;
use vstd::prelude::*;

verus! {

/// `Clone::clone` of std's `Cow`. Nothing is claimed of the copy here; the
/// derived `Clone` of [`EventKind`] reaches it.
pub assume_specification<'a, B>[ <Cow<'a, B> as Clone>::clone ](c: &Cow<'a, B>) -> Cow<'a, B>
    where B: ToOwned + ?Sized,
;

/// The kind of a DOM event: one of the common names, or any other name kept
/// verbatim in `Other`.
#[derive(Debug, Clone, Eq, PartialEq, Ord, PartialOrd, Hash)]
pub enum EventKind {
    Abort,
    BeforeInput,
    Blur,
    Click,
    CompositionStart,
    CompositionUpdate,
    CompositionEnd,
    DoubleClick,
    Error,
    Focus,
    FocusIn,
    FocusOut,
    Input,
    KeyDown,
    KeyPress,
    KeyUp,
    Load,
    MouseDown,
    MouseEnter,
    MouseLeave,
    MouseMove,
    MouseOut,
    MouseOver,
    MouseUp,
    Resize,
    Scroll,
    Select,
    Unload,
    Wheel,
    Other(Cow<'static, str>),
}

/// The mathematical value of an [`EventKind`]: the same variants, with the
/// text of `Other` as a sequence of characters.
pub enum EventName {
    Abort,
    BeforeInput,
    Blur,
    Click,
    CompositionStart,
    CompositionUpdate,
    CompositionEnd,
    DoubleClick,
    Error,
    Focus,
    FocusIn,
    FocusOut,
    Input,
    KeyDown,
    KeyPress,
    KeyUp,
    Load,
    MouseDown,
    MouseEnter,
    MouseLeave,
    MouseMove,
    MouseOut,
    MouseOver,
    MouseUp,
    Resize,
    Scroll,
    Select,
    Unload,
    Wheel,
    Other(Seq<char>),
}

impl View for EventKind {
    type V = EventName;

    open spec fn view(&self) -> EventName {
        match self {
            EventKind::Abort => EventName::Abort,
            EventKind::BeforeInput => EventName::BeforeInput,
            EventKind::Blur => EventName::Blur,
            EventKind::Click => EventName::Click,
            EventKind::CompositionStart => EventName::CompositionStart,
            EventKind::CompositionUpdate => EventName::CompositionUpdate,
            EventKind::CompositionEnd => EventName::CompositionEnd,
            EventKind::DoubleClick => EventName::DoubleClick,
            EventKind::Error => EventName::Error,
            EventKind::Focus => EventName::Focus,
            EventKind::FocusIn => EventName::FocusIn,
            EventKind::FocusOut => EventName::FocusOut,
            EventKind::Input => EventName::Input,
            EventKind::KeyDown => EventName::KeyDown,
            EventKind::KeyPress => EventName::KeyPress,
            EventKind::KeyUp => EventName::KeyUp,
            EventKind::Load => EventName::Load,
            EventKind::MouseDown => EventName::MouseDown,
            EventKind::MouseEnter => EventName::MouseEnter,
            EventKind::MouseLeave => EventName::MouseLeave,
            EventKind::MouseMove => EventName::MouseMove,
            EventKind::MouseOut => EventName::MouseOut,
            EventKind::MouseOver => EventName::MouseOver,
            EventKind::MouseUp => EventName::MouseUp,
            EventKind::Resize => EventName::Resize,
            EventKind::Scroll => EventName::Scroll,
            EventKind::Select => EventName::Select,
            EventKind::Unload => EventName::Unload,
            EventKind::Wheel => EventName::Wheel,
            EventKind::Other(name) => EventName::Other(name@),
        }
    }
}

impl EventName {
    /// The text of a common event's host name; the empty text for `Other`,
    /// whose name is its own.
    pub open spec fn literal(self) -> &'static str {
        match self {
            EventName::Abort => "abort",
            EventName::BeforeInput => "beforeinput",
            EventName::Blur => "blur",
            EventName::Click => "click",
            EventName::CompositionStart => "compositionstart",
            EventName::CompositionUpdate => "compositionupdate",
            EventName::CompositionEnd => "compositionend",
            EventName::DoubleClick => "dblclick",
            EventName::Error => "error",
            EventName::Focus => "focus",
            EventName::FocusIn => "focusin",
            EventName::FocusOut => "focusout",
            EventName::Input => "input",
            EventName::KeyDown => "keydown",
            EventName::KeyPress => "keypress",
            EventName::KeyUp => "keyup",
            EventName::Load => "load",
            EventName::MouseDown => "mousedown",
            EventName::MouseEnter => "mouseenter",
            EventName::MouseLeave => "mouseleave",
            EventName::MouseMove => "mousemove",
            EventName::MouseOut => "mouseout",
            EventName::MouseOver => "mouseover",
            EventName::MouseUp => "mouseup",
            EventName::Resize => "resize",
            EventName::Scroll => "scroll",
            EventName::Select => "select",
            EventName::Unload => "unload",
            EventName::Wheel => "wheel",
            EventName::Other(_) => "",
        }
    }

    /// The name under which the host knows this event.
    pub open spec fn wire(self) -> Seq<char> {
        match self {
            EventName::Other(name) => name,
            _ => self.literal()@,
        }
    }

    /// The event that a host name stands for: its own variant where the name
    /// is one of the common ones, `Other` with the name unchanged where not.
    pub open spec fn parse(name: Seq<char>) -> EventName {
        if name == "abort"@ {
            EventName::Abort
        } else if name == "beforeinput"@ {
            EventName::BeforeInput
        } else if name == "blur"@ {
            EventName::Blur
        } else if name == "click"@ {
            EventName::Click
        } else if name == "compositionstart"@ {
            EventName::CompositionStart
        } else if name == "compositionupdate"@ {
            EventName::CompositionUpdate
        } else if name == "compositionend"@ {
            EventName::CompositionEnd
        } else if name == "dblclick"@ {
            EventName::DoubleClick
        } else if name == "error"@ {
            EventName::Error
        } else if name == "focus"@ {
            EventName::Focus
        } else if name == "focusin"@ {
            EventName::FocusIn
        } else if name == "focusout"@ {
            EventName::FocusOut
        } else if name == "input"@ {
            EventName::Input
        } else if name == "keydown"@ {
            EventName::KeyDown
        } else if name == "keypress"@ {
            EventName::KeyPress
        } else if name == "keyup"@ {
            EventName::KeyUp
        } else if name == "load"@ {
            EventName::Load
        } else if name == "mousedown"@ {
            EventName::MouseDown
        } else if name == "mouseenter"@ {
            EventName::MouseEnter
        } else if name == "mouseleave"@ {
            EventName::MouseLeave
        } else if name == "mousemove"@ {
            EventName::MouseMove
        } else if name == "mouseout"@ {
            EventName::MouseOut
        } else if name == "mouseover"@ {
            EventName::MouseOver
        } else if name == "mouseup"@ {
            EventName::MouseUp
        } else if name == "resize"@ {
            EventName::Resize
        } else if name == "scroll"@ {
            EventName::Scroll
        } else if name == "select"@ {
            EventName::Select
        } else if name == "unload"@ {
            EventName::Unload
        } else if name == "wheel"@ {
            EventName::Wheel
        } else {
            EventName::Other(name)
        }
    }

    /// Whether `name` is one of the common names, each of which has a variant
    /// of its own.
    pub open spec fn is_common(name: Seq<char>) -> bool {
        !(EventName::parse(name) is Other)
    }

    /// Whether this is the value that `parse` gives for its own host name.
    /// Only `Other` holding a common name is not.
    pub open spec fn is_canonical(self) -> bool {
        self is Other ==> !EventName::is_common(self->Other_0)
    }
}

/// Whether two string slices hold the same characters, found by comparing
/// their bytes: a text and its UTF-8 bytes determine each other.
fn same_text(a: &str, b: &str) -> (same: bool)
    ensures
        same == (a@ == b@),
{
    let left = a.as_bytes();
    let right = b.as_bytes();
    proof {
        vstd::utf8::encode_utf8_decode_utf8(a@);
        vstd::utf8::encode_utf8_decode_utf8(b@);
    }
    if left.len() != right.len() {
        return false;
    }
    let mut i: usize = 0;
    while i < left.len()
        invariant
            i <= left.len(),
            left.len() == right.len(),
            left@ == vstd::utf8::encode_utf8(a@),
            right@ == vstd::utf8::encode_utf8(b@),
            forall|j: int| 0 <= j < i ==> left@[j] == right@[j],
        decreases left.len() - i,
    {
        if left[i] != right[i] {
            return false;
        }
        i += 1;
    }
    assert(left@ =~= right@);
    true
}

impl EventKind {
    /// The kind whose value is `name`, with `text` as the text of `Other`.
    pub open spec fn of_name(name: EventName, text: Cow<'static, str>) -> EventKind {
        match name {
            EventName::Abort => EventKind::Abort,
            EventName::BeforeInput => EventKind::BeforeInput,
            EventName::Blur => EventKind::Blur,
            EventName::Click => EventKind::Click,
            EventName::CompositionStart => EventKind::CompositionStart,
            EventName::CompositionUpdate => EventKind::CompositionUpdate,
            EventName::CompositionEnd => EventKind::CompositionEnd,
            EventName::DoubleClick => EventKind::DoubleClick,
            EventName::Error => EventKind::Error,
            EventName::Focus => EventKind::Focus,
            EventName::FocusIn => EventKind::FocusIn,
            EventName::FocusOut => EventKind::FocusOut,
            EventName::Input => EventKind::Input,
            EventName::KeyDown => EventKind::KeyDown,
            EventName::KeyPress => EventKind::KeyPress,
            EventName::KeyUp => EventKind::KeyUp,
            EventName::Load => EventKind::Load,
            EventName::MouseDown => EventKind::MouseDown,
            EventName::MouseEnter => EventKind::MouseEnter,
            EventName::MouseLeave => EventKind::MouseLeave,
            EventName::MouseMove => EventKind::MouseMove,
            EventName::MouseOut => EventKind::MouseOut,
            EventName::MouseOver => EventKind::MouseOver,
            EventName::MouseUp => EventKind::MouseUp,
            EventName::Resize => EventKind::Resize,
            EventName::Scroll => EventKind::Scroll,
            EventName::Select => EventKind::Select,
            EventName::Unload => EventKind::Unload,
            EventName::Wheel => EventKind::Wheel,
            EventName::Other(_) => EventKind::Other(text),
        }
    }
}

impl vstd::std_specs::convert::FromSpecImpl<String> for EventKind {
    open spec fn obeys_from_spec() -> bool {
        true
    }

    open spec fn from_spec(kind: String) -> EventKind {
        EventKind::of_name(EventName::parse(kind@), Cow::Owned(kind))
    }
}

impl From<String> for EventKind {
    /// Reads a host event name: a common name gives its variant, any other
    /// name is kept unchanged in `Other`, which then owns the text.
    fn from(kind: String) -> (event_kind: EventKind)
        ensures
            event_kind@ == EventName::parse(kind@),
            event_kind == EventKind::of_name(EventName::parse(kind@), Cow::Owned(kind)),
    {
        let name: &str = kind.as_str();
        if same_text(name, "abort") {
            EventKind::Abort
        } else if same_text(name, "beforeinput") {
            EventKind::BeforeInput
        } else if same_text(name, "blur") {
            EventKind::Blur
        } else if same_text(name, "click") {
            EventKind::Click
        } else if same_text(name, "compositionstart") {
            EventKind::CompositionStart
        } else if same_text(name, "compositionupdate") {
            EventKind::CompositionUpdate
        } else if same_text(name, "compositionend") {
            EventKind::CompositionEnd
        } else if same_text(name, "dblclick") {
            EventKind::DoubleClick
        } else if same_text(name, "error") {
            EventKind::Error
        } else if same_text(name, "focus") {
            EventKind::Focus
        } else if same_text(name, "focusin") {
            EventKind::FocusIn
        } else if same_text(name, "focusout") {
            EventKind::FocusOut
        } else if same_text(name, "input") {
            EventKind::Input
        } else if same_text(name, "keydown") {
            EventKind::KeyDown
        } else if same_text(name, "keypress") {
            EventKind::KeyPress
        } else if same_text(name, "keyup") {
            EventKind::KeyUp
        } else if same_text(name, "load") {
            EventKind::Load
        } else if same_text(name, "mousedown") {
            EventKind::MouseDown
        } else if same_text(name, "mouseenter") {
            EventKind::MouseEnter
        } else if same_text(name, "mouseleave") {
            EventKind::MouseLeave
        } else if same_text(name, "mousemove") {
            EventKind::MouseMove
        } else if same_text(name, "mouseout") {
            EventKind::MouseOut
        } else if same_text(name, "mouseover") {
            EventKind::MouseOver
        } else if same_text(name, "mouseup") {
            EventKind::MouseUp
        } else if same_text(name, "resize") {
            EventKind::Resize
        } else if same_text(name, "scroll") {
            EventKind::Scroll
        } else if same_text(name, "select") {
            EventKind::Select
        } else if same_text(name, "unload") {
            EventKind::Unload
        } else if same_text(name, "wheel") {
            EventKind::Wheel
        } else {
            EventKind::Other(Cow::Owned(kind))
        }
    }
}

impl vstd::std_specs::convert::FromSpecImpl<EventKind> for Cow<'static, str> {
    open spec fn obeys_from_spec() -> bool {
        true
    }

    open spec fn from_spec(event_kind: EventKind) -> Cow<'static, str> {
        match event_kind {
            EventKind::Other(other) => other,
            _ => Cow::Borrowed(event_kind@.literal()),
        }
    }
}

impl From<EventKind> for Cow<'static, str> {
    /// The host name of an event kind.
    fn from(event_kind: EventKind) -> (name: Cow<'static, str>)
        ensures
            name@ == event_kind@.wire(),
    {
        match event_kind {
            EventKind::Abort => Cow::Borrowed("abort"),
            EventKind::BeforeInput => Cow::Borrowed("beforeinput"),
            EventKind::Blur => Cow::Borrowed("blur"),
            EventKind::Click => Cow::Borrowed("click"),
            EventKind::CompositionStart => Cow::Borrowed("compositionstart"),
            EventKind::CompositionUpdate => Cow::Borrowed("compositionupdate"),
            EventKind::CompositionEnd => Cow::Borrowed("compositionend"),
            EventKind::DoubleClick => Cow::Borrowed("dblclick"),
            EventKind::Error => Cow::Borrowed("error"),
            EventKind::Focus => Cow::Borrowed("focus"),
            EventKind::FocusIn => Cow::Borrowed("focusin"),
            EventKind::FocusOut => Cow::Borrowed("focusout"),
            EventKind::Input => Cow::Borrowed("input"),
            EventKind::KeyDown => Cow::Borrowed("keydown"),
            EventKind::KeyPress => Cow::Borrowed("keypress"),
            EventKind::KeyUp => Cow::Borrowed("keyup"),
            EventKind::Load => Cow::Borrowed("load"),
            EventKind::MouseDown => Cow::Borrowed("mousedown"),
            EventKind::MouseEnter => Cow::Borrowed("mouseenter"),
            EventKind::MouseLeave => Cow::Borrowed("mouseleave"),
            EventKind::MouseMove => Cow::Borrowed("mousemove"),
            EventKind::MouseOut => Cow::Borrowed("mouseout"),
            EventKind::MouseOver => Cow::Borrowed("mouseover"),
            EventKind::MouseUp => Cow::Borrowed("mouseup"),
            EventKind::Resize => Cow::Borrowed("resize"),
            EventKind::Scroll => Cow::Borrowed("scroll"),
            EventKind::Select => Cow::Borrowed("select"),
            EventKind::Unload => Cow::Borrowed("unload"),
            EventKind::Wheel => Cow::Borrowed("wheel"),
            EventKind::Other(other) => other,
        }
    }
}

/// The common event names differ pairwise in their length, their first
/// character or their sixth.
proof fn lemma_common_names_differ()
    ensures
        "abort"@.len() == 5 && "abort"@[0] == 'a',
        "beforeinput"@.len() == 11 && "beforeinput"@[0] == 'b' && "beforeinput"@[5] == 'e',
        "blur"@.len() == 4 && "blur"@[0] == 'b',
        "click"@.len() == 5 && "click"@[0] == 'c',
        "compositionstart"@.len() == 16 && "compositionstart"@[0] == 'c' && "compositionstart"@[5] == 's',
        "compositionupdate"@.len() == 17 && "compositionupdate"@[0] == 'c' && "compositionupdate"@[5] == 's',
        "compositionend"@.len() == 14 && "compositionend"@[0] == 'c' && "compositionend"@[5] == 's',
        "dblclick"@.len() == 8 && "dblclick"@[0] == 'd' && "dblclick"@[5] == 'i',
        "error"@.len() == 5 && "error"@[0] == 'e',
        "focus"@.len() == 5 && "focus"@[0] == 'f',
        "focusin"@.len() == 7 && "focusin"@[0] == 'f' && "focusin"@[5] == 'i',
        "focusout"@.len() == 8 && "focusout"@[0] == 'f' && "focusout"@[5] == 'o',
        "input"@.len() == 5 && "input"@[0] == 'i',
        "keydown"@.len() == 7 && "keydown"@[0] == 'k' && "keydown"@[5] == 'w',
        "keypress"@.len() == 8 && "keypress"@[0] == 'k' && "keypress"@[5] == 'e',
        "keyup"@.len() == 5 && "keyup"@[0] == 'k',
        "load"@.len() == 4 && "load"@[0] == 'l',
        "mousedown"@.len() == 9 && "mousedown"@[0] == 'm' && "mousedown"@[5] == 'd',
        "mouseenter"@.len() == 10 && "mouseenter"@[0] == 'm' && "mouseenter"@[5] == 'e',
        "mouseleave"@.len() == 10 && "mouseleave"@[0] == 'm' && "mouseleave"@[5] == 'l',
        "mousemove"@.len() == 9 && "mousemove"@[0] == 'm' && "mousemove"@[5] == 'm',
        "mouseout"@.len() == 8 && "mouseout"@[0] == 'm' && "mouseout"@[5] == 'o',
        "mouseover"@.len() == 9 && "mouseover"@[0] == 'm' && "mouseover"@[5] == 'o',
        "mouseup"@.len() == 7 && "mouseup"@[0] == 'm' && "mouseup"@[5] == 'u',
        "resize"@.len() == 6 && "resize"@[0] == 'r' && "resize"@[5] == 'e',
        "scroll"@.len() == 6 && "scroll"@[0] == 's' && "scroll"@[5] == 'l',
        "select"@.len() == 6 && "select"@[0] == 's' && "select"@[5] == 't',
        "unload"@.len() == 6 && "unload"@[0] == 'u' && "unload"@[5] == 'd',
        "wheel"@.len() == 5 && "wheel"@[0] == 'w',
{
    reveal_strlit("abort");
    reveal_strlit("beforeinput");
    reveal_strlit("blur");
    reveal_strlit("click");
    reveal_strlit("compositionstart");
    reveal_strlit("compositionupdate");
    reveal_strlit("compositionend");
    reveal_strlit("dblclick");
    reveal_strlit("error");
    reveal_strlit("focus");
    reveal_strlit("focusin");
    reveal_strlit("focusout");
    reveal_strlit("input");
    reveal_strlit("keydown");
    reveal_strlit("keypress");
    reveal_strlit("keyup");
    reveal_strlit("load");
    reveal_strlit("mousedown");
    reveal_strlit("mouseenter");
    reveal_strlit("mouseleave");
    reveal_strlit("mousemove");
    reveal_strlit("mouseout");
    reveal_strlit("mouseover");
    reveal_strlit("mouseup");
    reveal_strlit("resize");
    reveal_strlit("scroll");
    reveal_strlit("select");
    reveal_strlit("unload");
    reveal_strlit("wheel");
}

/// Reading a host name and writing it back gives the same name, whatever the
/// name is: a common name comes back from its variant, any other from `Other`.
pub proof fn lemma_wire_of_parse(name: Seq<char>)
    ensures
        EventName::parse(name).wire() == name,
{
}

/// Writing an event's host name and reading it back gives the same event, for
/// every common event and for every `Other` whose text is not a common name.
pub proof fn lemma_parse_of_wire(kind: EventName)
    requires
        kind.is_canonical(),
    ensures
        EventName::parse(kind.wire()) == kind,
{
    lemma_common_names_differ();
}

/// A name that is not common comes back from `Other` unchanged.
pub proof fn lemma_parse_keeps_other_names(name: Seq<char>)
    requires
        !EventName::is_common(name),
    ensures
        EventName::parse(name) == EventName::Other(name),
        EventName::Other(name).is_canonical(),
{
}

/// Options for registering a listener. Each field is either left to the host
/// (`None`) or set.
#[derive(Debug, Clone, Copy, PartialEq, Eq, Structural)]
pub struct AddEventListenerOptions {
    pub capture: Option<bool>,
    pub once: Option<bool>,
    pub passive: Option<bool>,
}

/// Options for removing a listener: the host finds the listener to remove by
/// event name, callback and capture flag.
#[derive(Debug, Clone, Copy, PartialEq, Eq, Structural)]
pub struct EventListenerOptions {
    pub capture: Option<bool>,
}

impl Default for AddEventListenerOptions {
    fn default() -> (options: AddEventListenerOptions)
        ensures
            options == AddEventListenerOptions::unset(),
    {
        AddEventListenerOptions { capture: None, once: None, passive: None }
    }
}

impl AddEventListenerOptions {
    /// The options with no field set.
    pub open spec fn unset() -> AddEventListenerOptions {
        AddEventListenerOptions { capture: None, once: None, passive: None }
    }

    /// The options object that registration hands to the host: none at all
    /// where no field is set, else these options.
    pub open spec fn add_dictionary(self) -> Option<AddEventListenerOptions> {
        if self == AddEventListenerOptions::unset() {
            None
        } else {
            Some(self)
        }
    }

    /// The options object that removal hands to the host: none where `capture`
    /// is not set, else one that holds `capture`.
    pub open spec fn remove_dictionary(self) -> Option<EventListenerOptions> {
        match self.capture {
            Some(capture) => Some(EventListenerOptions { capture: Some(capture) }),
            None => None,
        }
    }

    pub fn capture(&mut self, val: bool) -> (options: &mut Self)
        ensures
            *options == (AddEventListenerOptions { capture: Some(val), ..*old(self) }),
            *final(self) == *final(options),
    {
        self.capture = Some(val);
        self
    }

    pub fn once(&mut self, val: bool) -> (options: &mut Self)
        ensures
            *options == (AddEventListenerOptions { once: Some(val), ..*old(self) }),
            *final(self) == *final(options),
    {
        self.once = Some(val);
        self
    }

    pub fn passive(&mut self, val: bool) -> (options: &mut Self)
        ensures
            *options == (AddEventListenerOptions { passive: Some(val), ..*old(self) }),
            *final(self) == *final(options),
    {
        self.passive = Some(val);
        self
    }

    /// The options object for the host's `addEventListener`, if one is to be
    /// passed at all.
    pub fn into_web_sys(&self) -> (dictionary: Option<AddEventListenerOptions>)
        ensures
            dictionary == self.add_dictionary(),
            dictionary is None <==> *self == AddEventListenerOptions::unset(),
    {
        if *self == AddEventListenerOptions::default() {
            None
        } else {
            Some(*self)
        }
    }

    /// The options object for the host's `removeEventListener`, if one is to
    /// be passed at all.
    pub fn into_web_sys_remove(&self) -> (dictionary: Option<EventListenerOptions>)
        ensures
            dictionary == self.remove_dictionary(),
    {
        match self.capture {
            Some(capture) => Some(EventListenerOptions { capture: Some(capture) }),
            None => None,
        }
    }
}

/// The capture flag the host works with when handed `capture`: a flag that is
/// not set counts as `false`.
pub open spec fn capture_in_effect(capture: Option<bool>) -> bool {
    match capture {
        Some(flag) => flag,
        None => false,
    }
}

/// What the host is to be told in order to register a listener, and later to
/// remove that same listener.
#[derive(Debug, Clone, PartialEq, Eq)]
pub struct ListenerPlan {
    /// The host name of the event, used for both calls.
    pub event_name: Cow<'static, str>,
    /// The options of the registering call; `None` for the call without options.
    pub add_options: Option<AddEventListenerOptions>,
    /// The options of the removing call; `None` for the call without options.
    pub remove_options: Option<EventListenerOptions>,
}

impl ListenerPlan {
    /// The capture flag under which the host registers the listener.
    pub open spec fn registered_capture(self) -> bool {
        match self.add_options {
            Some(options) => capture_in_effect(options.capture),
            None => false,
        }
    }

    /// The capture flag under which the host looks for the listener to remove.
    pub open spec fn removed_capture(self) -> bool {
        match self.remove_options {
            Some(options) => capture_in_effect(options.capture),
            None => false,
        }
    }

    /// The plan for a listener on `event_kind` with `options`.
    pub open spec fn describes(self, event_kind: EventName, options: AddEventListenerOptions) -> bool {
        &&& self.event_name@ == event_kind.wire()
        &&& self.add_options == options.add_dictionary()
        &&& self.remove_options == options.remove_dictionary()
    }
}

/// Decides how a listener for `event_kind` is registered with the host and how
/// it is removed again: under the kind's host name; with an options object
/// only where some option is set; and removed with the capture flag it was
/// registered with.
pub fn add_event_listener_opts(event_kind: EventKind, options: AddEventListenerOptions) -> (plan:
    ListenerPlan)
    ensures
        plan.describes(event_kind@, options),
        plan.removed_capture() == plan.registered_capture(),
{
    let event_name: Cow<'static, str> = Cow::from(event_kind);
    ListenerPlan {
        event_name,
        add_options: options.into_web_sys(),
        remove_options: options.into_web_sys_remove(),
    }
}

/// The plan for a listener registered without options.
pub fn add_event_listener(event_kind: EventKind) -> (plan: ListenerPlan)
    ensures
        plan.describes(event_kind@, AddEventListenerOptions::unset()),
        plan.add_options is None,
        plan.remove_options is None,
{
    add_event_listener_opts(event_kind, AddEventListenerOptions::default())
}

/// Options with no field set are the default, and only they lead to a
/// registration without an options object.
pub proof fn lemma_unset_options_pass_no_dictionary(options: AddEventListenerOptions)
    ensures
        options.add_dictionary() is None <==> options == AddEventListenerOptions::unset(),
        options.add_dictionary() is None ==> options.remove_dictionary() is None,
        options.add_dictionary() matches Some(dictionary) ==> dictionary == options,
{
}

/// Whatever the options, the removal looks for the listener under the capture
/// flag that the registration used.
pub proof fn lemma_removal_matches_registration(plan: ListenerPlan, event_kind: EventName, options: AddEventListenerOptions)
    requires
        plan.describes(event_kind, options),
    ensures
        plan.removed_capture() == plan.registered_capture(),
        plan.registered_capture() == capture_in_effect(options.capture),
{
}

/// A handle on one subscription. It owns the action that removes the
/// listener, and gives it up exactly once.
pub struct SubscribeGuard<F> {
    unsubscribe: Option<F>,
}

impl<F> SubscribeGuard<F> {
    /// The action that this guard still owes, if it has not been released.
    pub closed spec fn pending(self) -> Option<F> {
        self.unsubscribe
    }

    /// This guard after a release: nothing is owed any more.
    pub closed spec fn released(self) -> SubscribeGuard<F> {
        SubscribeGuard { unsubscribe: None }
    }

    pub fn new(unsubscribe: F) -> (guard: SubscribeGuard<F>)
        ensures
            guard.pending() == Some(unsubscribe),
    {
        SubscribeGuard { unsubscribe: Some(unsubscribe) }
    }

    /// Whether the action has been given up already.
    pub fn is_released(&self) -> (released: bool)
        ensures
            released == (self.pending() is None),
    {
        self.unsubscribe.is_none()
    }

    /// Gives up the action without running it: the caller gets it on the first
    /// call and nothing on any later one.
    pub fn take(&mut self) -> (action: Option<F>)
        ensures
            action == old(self).pending(),
            final(self).pending() is None,
            *final(self) == old(self).released(),
    {
        self.unsubscribe.take()
    }
}

impl<F: FnOnce()> SubscribeGuard<F> {
    /// Runs the action if it is still owed, and reports whether it ran. A
    /// guard that was released before runs nothing.
    pub fn release(&mut self) -> (ran: bool)
        requires
            old(self).pending() matches Some(action) ==> call_requires(action, ()),
        ensures
            ran == (old(self).pending() is Some),
            old(self).pending() matches Some(action) ==> call_ensures(action, (), ()),
            final(self).pending() is None,
            *final(self) == old(self).released(),
    {
        match self.take() {
            Some(action) => {
                action();
                true
            },
            None => false,
        }
    }
}

/// A released guard owes nothing, and releasing it again changes nothing: the
/// action is given up on the first release and never again.
pub proof fn lemma_release_is_one_shot<F>(guard: SubscribeGuard<F>)
    ensures
        guard.released().pending() is None,
        guard.released().released() == guard.released(),
        guard.pending() is None ==> guard.released() == guard,
{
}

/// Several guards, as a caller holds them for listeners on one target and
/// event, after the guard at `index` has been released.
pub open spec fn release_at<F>(guards: Seq<SubscribeGuard<F>>, index: int) -> Seq<SubscribeGuard<F>> {
    guards.update(index, guards[index].released())
}

/// Releasing one guard leaves every other guard owing what it owed, and
/// releasing two of them leaves both released, in whichever order.
pub proof fn lemma_guards_release_independently<F>(
    guards: Seq<SubscribeGuard<F>>,
    first: int,
    second: int,
)
    requires
        0 <= first < guards.len(),
        0 <= second < guards.len(),
        first != second,
    ensures
        release_at(guards, first)[first].pending() is None,
        release_at(guards, first)[second] == guards[second],
        release_at(release_at(guards, first), second)[first].pending() is None,
        release_at(release_at(guards, first), second)[second].pending() is None,
        release_at(release_at(guards, first), second) == release_at(
            release_at(guards, second),
            first,
        ),
{
    assert(release_at(release_at(guards, first), second) =~= release_at(
        release_at(guards, second),
        first,
    ));
}

} // verus!
