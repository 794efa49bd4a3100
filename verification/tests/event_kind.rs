use dommer::event::EventKind;
use std::borrow::Cow;

fn common() -> Vec<(EventKind, &'static str)> {
    vec![
        (EventKind::Abort, "abort"),
        (EventKind::BeforeInput, "beforeinput"),
        (EventKind::Blur, "blur"),
        (EventKind::Click, "click"),
        (EventKind::CompositionStart, "compositionstart"),
        (EventKind::CompositionUpdate, "compositionupdate"),
        (EventKind::CompositionEnd, "compositionend"),
        (EventKind::DoubleClick, "dblclick"),
        (EventKind::Error, "error"),
        (EventKind::Focus, "focus"),
        (EventKind::FocusIn, "focusin"),
        (EventKind::FocusOut, "focusout"),
        (EventKind::Input, "input"),
        (EventKind::KeyDown, "keydown"),
        (EventKind::KeyPress, "keypress"),
        (EventKind::KeyUp, "keyup"),
        (EventKind::Load, "load"),
        (EventKind::MouseDown, "mousedown"),
        (EventKind::MouseEnter, "mouseenter"),
        (EventKind::MouseLeave, "mouseleave"),
        (EventKind::MouseMove, "mousemove"),
        (EventKind::MouseOut, "mouseout"),
        (EventKind::MouseOver, "mouseover"),
        (EventKind::MouseUp, "mouseup"),
        (EventKind::Resize, "resize"),
        (EventKind::Scroll, "scroll"),
        (EventKind::Select, "select"),
        (EventKind::Unload, "unload"),
        (EventKind::Wheel, "wheel"),
    ]
}

#[test]
fn every_common_kind_has_its_host_name() {
    for (kind, name) in common() {
        let wire: Cow<'static, str> = Cow::from(kind);
        assert_eq!(wire, name);
    }
}

#[test]
fn every_common_name_is_read_as_its_kind() {
    for (kind, name) in common() {
        assert_eq!(EventKind::from(name.to_string()), kind);
    }
}

#[test]
fn common_kinds_round_trip() {
    for (kind, _) in common() {
        let wire: Cow<'static, str> = Cow::from(kind.clone());
        assert_eq!(EventKind::from(wire.into_owned()), kind);
    }
}

#[test]
fn common_names_round_trip() {
    for (_, name) in common() {
        let wire: Cow<'static, str> = EventKind::from(name.to_string()).into();
        assert_eq!(wire, name);
    }
}

#[test]
fn custom_name_is_kept_verbatim() {
    let kind = EventKind::from("custom-foo".to_string());
    assert_eq!(kind, EventKind::Other(Cow::Borrowed("custom-foo")));
    let wire: Cow<'static, str> = kind.into();
    assert_eq!(wire, "custom-foo");
}

#[test]
fn names_are_read_exactly() {
    assert_eq!(EventKind::from("Click".to_string()), EventKind::Other(Cow::Borrowed("Click")));
    assert_eq!(EventKind::from("click ".to_string()), EventKind::Other(Cow::Borrowed("click ")));
    assert_eq!(EventKind::from("".to_string()), EventKind::Other(Cow::Borrowed("")));
    assert_eq!(EventKind::from("doubleclick".to_string()), EventKind::Other(Cow::Borrowed("doubleclick")));
    assert_eq!(EventKind::from("dblclick".to_string()), EventKind::DoubleClick);
}

#[test]
fn other_with_a_common_name_is_read_back_as_the_common_kind() {
    let wire: Cow<'static, str> = EventKind::Other(Cow::Borrowed("click")).into();
    assert_eq!(wire, "click");
    assert_eq!(EventKind::from(wire.into_owned()), EventKind::Click);
}

#[test]
fn other_keeps_borrowed_and_owned_text() {
    let borrowed: Cow<'static, str> = EventKind::Other(Cow::Borrowed("my-event")).into();
    let owned: Cow<'static, str> = EventKind::Other(Cow::Owned("my-event".to_string())).into();
    assert_eq!(borrowed, "my-event");
    assert_eq!(owned, "my-event");
}
