use touchpad_page::config::{
    AccelConfig, AccelProfile, ClickMethod, PrimaryButton, ScrollConfig, ScrollMethod, TapConfig, TouchpadConfig,
};
use touchpad_page::label::Label;
use touchpad_page::page::{Page, SectionStore};
use touchpad_page::section::{
    click_behavior, click_method_message, primary_button_message, scroll_method, scroll_method_message, scrolling, swiping,
    touchpad, Item, Message, SectionKind, Toggle,
};

fn unset() -> TouchpadConfig {
    TouchpadConfig {
        acceleration: None,
        disable_while_typing: None,
        click_method: None,
        tap_config: None,
        scroll_config: None,
    }
}

#[test]
fn content_stores_four_sections_in_order() {
    let mut store = SectionStore::new();
    assert_eq!(store.len(), 0);
    let keys = Page.content(&mut store).unwrap();
    assert_eq!(keys.len(), 4);
    assert_eq!(store.len(), 4);
    let kinds: Vec<SectionKind> = keys.iter().map(|k| store.get(*k).unwrap().kind).collect();
    assert_eq!(
        kinds,
        vec![
            SectionKind::Touchpad,
            SectionKind::ClickBehavior,
            SectionKind::Scrolling,
            SectionKind::Gestures
        ]
    );
    for i in 0..4 {
        for j in (i + 1)..4 {
            assert_ne!(keys[i], keys[j]);
        }
    }
}

#[test]
fn content_keeps_sections_already_stored() {
    let mut store = SectionStore::new();
    let first = Page.content(&mut store).unwrap();
    let second = Page.content(&mut store).unwrap();
    assert_eq!(store.len(), 8);
    for k in &first {
        assert!(!second.contains(k));
    }
    assert_eq!(store.get(first[2]).unwrap().kind, SectionKind::Scrolling);
    assert_eq!(store.get(second[3]).unwrap().title, Some(Label::Gestures));
}

#[test]
fn info_names_the_page() {
    let info = Page.info();
    assert_eq!(info.id, "touchpad");
    assert_eq!(info.icon_name, "input-touchpad-symbolic");
    assert_eq!(info.title, Label::Touchpad);
    assert_eq!(info.description, Label::TouchpadDesc);
}

#[test]
fn section_titles_and_descriptions() {
    let t = touchpad();
    assert_eq!(t.title, None);
    assert_eq!(
        t.descriptions,
        vec![
            Label::PrimaryButton,
            Label::TouchpadSpeed,
            Label::TouchpadAcceleration,
            Label::AccelerationDesc,
            Label::DisableWhileTyping
        ]
    );
    let c = click_behavior();
    assert_eq!(c.title, Some(Label::ClickBehavior));
    assert_eq!(c.descriptions.len(), 4);
    assert_eq!(c.descriptions[3], Label::TapToClickDesc);
    let s = scrolling();
    assert_eq!(s.title, Some(Label::Scrolling));
    assert_eq!(s.descriptions[0], Label::ScrollingTwoFinger);
    assert_eq!(s.descriptions[4], Label::ScrollingNaturalDesc);
    let g = swiping();
    assert_eq!(g.title, Some(Label::Gestures));
    assert_eq!(g.descriptions.len(), 5);
    assert_eq!(g.descriptions[4], Label::SwipingThreeFingerAny);
}

#[test]
fn unset_configuration_shows_defaults() {
    let c = unset();
    let items = touchpad().items(&c);
    assert_eq!(
        items,
        vec![
            Item::PrimaryButton { label: Label::PrimaryButton },
            Item::PointerSpeed { label: Label::TouchpadSpeed },
            Item::Toggler {
                label: Label::TouchpadAcceleration,
                description: Some(Label::AccelerationDesc),
                on: true,
                control: Toggle::Acceleration,
            },
            Item::Toggler {
                label: Label::DisableWhileTyping,
                description: None,
                on: false,
                control: Toggle::DisableWhileTyping,
            },
        ]
    );
    let click = click_behavior().items(&c);
    assert_eq!(
        click,
        vec![
            Item::ClickMethodRadio {
                label: Label::ClickBehaviorClickFinger,
                click_method: ClickMethod::Clickfinger,
                selected: false,
            },
            Item::ClickMethodRadio {
                label: Label::ClickBehaviorButtonAreas,
                click_method: ClickMethod::ButtonAreas,
                selected: false,
            },
            Item::Toggler {
                label: Label::TapToClick,
                description: None,
                on: false,
                control: Toggle::TapToClick,
            },
        ]
    );
    let scroll = scrolling().items(&c);
    assert_eq!(
        scroll,
        vec![
            Item::ScrollMethodRadio {
                label: Label::ScrollingTwoFinger,
                scroll_method: ScrollMethod::TwoFinger,
                selected: false,
            },
            Item::ScrollMethodRadio {
                label: Label::ScrollingEdge,
                scroll_method: ScrollMethod::Edge,
                selected: false,
            },
            Item::ScrollSpeed { label: Label::ScrollingSpeed },
            Item::Toggler {
                label: Label::ScrollingNatural,
                description: Some(Label::ScrollingNaturalDesc),
                on: false,
                control: Toggle::NaturalScroll,
            },
        ]
    );
    assert_eq!(scroll_method(&c), None);
}

#[test]
fn flat_acceleration_switches_acceleration_off() {
    let mut c = unset();
    c.acceleration = Some(AccelConfig { profile: Some(AccelProfile::Flat) });
    assert!(matches!(touchpad().items(&c)[2], Item::Toggler { on: false, .. }));
    c.acceleration = Some(AccelConfig { profile: None });
    assert!(matches!(touchpad().items(&c)[2], Item::Toggler { on: false, .. }));
    c.acceleration = Some(AccelConfig { profile: Some(AccelProfile::Adaptive) });
    assert!(matches!(touchpad().items(&c)[2], Item::Toggler { on: true, .. }));
}

#[test]
fn disable_while_typing_follows_configuration() {
    let mut c = unset();
    c.disable_while_typing = Some(true);
    assert!(matches!(touchpad().items(&c)[3], Item::Toggler { on: true, .. }));
    c.disable_while_typing = Some(false);
    assert!(matches!(touchpad().items(&c)[3], Item::Toggler { on: false, .. }));
}

#[test]
fn set_click_method_selects_one_radio() {
    let mut c = unset();
    c.click_method = Some(ClickMethod::Clickfinger);
    c.tap_config = Some(TapConfig { enabled: true });
    let items = click_behavior().items(&c);
    assert!(matches!(items[0], Item::ClickMethodRadio { selected: true, .. }));
    assert!(matches!(items[1], Item::ClickMethodRadio { selected: false, .. }));
    assert!(matches!(items[2], Item::Toggler { on: true, .. }));
    c.click_method = Some(ClickMethod::ButtonAreas);
    let items = click_behavior().items(&c);
    assert!(matches!(items[0], Item::ClickMethodRadio { selected: false, .. }));
    assert!(matches!(items[1], Item::ClickMethodRadio { selected: true, .. }));
}

#[test]
fn scroll_settings_follow_configuration() {
    let mut c = unset();
    c.scroll_config = Some(ScrollConfig {
        method: Some(ScrollMethod::Edge),
        natural_scroll: Some(true),
    });
    assert_eq!(scroll_method(&c), Some(ScrollMethod::Edge));
    let items = scrolling().items(&c);
    assert!(matches!(items[0], Item::ScrollMethodRadio { selected: false, .. }));
    assert!(matches!(items[1], Item::ScrollMethodRadio { selected: true, .. }));
    assert!(matches!(items[3], Item::Toggler { on: true, .. }));
    c.scroll_config = Some(ScrollConfig {
        method: Some(ScrollMethod::OnButtonDown),
        natural_scroll: None,
    });
    let items = scrolling().items(&c);
    assert!(matches!(items[0], Item::ScrollMethodRadio { selected: false, .. }));
    assert!(matches!(items[1], Item::ScrollMethodRadio { selected: false, .. }));
    assert!(matches!(items[3], Item::Toggler { on: false, .. }));
}

#[test]
fn gestures_show_workspace_switching() {
    let items = swiping().items(&unset());
    assert_eq!(
        items,
        vec![
            Item::Gesture {
                gesture: Label::SwipingFourFingerUp,
                action: Label::SwitchToPrevWorkspace,
            },
            Item::Gesture {
                gesture: Label::SwipingFourFingerDown,
                action: Label::SwitchToNextWorkspace,
            },
        ]
    );
}

#[test]
fn controls_send_touchpad_messages() {
    assert_eq!(
        primary_button_message(PrimaryButton::Right),
        Message::PrimaryButtonSelected(PrimaryButton::Right, true)
    );
    assert_eq!(
        primary_button_message(PrimaryButton::Left),
        Message::PrimaryButtonSelected(PrimaryButton::Left, true)
    );
    assert_eq!(Toggle::Acceleration.message(false), Message::SetAcceleration(false, true));
    assert_eq!(
        Toggle::DisableWhileTyping.message(true),
        Message::DisableWhileTyping(true, true)
    );
    assert_eq!(Toggle::TapToClick.message(true), Message::TapToClick(true));
    assert_eq!(Toggle::NaturalScroll.message(false), Message::SetNaturalScroll(false, true));
    assert_eq!(
        click_method_message(ClickMethod::ButtonAreas),
        Message::SetSecondaryClickBehavior(Some(ClickMethod::ButtonAreas), true)
    );
    assert_eq!(
        scroll_method_message(ScrollMethod::TwoFinger),
        Message::SetScrollMethod(Some(ScrollMethod::TwoFinger), true)
    );
}
