use vstd::prelude::*;

use crate::config::{AccelProfile, ClickMethod, PrimaryButton, ScrollMethod, TouchpadConfig};
use crate::label::Label;

verus! {

/// The sections of the touchpad page, in the order in which they are shown.
#[derive(Clone, Copy, Debug, PartialEq, Eq, Structural)]
pub enum SectionKind {
    Touchpad,
    ClickBehavior,
    Scrolling,
    Gestures,
}

/// A section of the page: its title, the strings that a search over the
/// settings matches it by, and which section it is.
#[derive(Clone, Debug)]
pub struct Section {
    pub title: Option<Label>,
    pub descriptions: Vec<Label>,
    pub kind: SectionKind,
}

/// An on/off switch of the page, named by the setting it changes.
#[derive(Clone, Copy, Debug, PartialEq, Eq, Structural)]
pub enum Toggle {
    Acceleration,
    DisableWhileTyping,
    TapToClick,
    NaturalScroll,
}

/// A change of the touchpad configuration that a control asks for. The flag
/// that most variants carry says that the change is for the touchpad, not
/// for the mouse.
#[derive(Clone, Copy, Debug, PartialEq, Eq, Structural)]
pub enum Message {
    PrimaryButtonSelected(PrimaryButton, bool),
    SetAcceleration(bool, bool),
    DisableWhileTyping(bool, bool),
    SetSecondaryClickBehavior(Option<ClickMethod>, bool),
    TapToClick(bool),
    SetScrollMethod(Option<ScrollMethod>, bool),
    SetNaturalScroll(bool, bool),
}

/// A control in a section, with the state it shows.
#[derive(Clone, Copy, Debug, PartialEq, Eq, Structural)]
pub enum Item {
    /// The choice of the primary button, shared with the mouse page.
    PrimaryButton { label: Label },
    /// The pointer speed slider.
    PointerSpeed { label: Label },
    /// The scroll speed slider.
    ScrollSpeed { label: Label },
    /// An on/off switch.
    Toggler { label: Label, description: Option<Label>, on: bool, control: Toggle },
    /// One choice of click method.
    ClickMethodRadio { label: Label, click_method: ClickMethod, selected: bool },
    /// One choice of scroll method.
    ScrollMethodRadio { label: Label, scroll_method: ScrollMethod, selected: bool },
    /// A gesture and the action it performs.
    Gesture { gesture: Label, action: Label },
}

/// Whether the acceleration switch is on: adaptive acceleration, which is
/// also what an unset acceleration means.
pub open spec fn adaptive_acceleration(c: TouchpadConfig) -> bool {
    match c.acceleration {
        None => true,
        Some(a) => a.profile == Some(AccelProfile::Adaptive),
    }
}

/// Whether tap to click is on; unset means off.
pub open spec fn tap_to_click_on(c: TouchpadConfig) -> bool {
    match c.tap_config {
        None => false,
        Some(t) => t.enabled,
    }
}

/// The scroll method that is set, if any.
pub open spec fn scroll_method_of(c: TouchpadConfig) -> Option<ScrollMethod> {
    match c.scroll_config {
        None => None,
        Some(s) => s.method,
    }
}

/// Whether natural scrolling is on; unset means off.
pub open spec fn natural_scroll_on(c: TouchpadConfig) -> bool {
    match c.scroll_config {
        None => false,
        Some(s) => s.natural_scroll == Some(true),
    }
}

/// The controls of the touchpad section.
pub open spec fn touchpad_items_of(c: TouchpadConfig) -> Seq<Item> {
    seq![
        Item::PrimaryButton { label: Label::PrimaryButton },
        Item::PointerSpeed { label: Label::TouchpadSpeed },
        Item::Toggler {
            label: Label::TouchpadAcceleration,
            description: Some(Label::AccelerationDesc),
            on: adaptive_acceleration(c),
            control: Toggle::Acceleration,
        },
        Item::Toggler {
            label: Label::DisableWhileTyping,
            description: None,
            on: c.disable_while_typing == Some(true),
            control: Toggle::DisableWhileTyping,
        },
    ]
}

/// The controls of the click behavior section.
pub open spec fn click_behavior_items_of(c: TouchpadConfig) -> Seq<Item> {
    seq![
        Item::ClickMethodRadio {
            label: Label::ClickBehaviorClickFinger,
            click_method: ClickMethod::Clickfinger,
            selected: c.click_method == Some(ClickMethod::Clickfinger),
        },
        Item::ClickMethodRadio {
            label: Label::ClickBehaviorButtonAreas,
            click_method: ClickMethod::ButtonAreas,
            selected: c.click_method == Some(ClickMethod::ButtonAreas),
        },
        Item::Toggler {
            label: Label::TapToClick,
            description: None,
            on: tap_to_click_on(c),
            control: Toggle::TapToClick,
        },
    ]
}

/// The controls of the scrolling section.
pub open spec fn scrolling_items_of(c: TouchpadConfig) -> Seq<Item> {
    seq![
        Item::ScrollMethodRadio {
            label: Label::ScrollingTwoFinger,
            scroll_method: ScrollMethod::TwoFinger,
            selected: scroll_method_of(c) == Some(ScrollMethod::TwoFinger),
        },
        Item::ScrollMethodRadio {
            label: Label::ScrollingEdge,
            scroll_method: ScrollMethod::Edge,
            selected: scroll_method_of(c) == Some(ScrollMethod::Edge),
        },
        Item::ScrollSpeed { label: Label::ScrollingSpeed },
        Item::Toggler {
            label: Label::ScrollingNatural,
            description: Some(Label::ScrollingNaturalDesc),
            on: natural_scroll_on(c),
            control: Toggle::NaturalScroll,
        },
    ]
}

/// The rows of the gestures section.
pub open spec fn gesture_items_of() -> Seq<Item> {
    seq![
        Item::Gesture { gesture: Label::SwipingFourFingerUp, action: Label::SwitchToPrevWorkspace },
        Item::Gesture { gesture: Label::SwipingFourFingerDown, action: Label::SwitchToNextWorkspace },
    ]
}

/// The controls of a section for a configuration.
pub open spec fn items_of(kind: SectionKind, c: TouchpadConfig) -> Seq<Item> {
    match kind {
        SectionKind::Touchpad => touchpad_items_of(c),
        SectionKind::ClickBehavior => click_behavior_items_of(c),
        SectionKind::Scrolling => scrolling_items_of(c),
        SectionKind::Gestures => gesture_items_of(),
    }
}

/// The strings that the scrolling section is found by.
pub open spec fn scrolling_descriptions() -> Seq<Label> {
    seq![
        Label::ScrollingTwoFinger,
        Label::ScrollingEdge,
        Label::ScrollingSpeed,
        Label::ScrollingNatural,
        Label::ScrollingNaturalDesc,
    ]
}

/// The strings that the touchpad section is found by.
pub open spec fn touchpad_descriptions() -> Seq<Label> {
    seq![
        Label::PrimaryButton,
        Label::TouchpadSpeed,
        Label::TouchpadAcceleration,
        Label::AccelerationDesc,
        Label::DisableWhileTyping,
    ]
}

/// The strings that the click behavior section is found by.
pub open spec fn click_behavior_descriptions() -> Seq<Label> {
    seq![
        Label::ClickBehaviorClickFinger,
        Label::ClickBehaviorButtonAreas,
        Label::TapToClick,
        Label::TapToClickDesc,
    ]
}

/// The strings that the gestures section is found by.
pub open spec fn gesture_descriptions() -> Seq<Label> {
    seq![
        Label::SwipingFourFingerDown,
        Label::SwipingFourFingerLeft,
        Label::SwipingFourFingerRight,
        Label::SwipingFourFingerUp,
        Label::SwipingThreeFingerAny,
    ]
}

/// The title of a section; the touchpad section has none.
pub open spec fn title_of(kind: SectionKind) -> Option<Label> {
    match kind {
        SectionKind::Touchpad => None,
        SectionKind::ClickBehavior => Some(Label::ClickBehavior),
        SectionKind::Scrolling => Some(Label::Scrolling),
        SectionKind::Gestures => Some(Label::Gestures),
    }
}

/// The strings that a section is found by.
pub open spec fn descriptions_of(kind: SectionKind) -> Seq<Label> {
    match kind {
        SectionKind::Touchpad => touchpad_descriptions(),
        SectionKind::ClickBehavior => click_behavior_descriptions(),
        SectionKind::Scrolling => scrolling_descriptions(),
        SectionKind::Gestures => gesture_descriptions(),
    }
}

/// Whether `s` is the page's section of the given kind.
pub open spec fn is_section(s: Section, kind: SectionKind) -> bool {
    &&& s.kind == kind
    &&& s.title == title_of(kind)
    &&& s.descriptions@ == descriptions_of(kind)
}

/// The scrolling section: scroll method, scroll speed and natural scrolling.
pub fn scrolling() -> (r: Section)
    ensures
        r.title == Some(Label::Scrolling),
        r.descriptions@ == scrolling_descriptions(),
        r.kind == SectionKind::Scrolling,
{
    let mut descriptions: Vec<Label> = Vec::new();
    descriptions.push(Label::ScrollingTwoFinger);
    descriptions.push(Label::ScrollingEdge);
    descriptions.push(Label::ScrollingSpeed);
    descriptions.push(Label::ScrollingNatural);
    descriptions.push(Label::ScrollingNaturalDesc);
    assert(descriptions@ =~= scrolling_descriptions());
    Section { title: Some(Label::Scrolling), descriptions, kind: SectionKind::Scrolling }
}

/// The touchpad section: primary button, pointer speed, acceleration and
/// disabling the pad while typing. It has no title of its own.
pub fn touchpad() -> (r: Section)
    ensures
        r.title == None::<Label>,
        r.descriptions@ == touchpad_descriptions(),
        r.kind == SectionKind::Touchpad,
{
    let mut descriptions: Vec<Label> = Vec::new();
    descriptions.push(Label::PrimaryButton);
    descriptions.push(Label::TouchpadSpeed);
    descriptions.push(Label::TouchpadAcceleration);
    descriptions.push(Label::AccelerationDesc);
    descriptions.push(Label::DisableWhileTyping);
    assert(descriptions@ =~= touchpad_descriptions());
    Section { title: None, descriptions, kind: SectionKind::Touchpad }
}

/// The click behavior section: click method and tap to click.
pub fn click_behavior() -> (r: Section)
    ensures
        r.title == Some(Label::ClickBehavior),
        r.descriptions@ == click_behavior_descriptions(),
        r.kind == SectionKind::ClickBehavior,
{
    let mut descriptions: Vec<Label> = Vec::new();
    descriptions.push(Label::ClickBehaviorClickFinger);
    descriptions.push(Label::ClickBehaviorButtonAreas);
    descriptions.push(Label::TapToClick);
    descriptions.push(Label::TapToClickDesc);
    assert(descriptions@ =~= click_behavior_descriptions());
    Section { title: Some(Label::ClickBehavior), descriptions, kind: SectionKind::ClickBehavior }
}

/// The gestures section: what swiping with several fingers does.
pub fn swiping() -> (r: Section)
    ensures
        r.title == Some(Label::Gestures),
        r.descriptions@ == gesture_descriptions(),
        r.kind == SectionKind::Gestures,
{
    let mut descriptions: Vec<Label> = Vec::new();
    descriptions.push(Label::SwipingFourFingerDown);
    descriptions.push(Label::SwipingFourFingerLeft);
    descriptions.push(Label::SwipingFourFingerRight);
    descriptions.push(Label::SwipingFourFingerUp);
    descriptions.push(Label::SwipingThreeFingerAny);
    assert(descriptions@ =~= gesture_descriptions());
    Section { title: Some(Label::Gestures), descriptions, kind: SectionKind::Gestures }
}

/// The scroll method that is set, if any.
pub fn scroll_method(c: &TouchpadConfig) -> (r: Option<ScrollMethod>)
    ensures
        r == scroll_method_of(*c),
{
    match c.scroll_config {
        None => None,
        Some(s) => s.method,
    }
}

/// Whether a method radio button is selected: it is when the set value is
/// the button's value.
fn is_scroll_method(set: Option<ScrollMethod>, value: ScrollMethod) -> (r: bool)
    ensures
        r == (set == Some(value)),
{
    match set {
        Some(m) => m == value,
        None => false,
    }
}

fn is_click_method(set: Option<ClickMethod>, value: ClickMethod) -> (r: bool)
    ensures
        r == (set == Some(value)),
{
    match set {
        Some(m) => m == value,
        None => false,
    }
}

/// The controls of the scrolling section for a configuration.
pub fn scrolling_items(c: &TouchpadConfig) -> (r: Vec<Item>)
    ensures
        r@ == scrolling_items_of(*c),
{
    let method = scroll_method(c);
    let natural = match c.scroll_config {
        None => false,
        Some(s) => match s.natural_scroll {
            Some(n) => n,
            None => false,
        },
    };
    let mut r: Vec<Item> = Vec::new();
    r.push(
        Item::ScrollMethodRadio {
            label: Label::ScrollingTwoFinger,
            scroll_method: ScrollMethod::TwoFinger,
            selected: is_scroll_method(method, ScrollMethod::TwoFinger),
        },
    );
    r.push(
        Item::ScrollMethodRadio {
            label: Label::ScrollingEdge,
            scroll_method: ScrollMethod::Edge,
            selected: is_scroll_method(method, ScrollMethod::Edge),
        },
    );
    r.push(Item::ScrollSpeed { label: Label::ScrollingSpeed });
    r.push(
        Item::Toggler {
            label: Label::ScrollingNatural,
            description: Some(Label::ScrollingNaturalDesc),
            on: natural,
            control: Toggle::NaturalScroll,
        },
    );
    assert(r@ =~= scrolling_items_of(*c));
    r
}

/// The controls of the touchpad section for a configuration.
pub fn touchpad_items(c: &TouchpadConfig) -> (r: Vec<Item>)
    ensures
        r@ == touchpad_items_of(*c),
{
    let adaptive = match c.acceleration {
        None => true,
        Some(a) => match a.profile {
            Some(AccelProfile::Adaptive) => true,
            _ => false,
        },
    };
    let disable_while_typing = match c.disable_while_typing {
        Some(d) => d,
        None => false,
    };
    let mut r: Vec<Item> = Vec::new();
    r.push(Item::PrimaryButton { label: Label::PrimaryButton });
    r.push(Item::PointerSpeed { label: Label::TouchpadSpeed });
    r.push(
        Item::Toggler {
            label: Label::TouchpadAcceleration,
            description: Some(Label::AccelerationDesc),
            on: adaptive,
            control: Toggle::Acceleration,
        },
    );
    r.push(
        Item::Toggler {
            label: Label::DisableWhileTyping,
            description: None,
            on: disable_while_typing,
            control: Toggle::DisableWhileTyping,
        },
    );
    assert(r@ =~= touchpad_items_of(*c));
    r
}

/// The controls of the click behavior section for a configuration.
pub fn click_behavior_items(c: &TouchpadConfig) -> (r: Vec<Item>)
    ensures
        r@ == click_behavior_items_of(*c),
{
    let tap = match c.tap_config {
        None => false,
        Some(t) => t.enabled,
    };
    let mut r: Vec<Item> = Vec::new();
    r.push(
        Item::ClickMethodRadio {
            label: Label::ClickBehaviorClickFinger,
            click_method: ClickMethod::Clickfinger,
            selected: is_click_method(c.click_method, ClickMethod::Clickfinger),
        },
    );
    r.push(
        Item::ClickMethodRadio {
            label: Label::ClickBehaviorButtonAreas,
            click_method: ClickMethod::ButtonAreas,
            selected: is_click_method(c.click_method, ClickMethod::ButtonAreas),
        },
    );
    r.push(
        Item::Toggler {
            label: Label::TapToClick,
            description: None,
            on: tap,
            control: Toggle::TapToClick,
        },
    );
    assert(r@ =~= click_behavior_items_of(*c));
    r
}

/// The rows of the gestures section.
pub fn gesture_items() -> (r: Vec<Item>)
    ensures
        r@ == gesture_items_of(),
{
    let mut r: Vec<Item> = Vec::new();
    r.push(Item::Gesture { gesture: Label::SwipingFourFingerUp, action: Label::SwitchToPrevWorkspace });
    r.push(Item::Gesture { gesture: Label::SwipingFourFingerDown, action: Label::SwitchToNextWorkspace });
    assert(r@ =~= gesture_items_of());
    r
}

impl Section {
    /// The controls that this section shows for a configuration.
    pub fn items(&self, c: &TouchpadConfig) -> (r: Vec<Item>)
        ensures
            r@ == items_of(self.kind, *c),
    {
        match self.kind {
            SectionKind::Touchpad => touchpad_items(c),
            SectionKind::ClickBehavior => click_behavior_items(c),
            SectionKind::Scrolling => scrolling_items(c),
            SectionKind::Gestures => gesture_items(),
        }
    }
}

/// What switching a toggle to `enabled` asks for.
pub open spec fn toggle_message_of(t: Toggle, enabled: bool) -> Message {
    match t {
        Toggle::Acceleration => Message::SetAcceleration(enabled, true),
        Toggle::DisableWhileTyping => Message::DisableWhileTyping(enabled, true),
        Toggle::TapToClick => Message::TapToClick(enabled),
        Toggle::NaturalScroll => Message::SetNaturalScroll(enabled, true),
    }
}

impl Toggle {
    /// The message sent when this toggle is switched to `enabled`.
    pub fn message(self, enabled: bool) -> (r: Message)
        ensures
            r == toggle_message_of(self, enabled),
    {
        match self {
            Toggle::Acceleration => Message::SetAcceleration(enabled, true),
            Toggle::DisableWhileTyping => Message::DisableWhileTyping(enabled, true),
            Toggle::TapToClick => Message::TapToClick(enabled),
            Toggle::NaturalScroll => Message::SetNaturalScroll(enabled, true),
        }
    }
}

/// The message sent when a primary button is chosen in the primary button
/// control.
pub fn primary_button_message(b: PrimaryButton) -> (r: Message)
    ensures
        r == Message::PrimaryButtonSelected(b, true),
{
    Message::PrimaryButtonSelected(b, true)
}

/// The message sent when a click method radio button is chosen.
pub fn click_method_message(m: ClickMethod) -> (r: Message)
    ensures
        r == Message::SetSecondaryClickBehavior(Some(m), true),
{
    Message::SetSecondaryClickBehavior(Some(m), true)
}

/// The message sent when a scroll method radio button is chosen.
pub fn scroll_method_message(m: ScrollMethod) -> (r: Message)
    ensures
        r == Message::SetScrollMethod(Some(m), true),
{
    Message::SetScrollMethod(Some(m), true)
}

} // verus!
