use vstd::prelude::*;

verus! {

/// A localized string shown on the page, named by what it labels.
#[derive(Clone, Copy, Debug, PartialEq, Eq, Structural)]
pub enum Label {
    Touchpad,
    TouchpadDesc,
    PrimaryButton,
    TouchpadSpeed,
    TouchpadAcceleration,
    AccelerationDesc,
    DisableWhileTyping,
    ClickBehavior,
    ClickBehaviorClickFinger,
    ClickBehaviorButtonAreas,
    TapToClick,
    TapToClickDesc,
    Scrolling,
    ScrollingTwoFinger,
    ScrollingEdge,
    ScrollingSpeed,
    ScrollingNatural,
    ScrollingNaturalDesc,
    Gestures,
    SwipingFourFingerDown,
    SwipingFourFingerLeft,
    SwipingFourFingerRight,
    SwipingFourFingerUp,
    SwipingThreeFingerAny,
    SwitchToPrevWorkspace,
    SwitchToNextWorkspace,
}

} // verus!
