use vstd::prelude::*;

verus! {

/// How pointer motion is accelerated.
#[derive(Clone, Copy, Debug, PartialEq, Eq, Structural)]
pub enum AccelProfile {
    Flat,
    Adaptive,
}

/// How secondary and middle clicks are produced.
#[derive(Clone, Copy, Debug, PartialEq, Eq, Structural)]
pub enum ClickMethod {
    /// By the areas of the pad that are pressed.
    ButtonAreas,
    /// By the number of fingers on the pad.
    Clickfinger,
}

/// How scroll events are produced.
#[derive(Clone, Copy, Debug, PartialEq, Eq, Structural)]
pub enum ScrollMethod {
    NoScroll,
    TwoFinger,
    Edge,
    OnButtonDown,
}

/// Which physical button of the pad acts as the primary one.
#[derive(Clone, Copy, Debug, PartialEq, Eq, Structural)]
pub enum PrimaryButton {
    Left,
    Right,
}

/// Acceleration settings. The pointer speed, a real number, is kept
/// beside this model by the caller.
#[derive(Clone, Copy, Debug, PartialEq, Eq, Structural)]
pub struct AccelConfig {
    pub profile: Option<AccelProfile>,
}

/// Tap settings.
#[derive(Clone, Copy, Debug, PartialEq, Eq, Structural)]
pub struct TapConfig {
    pub enabled: bool,
}

/// Scroll settings. The scroll factor, a real number, is kept beside this
/// model by the caller.
#[derive(Clone, Copy, Debug, PartialEq, Eq, Structural)]
pub struct ScrollConfig {
    pub method: Option<ScrollMethod>,
    pub natural_scroll: Option<bool>,
}

/// The stored touchpad configuration, as far as the page reads it. A field
/// that is `None` has not been set and takes the device's default.
#[derive(Clone, Copy, Debug, PartialEq, Eq, Structural)]
pub struct TouchpadConfig {
    pub acceleration: Option<AccelConfig>,
    pub disable_while_typing: Option<bool>,
    pub click_method: Option<ClickMethod>,
    pub tap_config: Option<TapConfig>,
    pub scroll_config: Option<ScrollConfig>,
}

} // verus!
