//! Icon rendering data: symbolic icon identifiers and their style, size
//! and animation configuration, each mapped to the CSS classes the icon
//! font expects.

use vstd::prelude::*;
use vstd::string::*;

verus! {

/// The icons the site uses.
#[derive(Structural, PartialEq, Eq, Clone, Copy, Debug)]
pub enum FontawesomeIcon {
    Rust,
    GitHub,
    Camera,
    ShareNodes,
    Sun,
    Moon,
    House,
    Code,
    Envelope,
    ChevronDown,
    ChevronUp,
    ChevronLeft,
    ChevronRight,
}

/// The CSS class of an icon.
pub open spec fn spec_icon_class(i: FontawesomeIcon) -> Seq<char> {
    match i {
        FontawesomeIcon::Rust => "fa-brands fa-rust"@,
        FontawesomeIcon::GitHub => "fa-brands fa-github"@,
        FontawesomeIcon::Camera => "fa-camera"@,
        FontawesomeIcon::ShareNodes => "fa-share-nodes"@,
        FontawesomeIcon::Sun => "fa-sun"@,
        FontawesomeIcon::Moon => "fa-moon"@,
        FontawesomeIcon::House => "fa-house"@,
        FontawesomeIcon::Code => "fa-code"@,
        FontawesomeIcon::Envelope => "fa-envelope"@,
        FontawesomeIcon::ChevronDown => "fa-chevron-down"@,
        FontawesomeIcon::ChevronUp => "fa-chevron-up"@,
        FontawesomeIcon::ChevronLeft => "fa-chevron-left"@,
        FontawesomeIcon::ChevronRight => "fa-chevron-right"@,
    }
}

impl FontawesomeIcon {
    /// The CSS class that selects this icon.
    pub fn class(&self) -> (r: &'static str)
        ensures
            r@ == spec_icon_class(*self),
    {
        match self {
            FontawesomeIcon::Rust => "fa-brands fa-rust",
            FontawesomeIcon::GitHub => "fa-brands fa-github",
            FontawesomeIcon::Camera => "fa-camera",
            FontawesomeIcon::ShareNodes => "fa-share-nodes",
            FontawesomeIcon::Sun => "fa-sun",
            FontawesomeIcon::Moon => "fa-moon",
            FontawesomeIcon::House => "fa-house",
            FontawesomeIcon::Code => "fa-code",
            FontawesomeIcon::Envelope => "fa-envelope",
            FontawesomeIcon::ChevronDown => "fa-chevron-down",
            FontawesomeIcon::ChevronUp => "fa-chevron-up",
            FontawesomeIcon::ChevronLeft => "fa-chevron-left",
            FontawesomeIcon::ChevronRight => "fa-chevron-right",
        }
    }
}

/// Icon font style variants.
#[derive(Structural, PartialEq, Eq, Clone, Copy, Debug)]
pub enum FontawesomeStyle {
    Solid,
    Light,
    DuoTone,
    Thin,
    Sharp,
}

/// The CSS class of a style.
pub open spec fn spec_style_class(s: FontawesomeStyle) -> Seq<char> {
    match s {
        FontawesomeStyle::Solid => "fa-solid"@,
        FontawesomeStyle::Light => "fa-light"@,
        FontawesomeStyle::DuoTone => "fa-duotone"@,
        FontawesomeStyle::Thin => "fa-thin"@,
        FontawesomeStyle::Sharp => "fa-sharp"@,
    }
}

impl FontawesomeStyle {
    /// The CSS class that selects this style.
    pub fn class(&self) -> (r: &'static str)
        ensures
            r@ == spec_style_class(*self),
    {
        match self {
            FontawesomeStyle::Solid => "fa-solid",
            FontawesomeStyle::Light => "fa-light",
            FontawesomeStyle::DuoTone => "fa-duotone",
            FontawesomeStyle::Thin => "fa-thin",
            FontawesomeStyle::Sharp => "fa-sharp",
        }
    }
}

impl Default for FontawesomeStyle {
    /// The default icon style.
    fn default() -> (r: Self)
        ensures
            r == FontawesomeStyle::Solid,
    {
        FontawesomeStyle::Solid
    }
}

/// Icon size variants.
#[derive(Structural, PartialEq, Eq, Clone, Copy, Debug)]
pub enum FontawesomeSize {
    XXS,
    XS,
    S,
    Regular,
    L,
    XL,
    XXL,
}

/// The CSS class of a size; the regular size needs none.
pub open spec fn spec_size_class(s: FontawesomeSize) -> Seq<char> {
    match s {
        FontawesomeSize::XXS => "fa-2xs"@,
        FontawesomeSize::XS => "fa-xs"@,
        FontawesomeSize::S => "fa-sm"@,
        FontawesomeSize::Regular => ""@,
        FontawesomeSize::L => "fa-lg"@,
        FontawesomeSize::XL => "fa-xl"@,
        FontawesomeSize::XXL => "fa-2xl"@,
    }
}

impl FontawesomeSize {
    /// The CSS class that selects this size.
    pub fn class(&self) -> (r: &'static str)
        ensures
            r@ == spec_size_class(*self),
    {
        match self {
            FontawesomeSize::XXS => "fa-2xs",
            FontawesomeSize::XS => "fa-xs",
            FontawesomeSize::S => "fa-sm",
            FontawesomeSize::Regular => "",
            FontawesomeSize::L => "fa-lg",
            FontawesomeSize::XL => "fa-xl",
            FontawesomeSize::XXL => "fa-2xl",
        }
    }
}

impl Default for FontawesomeSize {
    /// The default icon size.
    fn default() -> (r: Self)
        ensures
            r == FontawesomeSize::Regular,
    {
        FontawesomeSize::Regular
    }
}

/// Spin animation flavours.
#[derive(Structural, PartialEq, Eq, Clone, Copy, Debug)]
pub enum FontawesomeSpinType {
    Regular,
    Pulse,
}

/// Spin direction.
#[derive(Structural, PartialEq, Eq, Clone, Copy, Debug)]
pub enum FontawesomeSpinDirection {
    Clockwise,
    CounterClockwise,
}

/// The kind of icon animation. The numeric tuning of each animation
/// (scales, opacities, angles) only feeds inline style strings and is
/// kept by the rendering host; the CSS class depends on the kind alone.
#[derive(Structural, PartialEq, Eq, Clone, Copy, Debug)]
pub enum FontawesomeAnimationType {
    Beat,
    Fade,
    BeatFade,
    Bounce,
    Flip,
    Shake,
    Spin { spin_type: FontawesomeSpinType, direction: FontawesomeSpinDirection },
}

/// The CSS class of an animation kind.
pub open spec fn spec_animation_class(a: FontawesomeAnimationType) -> Seq<char> {
    match a {
        FontawesomeAnimationType::Beat => "fa-beat"@,
        FontawesomeAnimationType::Fade => "fa-fade"@,
        FontawesomeAnimationType::BeatFade => "fa-beat-fade"@,
        FontawesomeAnimationType::Bounce => "fa-bounce"@,
        FontawesomeAnimationType::Flip => "fa-flip"@,
        FontawesomeAnimationType::Shake => "fa-shake"@,
        FontawesomeAnimationType::Spin { spin_type, direction } => match direction {
            FontawesomeSpinDirection::Clockwise => match spin_type {
                FontawesomeSpinType::Regular => "fa-spin"@,
                FontawesomeSpinType::Pulse => "fa-spin-pulse"@,
            },
            FontawesomeSpinDirection::CounterClockwise => match spin_type {
                FontawesomeSpinType::Regular => "fa-spin fa-spin-reverse"@,
                FontawesomeSpinType::Pulse => "fa-spin-pulse fa-spin-reverse"@,
            },
        },
    }
}

impl FontawesomeAnimationType {
    /// The CSS class that selects this animation.
    pub fn class(&self) -> (r: &'static str)
        ensures
            r@ == spec_animation_class(*self),
    {
        match self {
            FontawesomeAnimationType::Beat => "fa-beat",
            FontawesomeAnimationType::Fade => "fa-fade",
            FontawesomeAnimationType::BeatFade => "fa-beat-fade",
            FontawesomeAnimationType::Bounce => "fa-bounce",
            FontawesomeAnimationType::Flip => "fa-flip",
            FontawesomeAnimationType::Shake => "fa-shake",
            FontawesomeAnimationType::Spin { spin_type, direction } => match direction {
                FontawesomeSpinDirection::Clockwise => match spin_type {
                    FontawesomeSpinType::Regular => "fa-spin",
                    FontawesomeSpinType::Pulse => "fa-spin-pulse",
                },
                FontawesomeSpinDirection::CounterClockwise => match spin_type {
                    FontawesomeSpinType::Regular => "fa-spin fa-spin-reverse",
                    FontawesomeSpinType::Pulse => "fa-spin-pulse fa-spin-reverse",
                },
            },
        }
    }
}

/// CSS animation-direction values.
#[derive(Structural, PartialEq, Eq, Clone, Copy, Debug)]
pub enum AnimationDirection {
    Normal,
    Reverse,
    Alternate,
    AlternateReverse,
}

/// The CSS name of an animation direction.
pub open spec fn spec_direction_css(d: AnimationDirection) -> Seq<char> {
    match d {
        AnimationDirection::Normal => "normal"@,
        AnimationDirection::Reverse => "reverse"@,
        AnimationDirection::Alternate => "alternate"@,
        AnimationDirection::AlternateReverse => "alternate-reverse"@,
    }
}

impl AnimationDirection {
    /// The CSS value naming this direction.
    pub fn css_value(&self) -> (r: &'static str)
        ensures
            r@ == spec_direction_css(*self),
    {
        match self {
            AnimationDirection::Normal => "normal",
            AnimationDirection::Reverse => "reverse",
            AnimationDirection::Alternate => "alternate",
            AnimationDirection::AlternateReverse => "alternate-reverse",
        }
    }
}

impl Default for AnimationDirection {
    /// The default animation direction.
    fn default() -> (r: Self)
        ensures
            r == AnimationDirection::Normal,
    {
        AnimationDirection::Normal
    }
}

/// CSS step positions for stepped animation timing.
#[derive(Structural, PartialEq, Eq, Clone, Copy, Debug)]
pub enum AnimationStepType {
    JumpStart,
    JumpEnd,
    JumpNone,
    JumpBoth,
    Start,
    End,
}

/// The CSS name of a step position.
pub open spec fn spec_step_css(s: AnimationStepType) -> Seq<char> {
    match s {
        AnimationStepType::JumpStart => "jump-start"@,
        AnimationStepType::JumpEnd => "jump-end"@,
        AnimationStepType::JumpNone => "jump-none"@,
        AnimationStepType::JumpBoth => "jump-both"@,
        AnimationStepType::Start => "start"@,
        AnimationStepType::End => "end"@,
    }
}

impl AnimationStepType {
    /// The CSS value naming this step position.
    pub fn css_value(&self) -> (r: &'static str)
        ensures
            r@ == spec_step_css(*self),
    {
        match self {
            AnimationStepType::JumpStart => "jump-start",
            AnimationStepType::JumpEnd => "jump-end",
            AnimationStepType::JumpNone => "jump-none",
            AnimationStepType::JumpBoth => "jump-both",
            AnimationStepType::Start => "start",
            AnimationStepType::End => "end",
        }
    }
}

/// The full class attribute of a rendered icon: icon, style and size
/// classes and the animation class, space-separated in that order.
pub open spec fn spec_fa_classes(
    icon: FontawesomeIcon,
    style: FontawesomeStyle,
    size: FontawesomeSize,
    animation: Option<FontawesomeAnimationType>,
) -> Seq<char> {
    spec_icon_class(icon) + " "@ + spec_style_class(style) + " "@ + spec_size_class(size) + " "@
        + match animation {
        Option::None => ""@,
        Option::Some(a) => spec_animation_class(a),
    }
}

/// Composes the class attribute of a rendered icon.
pub fn fa_classes(
    icon: &FontawesomeIcon,
    style: &FontawesomeStyle,
    size: &FontawesomeSize,
    animation: &Option<FontawesomeAnimationType>,
) -> (r: String)
    ensures
        r@ == spec_fa_classes(*icon, *style, *size, *animation),
{
    let mut s = String::from_str(icon.class());
    s.append(" ");
    s.append(style.class());
    s.append(" ");
    s.append(size.class());
    s.append(" ");
    match animation {
        Option::None => (),
        Option::Some(a) => s.append(a.class()),
    }
    proof {
        reveal_strlit("");
        assert(s@ =~= spec_fa_classes(*icon, *style, *size, *animation));
    }
    s
}

} // verus!
