use portfolio::actionbar::{header_style, ActionbarOption, ActionbarState};
use portfolio::fa_icon::{
    fa_classes, AnimationDirection, AnimationStepType, FontawesomeAnimationType, FontawesomeIcon,
    FontawesomeSize, FontawesomeSpinDirection, FontawesomeSpinType, FontawesomeStyle,
};
use portfolio::tag::{tag_class, TagColor};
use portfolio::text::{str_eq, str_starts_with};

#[test]
fn icon_classes() {
    assert_eq!(FontawesomeIcon::Rust.class(), "fa-brands fa-rust");
    assert_eq!(FontawesomeIcon::GitHub.class(), "fa-brands fa-github");
    assert_eq!(FontawesomeIcon::Camera.class(), "fa-camera");
    assert_eq!(FontawesomeIcon::Sun.class(), "fa-sun");
    assert_eq!(FontawesomeIcon::Moon.class(), "fa-moon");
    assert_eq!(FontawesomeIcon::ChevronLeft.class(), "fa-chevron-left");
    assert_eq!(FontawesomeIcon::ChevronRight.class(), "fa-chevron-right");
}

#[test]
fn style_and_size_classes() {
    assert_eq!(FontawesomeStyle::Solid.class(), "fa-solid");
    assert_eq!(FontawesomeStyle::DuoTone.class(), "fa-duotone");
    assert_eq!(FontawesomeSize::XXS.class(), "fa-2xs");
    assert_eq!(FontawesomeSize::Regular.class(), "");
    assert_eq!(FontawesomeSize::XXL.class(), "fa-2xl");
    assert_eq!(FontawesomeStyle::default(), FontawesomeStyle::Solid);
    assert_eq!(FontawesomeSize::default(), FontawesomeSize::Regular);
}

#[test]
fn animation_classes() {
    assert_eq!(FontawesomeAnimationType::Beat.class(), "fa-beat");
    assert_eq!(FontawesomeAnimationType::Shake.class(), "fa-shake");
    let spin = FontawesomeAnimationType::Spin {
        spin_type: FontawesomeSpinType::Regular,
        direction: FontawesomeSpinDirection::Clockwise,
    };
    assert_eq!(spin.class(), "fa-spin");
    let reverse_pulse = FontawesomeAnimationType::Spin {
        spin_type: FontawesomeSpinType::Pulse,
        direction: FontawesomeSpinDirection::CounterClockwise,
    };
    assert_eq!(reverse_pulse.class(), "fa-spin-pulse fa-spin-reverse");
}

#[test]
fn animation_css_values() {
    assert_eq!(AnimationDirection::Normal.css_value(), "normal");
    assert_eq!(AnimationDirection::AlternateReverse.css_value(), "alternate-reverse");
    assert_eq!(AnimationDirection::default(), AnimationDirection::Normal);
    assert_eq!(AnimationStepType::JumpStart.css_value(), "jump-start");
    assert_eq!(AnimationStepType::End.css_value(), "end");
}

#[test]
fn composed_icon_class_attribute() {
    let s = fa_classes(
        &FontawesomeIcon::Sun,
        &FontawesomeStyle::Solid,
        &FontawesomeSize::XL,
        &Some(FontawesomeAnimationType::Beat),
    );
    assert_eq!(s, "fa-sun fa-solid fa-xl fa-beat");
    // Without an animation the last slot stays empty, and the regular
    // size contributes an empty class, as the host's joining did.
    let s = fa_classes(
        &FontawesomeIcon::Moon,
        &FontawesomeStyle::Solid,
        &FontawesomeSize::Regular,
        &None,
    );
    assert_eq!(s, "fa-moon fa-solid  ");
}

#[test]
fn tag_color_classes() {
    assert_eq!(TagColor::Blue.as_class(), "blue");
    assert_eq!(TagColor::Red.as_class(), "red");
    assert_eq!(TagColor::Orange.as_class(), "orange");
    assert_eq!(TagColor::Green.as_class(), "green");
    assert_eq!(TagColor::default(), TagColor::Blue);
    assert_eq!(tag_class(&TagColor::Green), "tag green");
}

#[test]
fn option_class_variants() {
    let both = ActionbarOption::new("Home", FontawesomeIcon::House, true);
    assert_eq!(both.css_class(), "current");
    let unselected = ActionbarOption::new("Home", FontawesomeIcon::House, false);
    assert_eq!(unselected.css_class(), "");
    let icon_only = ActionbarOption::new_opt(None, Some(FontawesomeIcon::Sun), true, false, false);
    assert_eq!(icon_only.css_class(), "small");
    let selected_icon_only =
        ActionbarOption::new_opt(None, Some(FontawesomeIcon::Sun), true, true, false);
    assert_eq!(selected_icon_only.css_class(), "current small");
}

#[test]
fn option_builders_fill_fields() {
    let o = ActionbarOption::new("Gallery", FontawesomeIcon::Camera, true);
    assert_eq!(o.name.as_deref(), Some("Gallery"));
    assert_eq!(o.icon, Some(FontawesomeIcon::Camera));
    assert!(!o.center_content);
    assert!(o.selected);
    assert!(o.fill);
    let o = ActionbarOption::new_opt(None, None, true, false, false);
    assert_eq!(o.name, None);
    assert_eq!(o.icon, None);
    assert!(o.center_content);
    assert!(!o.selected);
    assert!(!o.fill);
}

#[test]
fn expanded_state_toggles_and_collapses_on_activation() {
    let mut s = ActionbarState::new();
    assert!(!s.expanded);
    s.toggle_expanded();
    assert!(s.expanded);
    assert_eq!(s.chevron(), FontawesomeIcon::ChevronUp);
    assert_eq!(s.menu_class(), "open");
    s.activate_option();
    assert!(!s.expanded);
    assert_eq!(s.chevron(), FontawesomeIcon::ChevronDown);
    assert_eq!(s.menu_class(), "");
    // Activating while already collapsed keeps it collapsed.
    s.activate_option();
    assert!(!s.expanded);
}

#[test]
fn header_style_spacing() {
    assert_eq!(header_style(true), "gap: 5px;");
    assert_eq!(header_style(false), "");
}

#[test]
fn string_helpers() {
    assert!(str_eq("abc", "abc"));
    assert!(!str_eq("abc", "abd"));
    assert!(!str_eq("abc", "ab"));
    assert!(str_eq("", ""));
    assert!(str_starts_with("abcdef", "abc"));
    assert!(str_starts_with("abc", ""));
    assert!(!str_starts_with("ab", "abc"));
    assert!(!str_starts_with("abc", "abd"));
}
