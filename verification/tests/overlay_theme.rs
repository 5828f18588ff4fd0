use portfolio::overlay::{overlay_class, Overlay, OverlayMessage};
use portfolio::theme::{ThemeCtx, ThemeMsg, ThemeState};

#[test]
fn fresh_overlay_closes_on_backdrop_click() {
    let mut o = Overlay::create();
    assert!(o.update(OverlayMessage::ClickRoot));
}

#[test]
fn content_click_never_closes() {
    let mut o = Overlay::create();
    assert!(!o.update(OverlayMessage::ClickContent));
    // Also from a state that already saw a content click.
    assert!(!o.update(OverlayMessage::ClickContent));
}

#[test]
fn bubbled_click_is_suppressed_exactly_once() {
    let mut o = Overlay::create();
    // A click on the content: the content handler fires, then the
    // backdrop handler sees the bubbled event.
    assert!(!o.update(OverlayMessage::ClickContent));
    assert!(!o.update(OverlayMessage::ClickRoot));
    // The mark was reset: a direct backdrop click now closes.
    assert!(o.update(OverlayMessage::ClickRoot));
}

#[test]
fn overlay_class_variants() {
    assert_eq!(overlay_class(false, true), "overlay shade");
    assert_eq!(overlay_class(false, false), "overlay shade hidden");
    assert_eq!(overlay_class(true, true), "overlay");
    assert_eq!(overlay_class(true, false), "overlay hidden");
}

#[test]
fn toggle_flips_theme() {
    let ctx = ThemeCtx { theme: ThemeState::Dark };
    assert_eq!(ctx.reduce(ThemeMsg::Toggle).theme, ThemeState::Light);
    let ctx = ThemeCtx { theme: ThemeState::Light };
    assert_eq!(ctx.reduce(ThemeMsg::Toggle).theme, ThemeState::Dark);
}

#[test]
fn toggle_twice_restores_theme_and_marker() {
    for start in [ThemeState::Dark, ThemeState::Light] {
        let ctx = ThemeCtx { theme: start };
        let marker_before = ctx.theme.dark_marker();
        let twice = ctx.reduce(ThemeMsg::Toggle).reduce(ThemeMsg::Toggle);
        assert_eq!(twice.theme, start);
        assert_eq!(twice.theme.dark_marker(), marker_before);
    }
}

#[test]
fn initial_theme_follows_preference() {
    assert_eq!(ThemeCtx::initial(true).theme, ThemeState::Dark);
    assert_eq!(ThemeCtx::initial(false).theme, ThemeState::Light);
}

#[test]
fn marker_set_only_on_dark() {
    assert!(ThemeState::Dark.dark_marker());
    assert!(!ThemeState::Light.dark_marker());
}
