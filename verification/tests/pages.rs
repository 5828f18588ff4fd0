use portfolio::app::{main_menu_options, page_option, theme_icon};
use portfolio::assets::image_url;
use portfolio::fa_icon::FontawesomeIcon;
use portfolio::gallery::{gallery_images, GalleryState};
use portfolio::home::{
    github_mark_asset, profile_html, profile_tags, tag_color, ImageResource, TagType,
};
use portfolio::page::Page;
use portfolio::tag::TagColor;
use portfolio::theme::ThemeState;

#[test]
fn relative_links_are_served_from_the_image_directory() {
    assert_eq!(image_url("profile.jpg"), "/img/profile.jpg");
    assert_eq!(image_url(""), "/img/");
}

#[test]
fn absolute_links_pass_through() {
    // The prefix test is deliberately this literal, so only links
    // spelled exactly this way pass through unchanged.
    assert_eq!(image_url("https?://example/x.png"), "https?://example/x.png");
    assert_eq!(image_url("https://example/x.png"), "/img/https://example/x.png");
}

#[test]
fn gallery_holds_thirteen_captioned_images() {
    let images = gallery_images();
    assert_eq!(images.len(), 13);
    assert_eq!(images[0].link, "gallery-1.jpg");
    assert_eq!(images[0].description, Some("gallery-1.jpg"));
    assert_eq!(images[8].link, "gallery-9.png");
    assert_eq!(images[12].link, "gallery-13.jpg");
    for img in &images {
        assert_eq!(img.description, Some(img.link.as_str()));
    }
}

#[test]
fn gallery_session_opens_closes_and_wraps() {
    let mut s = GalleryState::new();
    assert!(!s.is_open);
    assert_eq!(s.selected_image, 0);
    s.open_at(7, 13);
    assert!(s.is_open);
    assert_eq!(s.selected_image, 7);
    s.select_next(13);
    assert_eq!(s.selected_image, 8);
    s.close();
    assert!(!s.is_open);
    assert_eq!(s.selected_image, 8);
    let mut s = GalleryState::new();
    s.open_at(12, 13);
    s.select_next(13);
    assert_eq!(s.selected_image, 0);
    s.select_prev(13);
    assert_eq!(s.selected_image, 12);
}

#[test]
fn tag_types_map_to_colors() {
    assert_eq!(tag_color(&TagType::NaturalLanguage), TagColor::Blue);
    assert_eq!(tag_color(&TagType::CodeLanguage), TagColor::Orange);
    assert_eq!(tag_color(&TagType::Interest), TagColor::Green);
}

#[test]
fn profile_tags_keep_order_and_colors() {
    let natural = vec![String::from("Swedish"), String::from("English")];
    let code = vec![String::from("Rust")];
    let interests = vec![String::from("Photography"), String::from("Music")];
    let tags = profile_tags(&natural, &code, &interests);
    assert_eq!(tags.len(), 5);
    assert_eq!(tags[0].text, "Swedish");
    assert_eq!(tags[0].color, TagColor::Blue);
    assert_eq!(tags[1].text, "English");
    assert_eq!(tags[1].color, TagColor::Blue);
    assert_eq!(tags[2].text, "Rust");
    assert_eq!(tags[2].color, TagColor::Orange);
    assert_eq!(tags[3].text, "Photography");
    assert_eq!(tags[3].color, TagColor::Green);
    assert_eq!(tags[4].text, "Music");
    assert_eq!(tags[4].color, TagColor::Green);
}

#[test]
fn profile_tags_of_empty_lists_are_empty() {
    let tags = profile_tags(&vec![], &vec![], &vec![]);
    assert!(tags.is_empty());
}

#[test]
fn github_mark_follows_theme() {
    assert_eq!(github_mark_asset(&ThemeState::Dark), "github/github-mark-white.png");
    assert_eq!(github_mark_asset(&ThemeState::Light), "github/github-mark.png");
}

#[test]
fn image_resource_keeps_fields_and_resolves() {
    let r = ImageResource::new_link(String::from("profile.jpg"), true);
    assert_eq!(r.source, "profile.jpg");
    assert!(r.clickable);
    assert_eq!(r.src_url(), "/img/profile.jpg");
}

#[test]
fn profile_markdown_becomes_html() {
    assert_eq!(profile_html("hello"), "<p>hello</p>\n");
    assert_eq!(profile_html("# About"), "<h1>About</h1>\n");
    assert_eq!(profile_html("*hi*"), "<p><em>hi</em></p>\n");
}

#[test]
fn theme_toggle_icon_shows_the_other_mode() {
    assert_eq!(theme_icon(&ThemeState::Dark), FontawesomeIcon::Sun);
    assert_eq!(theme_icon(&ThemeState::Light), FontawesomeIcon::Moon);
}

#[test]
fn menu_lists_pages_then_theme_toggle() {
    let menu = main_menu_options(&Page::Socials, &ThemeState::Dark);
    assert_eq!(menu.len(), 6);
    let expected = [
        ("Home", FontawesomeIcon::House, false),
        ("Projects", FontawesomeIcon::Code, false),
        ("Social Media", FontawesomeIcon::ShareNodes, true),
        ("Gallery", FontawesomeIcon::Camera, false),
        ("Contact", FontawesomeIcon::Envelope, false),
    ];
    for (option, (name, icon, selected)) in menu.iter().zip(expected.iter()) {
        assert_eq!(option.name.as_deref(), Some(*name));
        assert_eq!(option.icon, Some(*icon));
        assert_eq!(option.selected, *selected);
        assert!(!option.center_content);
        assert!(option.fill);
    }
    let toggle = &menu[5];
    assert_eq!(toggle.name, None);
    assert_eq!(toggle.icon, Some(FontawesomeIcon::Sun));
    assert!(toggle.center_content);
    assert!(!toggle.selected);
    assert!(!toggle.fill);
}

#[test]
fn page_option_marks_only_the_current_page() {
    let current = Page::Gallery;
    let o = page_option(&current, Page::Gallery);
    assert!(o.selected);
    let o = page_option(&current, Page::Home);
    assert!(!o.selected);
}
