//! The application root's menu logic: the ordered option list the
//! action bar shows, one option per page plus the theme toggle.

use vstd::prelude::*;

use crate::actionbar::ActionbarOption;
use crate::fa_icon::FontawesomeIcon;
use crate::page::{spec_page_icon, spec_page_name, Page};
use crate::theme::ThemeState;

verus! {

/// The icon on the theme toggle: the one for the theme a toggle would
/// switch to.
pub open spec fn spec_theme_icon(t: ThemeState) -> FontawesomeIcon {
    if t is Dark {
        FontawesomeIcon::Sun
    } else {
        FontawesomeIcon::Moon
    }
}

/// Picks the theme toggle's icon.
pub fn theme_icon(theme: &ThemeState) -> (r: FontawesomeIcon)
    ensures
        r == spec_theme_icon(*theme),
{
    match theme {
        ThemeState::Dark => FontawesomeIcon::Sun,
        ThemeState::Light => FontawesomeIcon::Moon,
    }
}

/// The page shown at menu position `j`.
pub open spec fn spec_menu_page(j: int) -> Page {
    if j == 0 {
        Page::Home
    } else if j == 1 {
        Page::Projects
    } else if j == 2 {
        Page::Socials
    } else if j == 3 {
        Page::Gallery
    } else {
        Page::Contact
    }
}

/// `o` is the menu option for `page` while `current` is shown: named
/// and iconed after the page, filled, and selected exactly when the
/// page is the current one.
pub open spec fn spec_is_page_option(o: ActionbarOption, page: Page, current: Page) -> bool {
    &&& o.name matches Some(n) && n@ == spec_page_name(page)
    &&& o.icon == Some(spec_page_icon(page))
    &&& !o.center_content
    &&& o.selected == (page == current)
    &&& o.fill
}

/// Builds the menu option for one page.
pub fn page_option(current: &Page, page: Page) -> (o: ActionbarOption)
    ensures
        spec_is_page_option(o, page, *current),
{
    let is_current = *current == page;
    ActionbarOption::new(page.name(), page.icon(), is_current)
}

/// Builds the whole action bar menu: the five pages in order, then the
/// centered, unfilled theme toggle showing only an icon.
pub fn main_menu_options(current: &Page, theme: &ThemeState) -> (v: Vec<ActionbarOption>)
    ensures
        v@.len() == 6,
        forall|j: int|
            0 <= j < 5 ==> spec_is_page_option(#[trigger] v@[j], spec_menu_page(j), *current),
        v@[5].name is None,
        v@[5].icon == Some(spec_theme_icon(*theme)),
        v@[5].center_content,
        !v@[5].selected,
        !v@[5].fill,
{
    let mut v: Vec<ActionbarOption> = Vec::new();
    v.push(page_option(current, Page::Home));
    v.push(page_option(current, Page::Projects));
    v.push(page_option(current, Page::Socials));
    v.push(page_option(current, Page::Gallery));
    v.push(page_option(current, Page::Contact));
    v.push(ActionbarOption::new_opt(None, Some(theme_icon(theme)), true, false, false));
    v
}

} // verus!
