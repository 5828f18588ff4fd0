//! The action bar: the site's navigation control surface. It renders an
//! ordered option list and keeps one boolean for the compact (mobile)
//! presentation; activating any option collapses it again.

use vstd::prelude::*;

use crate::fa_icon::FontawesomeIcon;

verus! {

/// One entry of the action bar, as the owning page rebuilds it on every
/// render pass. The click action itself is supplied by the rendering
/// host alongside this value.
#[derive(PartialEq, Clone, Debug)]
pub struct ActionbarOption {
    pub name: Option<String>,
    pub icon: Option<FontawesomeIcon>,
    pub center_content: bool,
    pub selected: bool,
    pub fill: bool,
}

/// The class attribute of a rendered option: the selected option is
/// marked current, and one missing its icon or its name renders small.
pub open spec fn spec_option_class(selected: bool, has_icon_and_name: bool) -> Seq<char> {
    if selected && !has_icon_and_name {
        "current small"@
    } else if selected {
        "current"@
    } else if !has_icon_and_name {
        "small"@
    } else {
        ""@
    }
}

impl ActionbarOption {
    /// Builds an option field by field.
    pub fn new_opt(
        name: Option<String>,
        icon: Option<FontawesomeIcon>,
        center_content: bool,
        selected: bool,
        fill: bool,
    ) -> (o: ActionbarOption)
        ensures
            o.name == name,
            o.icon == icon,
            o.center_content == center_content,
            o.selected == selected,
            o.fill == fill,
    {
        ActionbarOption { name, icon, center_content, selected, fill }
    }

    /// Builds the common case: a filled, non-centered option with a
    /// name and an icon.
    pub fn new(name: &str, icon: FontawesomeIcon, selected: bool) -> (o: ActionbarOption)
        ensures
            o.name matches Some(n) && n@ == name@,
            o.icon == Some(icon),
            o.center_content == false,
            o.selected == selected,
            o.fill == true,
    {
        ActionbarOption {
            name: Some(name.to_owned()),
            icon: Some(icon),
            center_content: false,
            selected,
            fill: true,
        }
    }

    /// The class attribute this option renders with.
    pub fn css_class(&self) -> (r: &'static str)
        ensures
            r@ == spec_option_class(self.selected, self.icon is Some && self.name is Some),
    {
        let has_both = self.icon.is_some() && self.name.is_some();
        if self.selected && !has_both {
            "current small"
        } else if self.selected {
            "current"
        } else if !has_both {
            "small"
        } else {
            ""
        }
    }
}

/// The action bar's own state: whether the compact menu is expanded.
#[derive(Structural, PartialEq, Eq, Clone, Copy, Debug)]
pub struct ActionbarState {
    pub expanded: bool,
}

impl ActionbarState {
    /// A fresh action bar starts collapsed.
    pub fn new() -> (s: ActionbarState)
        ensures
            !s.expanded,
    {
        ActionbarState { expanded: false }
    }

    /// The dedicated control flips the expanded flag.
    pub fn toggle_expanded(&mut self)
        ensures
            final(self).expanded == !old(self).expanded,
    {
        self.expanded = !self.expanded;
    }

    /// Activating any option collapses the compact menu, whichever
    /// option it was; the option's own click action runs alongside.
    pub fn activate_option(&mut self)
        ensures
            !final(self).expanded,
    {
        self.expanded = false;
    }

    /// The icon on the expand control.
    pub fn chevron(&self) -> (r: FontawesomeIcon)
        ensures
            r == (if self.expanded {
                FontawesomeIcon::ChevronUp
            } else {
                FontawesomeIcon::ChevronDown
            }),
    {
        if self.expanded {
            FontawesomeIcon::ChevronUp
        } else {
            FontawesomeIcon::ChevronDown
        }
    }

    /// The class attribute of the collapsible option container.
    pub fn menu_class(&self) -> (r: &'static str)
        ensures
            r@ == (if self.expanded {
                "open"@
            } else {
                ""@
            }),
    {
        if self.expanded {
            "open"
        } else {
            ""
        }
    }
}

/// The inline style of the action bar header, which spaces the chevron
/// from a mobile title when one is shown.
pub fn header_style(has_mobile_title: bool) -> (r: &'static str)
    ensures
        r@ == (if has_mobile_title {
            "gap: 5px;"@
        } else {
            ""@
        }),
{
    if has_mobile_title {
        "gap: 5px;"
    } else {
        ""
    }
}

} // verus!
