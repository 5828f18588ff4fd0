//! Routing: the site's pages, their URL paths, display names and menu
//! icons. Path resolution is total and deterministic; anything the
//! table does not match falls back to the home page.

use vstd::prelude::*;

use crate::fa_icon::FontawesomeIcon;
use crate::text::str_eq;

verus! {

/// The top-level navigable sections of the site.
#[derive(Structural, PartialEq, Eq, Clone, Copy, Debug)]
pub enum Page {
    Home,
    Projects,
    Socials,
    Gallery,
    Contact,
}

/// The URL path of a page.
pub open spec fn spec_page_path(p: Page) -> Seq<char> {
    match p {
        Page::Home => "/"@,
        Page::Projects => "/projects"@,
        Page::Socials => "/socials"@,
        Page::Gallery => "/photos"@,
        Page::Contact => "/contacts"@,
    }
}

/// The display name of a page.
pub open spec fn spec_page_name(p: Page) -> Seq<char> {
    match p {
        Page::Home => "Home"@,
        Page::Projects => "Projects"@,
        Page::Socials => "Social Media"@,
        Page::Gallery => "Gallery"@,
        Page::Contact => "Contact"@,
    }
}

/// The menu icon of a page.
pub open spec fn spec_page_icon(p: Page) -> FontawesomeIcon {
    match p {
        Page::Home => FontawesomeIcon::House,
        Page::Projects => FontawesomeIcon::Code,
        Page::Socials => FontawesomeIcon::ShareNodes,
        Page::Gallery => FontawesomeIcon::Camera,
        Page::Contact => FontawesomeIcon::Envelope,
    }
}

/// The page a URL path resolves to; unmatched paths resolve to Home.
pub open spec fn spec_resolve(path: Seq<char>) -> Page {
    if path == "/projects"@ {
        Page::Projects
    } else if path == "/socials"@ {
        Page::Socials
    } else if path == "/photos"@ {
        Page::Gallery
    } else if path == "/contacts"@ {
        Page::Contact
    } else {
        Page::Home
    }
}

impl Page {
    /// The URL path this page is served under.
    pub fn path(&self) -> (r: &'static str)
        ensures
            r@ == spec_page_path(*self),
    {
        match self {
            Page::Home => "/",
            Page::Projects => "/projects",
            Page::Socials => "/socials",
            Page::Gallery => "/photos",
            Page::Contact => "/contacts",
        }
    }

    /// The name shown for this page in the action bar.
    pub fn name(&self) -> (r: &'static str)
        ensures
            r@ == spec_page_name(*self),
    {
        match self {
            Page::Home => "Home",
            Page::Projects => "Projects",
            Page::Socials => "Social Media",
            Page::Gallery => "Gallery",
            Page::Contact => "Contact",
        }
    }

    /// The icon shown for this page in the action bar.
    pub fn icon(&self) -> (r: FontawesomeIcon)
        ensures
            r == spec_page_icon(*self),
    {
        match self {
            Page::Home => FontawesomeIcon::House,
            Page::Projects => FontawesomeIcon::Code,
            Page::Socials => FontawesomeIcon::ShareNodes,
            Page::Gallery => FontawesomeIcon::Camera,
            Page::Contact => FontawesomeIcon::Envelope,
        }
    }

    /// Resolves a URL path to the page it shows.
    pub fn resolve(path: &str) -> (p: Page)
        ensures
            p == spec_resolve(path@),
    {
        if str_eq(path, "/projects") {
            Page::Projects
        } else if str_eq(path, "/socials") {
            Page::Socials
        } else if str_eq(path, "/photos") {
            Page::Gallery
        } else if str_eq(path, "/contacts") {
            Page::Contact
        } else {
            Page::Home
        }
    }
}

/// Resolving a page's own path gives that page back, except for Home,
/// whose path is also where every unmatched path lands.
pub proof fn lemma_resolve_roundtrip(p: Page)
    ensures
        spec_resolve(spec_page_path(p)) == p,
{
    reveal_strlit("/");
    reveal_strlit("/projects");
    reveal_strlit("/socials");
    reveal_strlit("/photos");
    reveal_strlit("/contacts");
    assert("/"@.len() == 1);
    assert("/projects"@.len() == 9);
    assert("/socials"@.len() == 8);
    assert("/photos"@.len() == 7);
    assert("/contacts"@.len() == 9);
    assert("/contacts"@[1] != "/projects"@[1]);
}

} // verus!
