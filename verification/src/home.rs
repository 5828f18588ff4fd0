//! The home page's content logic: the profile card's markdown body,
//! the tag lists fetched as plain string arrays, and the theme-aware
//! GitHub card assets. The fetches themselves are the host's work; the
//! functions here take and return plain values.

use vstd::prelude::*;
use vstd::string::*;

use crate::assets::{image_url, spec_image_url};
use crate::tag::{TagColor, TagProps};
use crate::theme::ThemeState;

verus! {

/// An image shown on a page card and whether clicking it does anything.
#[derive(PartialEq, Clone, Debug)]
pub struct ImageResource {
    pub source: String,
    pub clickable: bool,
}

impl ImageResource {
    /// An image resource from a link.
    pub fn new_link(link: String, clickable: bool) -> (r: ImageResource)
        ensures
            r.source == link,
            r.clickable == clickable,
    {
        ImageResource { source: link, clickable }
    }

    /// The URL the page requests this image from.
    pub fn src_url(&self) -> (r: String)
        ensures
            r@ == spec_image_url(self.source@),
    {
        image_url(self.source.as_str())
    }
}

/// One repository entry of the GitHub card, as fetched.
#[derive(PartialEq, Clone, Debug)]
pub struct GithubEntry {
    pub link: String,
    pub title: String,
    pub description: String,
}

/// What kind of profile tag a string is, deciding its color.
#[derive(Structural, PartialEq, Eq, Clone, Copy, Debug)]
pub enum TagType {
    NaturalLanguage,
    CodeLanguage,
    Interest,
}

/// The color each tag type renders with.
pub open spec fn spec_tag_color(t: TagType) -> TagColor {
    match t {
        TagType::NaturalLanguage => TagColor::Blue,
        TagType::CodeLanguage => TagColor::Orange,
        TagType::Interest => TagColor::Green,
    }
}

/// Maps a tag type to its color.
pub fn tag_color(t: &TagType) -> (c: TagColor)
    ensures
        c == spec_tag_color(*t),
{
    match t {
        TagType::NaturalLanguage => TagColor::Blue,
        TagType::CodeLanguage => TagColor::Orange,
        TagType::Interest => TagColor::Green,
    }
}

/// Combines the three fetched tag lists into the rendered tag sequence:
/// natural languages first, then code languages, then interests, each
/// under its type's color.
pub fn profile_tags(
    natural_languages: &Vec<String>,
    code_languages: &Vec<String>,
    interests: &Vec<String>,
) -> (tags: Vec<TagProps>)
    ensures
        tags@.len() == natural_languages@.len() + code_languages@.len() + interests@.len(),
        forall|j: int|
            0 <= j < natural_languages@.len() ==> (#[trigger] tags@[j]).color == TagColor::Blue
                && tags@[j].text@ == natural_languages@[j]@,
        forall|j: int|
            0 <= j < code_languages@.len() ==> (#[trigger] tags@[natural_languages@.len()
                + j]).color == TagColor::Orange && tags@[natural_languages@.len() + j].text@
                == code_languages@[j]@,
        forall|j: int|
            0 <= j < interests@.len() ==> (#[trigger] tags@[natural_languages@.len()
                + code_languages@.len() + j]).color == TagColor::Green
                && tags@[natural_languages@.len() + code_languages@.len() + j].text@
                == interests@[j]@,
{
    let mut tags: Vec<TagProps> = Vec::new();
    let mut i: usize = 0;
    while i < natural_languages.len()
        invariant
            i <= natural_languages@.len(),
            tags@.len() == i,
            forall|j: int|
                0 <= j < i ==> (#[trigger] tags@[j]).color == TagColor::Blue && tags@[j].text@
                    == natural_languages@[j]@,
        decreases natural_languages@.len() - i,
    {
        tags.push(TagProps { color: TagColor::Blue, text: natural_languages[i].clone() });
        i = i + 1;
    }
    let n = natural_languages.len();
    i = 0;
    while i < code_languages.len()
        invariant
            i <= code_languages@.len(),
            n == natural_languages@.len(),
            tags@.len() == n + i,
            forall|j: int|
                0 <= j < n ==> (#[trigger] tags@[j]).color == TagColor::Blue && tags@[j].text@
                    == natural_languages@[j]@,
            forall|j: int|
                0 <= j < i ==> (#[trigger] tags@[n + j]).color == TagColor::Orange && tags@[n
                    + j].text@ == code_languages@[j]@,
        decreases code_languages@.len() - i,
    {
        tags.push(TagProps { color: TagColor::Orange, text: code_languages[i].clone() });
        i = i + 1;
    }
    let c = code_languages.len();
    i = 0;
    while i < interests.len()
        invariant
            i <= interests@.len(),
            n == natural_languages@.len(),
            c == code_languages@.len(),
            tags@.len() == n + c + i,
            forall|j: int|
                0 <= j < n ==> (#[trigger] tags@[j]).color == TagColor::Blue && tags@[j].text@
                    == natural_languages@[j]@,
            forall|j: int|
                0 <= j < c ==> (#[trigger] tags@[n + j]).color == TagColor::Orange && tags@[n
                    + j].text@ == code_languages@[j]@,
            forall|j: int|
                0 <= j < i ==> (#[trigger] tags@[n + c + j]).color == TagColor::Green && tags@[n + c
                    + j].text@ == interests@[j]@,
        decreases interests@.len() - i,
    {
        tags.push(TagProps { color: TagColor::Green, text: interests[i].clone() });
        i = i + 1;
    }
    tags
}

/// The GitHub mark asset for a theme: the light mark on the dark theme.
pub open spec fn spec_github_mark_asset(t: ThemeState) -> Seq<char> {
    "github/github-mark"@ + (if t is Dark {
        "-white"@
    } else {
        ""@
    }) + ".png"@
}

/// Picks the GitHub mark image matching the current theme.
pub fn github_mark_asset(theme: &ThemeState) -> (r: String)
    ensures
        r@ == spec_github_mark_asset(*theme),
{
    let mut s = String::from_str("github/github-mark");
    let is_dark = match theme {
        ThemeState::Dark => true,
        ThemeState::Light => false,
    };
    if is_dark {
        s.append("-white");
    }
    s.append(".png");
    proof {
        reveal_strlit("");
        assert(s@ =~= spec_github_mark_asset(*theme));
    }
    s
}

/// The HTML produced by the markdown renderer for a markdown text; the
/// renderer is deterministic, so the text alone decides it.
pub uninterp spec fn markdown_html(md: Seq<char>) -> Seq<char>;

/// Relies on comrak::markdown_to_html with default options: it renders
/// markdown to HTML, a function of the markdown text alone.
#[verifier::external_body]
fn markdown_to_html_default(md: &str) -> (r: String)
    ensures
        r@ == markdown_html(md@),
{
    comrak::markdown_to_html(md, &comrak::Options::default())
}

/// Converts the fetched profile markdown into the HTML body the profile
/// card inserts as trusted markup.
pub fn profile_html(markdown: &str) -> (r: String)
    ensures
        r@ == markdown_html(markdown@),
{
    markdown_to_html_default(markdown)
}

} // verus!
