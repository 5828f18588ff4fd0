//! Tag chips: a colored label rendered inside pages.

use vstd::prelude::*;
use vstd::string::*;

verus! {

/// The color variants a tag can take.
#[derive(Structural, PartialEq, Eq, Clone, Copy, Debug)]
pub enum TagColor {
    Blue,
    Red,
    Orange,
    Green,
}

/// The CSS class of a tag color.
pub open spec fn spec_tag_color_class(c: TagColor) -> Seq<char> {
    match c {
        TagColor::Blue => "blue"@,
        TagColor::Red => "red"@,
        TagColor::Orange => "orange"@,
        TagColor::Green => "green"@,
    }
}

impl TagColor {
    /// The CSS class that selects this color.
    pub fn as_class(&self) -> (r: &'static str)
        ensures
            r@ == spec_tag_color_class(*self),
    {
        match self {
            TagColor::Blue => "blue",
            TagColor::Red => "red",
            TagColor::Orange => "orange",
            TagColor::Green => "green",
        }
    }
}

impl Default for TagColor {
    /// The default tag color.
    fn default() -> (r: Self)
        ensures
            r == TagColor::Blue,
    {
        TagColor::Blue
    }
}

/// What a tag renders: its color and its text.
#[derive(PartialEq, Clone, Debug)]
pub struct TagProps {
    pub color: TagColor,
    pub text: String,
}

/// The full class attribute of a rendered tag: the base class and the
/// color class, space-separated.
pub open spec fn spec_tag_class(c: TagColor) -> Seq<char> {
    "tag "@ + spec_tag_color_class(c)
}

/// Composes the class attribute of a rendered tag.
pub fn tag_class(color: &TagColor) -> (r: String)
    ensures
        r@ == spec_tag_class(*color),
{
    let mut s = String::from_str("tag ");
    s.append(color.as_class());
    s
}

} // verus!
