//! The modal image viewer: one image out of an ordered sequence, with
//! circular or bounded next/prev navigation, an optional caption, and
//! dismissal through the overlay. With an empty sequence it renders no
//! image and both navigation actions are disabled.

use vstd::prelude::*;
use vstd::string::*;

use crate::assets::{image_url, spec_image_url};

verus! {

/// One image of a gallery: where its bytes live and an optional caption.
#[derive(PartialEq, Clone, Debug)]
pub struct ImageDescription {
    pub link: String,
    pub description: Option<&'static str>,
}

impl ImageDescription {
    /// An image with a caption.
    pub fn new(link: String, description: &'static str) -> (o: ImageDescription)
        ensures
            o.link == link,
            o.description == Some(description),
    {
        ImageDescription { link, description: Some(description) }
    }

    /// An image without a caption.
    pub fn new_blank(link: String) -> (o: ImageDescription)
        ensures
            o.link == link,
            o.description is None,
    {
        ImageDescription { link, description: None }
    }

    /// The URL the viewer requests this image from.
    pub fn src_url(&self) -> (r: String)
        ensures
            r@ == spec_image_url(self.link@),
    {
        image_url(self.link.as_str())
    }
}

/// The navigation actions of the viewer.
#[derive(Structural, PartialEq, Eq, Clone, Copy, Debug)]
pub enum DefaultImageViewerMessage {
    Next,
    Prev,
}

/// The index after a "next" action from index `i` of `n` images:
/// wrapping around the end in circular mode, clamped (a no-op at the
/// last image) otherwise. Meaningful for `0 <= i < n`.
pub open spec fn next_index(i: int, n: int, circular: bool) -> int {
    if circular {
        if i + 1 == n {
            0
        } else {
            i + 1
        }
    } else {
        if i + 1 < n {
            i + 1
        } else {
            i
        }
    }
}

/// The index after a "prev" action, symmetric to `next_index`.
pub open spec fn prev_index(i: int, n: int, circular: bool) -> int {
    if circular {
        if i == 0 {
            n - 1
        } else {
            i - 1
        }
    } else {
        if i == 0 {
            i
        } else {
            i - 1
        }
    }
}

/// Whether the "next" control is enabled at index `i` of `n` images.
pub open spec fn spec_has_next(i: int, n: int, infinite: bool) -> bool {
    n > 0 && (infinite || i + 1 < n)
}

/// Whether the "prev" control is enabled at index `i` of `n` images.
pub open spec fn spec_has_prev(i: int, n: int, infinite: bool) -> bool {
    n > 0 && (infinite || i > 0)
}

/// The viewer's own state: the index of the shown image. The image
/// sequence, the open flag and the circular-mode flag belong to the
/// host page and are handed to each method.
#[derive(Structural, PartialEq, Eq, Clone, Copy, Debug)]
pub struct DefaultImageViewer {
    pub current: usize,
}

/// Which image the viewer shows: the current one while it is open and
/// has images, none otherwise.
pub open spec fn spec_rendered_index(v: DefaultImageViewer, n: int, open: bool) -> Option<usize> {
    if open && n > 0 {
        Some(v.current)
    } else {
        None
    }
}

impl DefaultImageViewer {
    /// The index stays inside the image sequence; with no images it
    /// rests at the initial position.
    pub open spec fn inv(&self, n: int) -> bool {
        if n == 0 {
            self.current == 0
        } else {
            self.current < n
        }
    }

    /// A fresh viewer shows the first image.
    pub fn create() -> (v: DefaultImageViewer)
        ensures
            v.current == 0,
    {
        DefaultImageViewer { current: 0 }
    }

    /// Whether the "next" control is enabled.
    pub fn has_next(&self, num_images: usize, infinite: bool) -> (r: bool)
        ensures
            r == spec_has_next(self.current as int, num_images as int, infinite),
    {
        if num_images == 0 {
            false
        } else {
            infinite || self.current < num_images - 1
        }
    }

    /// Whether the "prev" control is enabled.
    pub fn has_prev(&self, num_images: usize, infinite: bool) -> (r: bool)
        ensures
            r == spec_has_prev(self.current as int, num_images as int, infinite),
    {
        if num_images == 0 {
            false
        } else {
            infinite || self.current > 0
        }
    }

    /// The index of the image to render, if any.
    pub fn rendered_index(&self, num_images: usize, open: bool) -> (r: Option<usize>)
        requires
            self.inv(num_images as int),
        ensures
            r == spec_rendered_index(*self, num_images as int, open),
    {
        if open && num_images > 0 {
            Some(self.current)
        } else {
            None
        }
    }

    /// Handles a navigation message, always wrapping around the ends;
    /// the bounded policy disables the controls instead (`next`,
    /// `prev`). The result says whether anything changed enough to
    /// render again. With no images the state is untouched.
    pub fn update(&mut self, msg: DefaultImageViewerMessage, num_images: usize) -> (render: bool)
        requires
            old(self).inv(num_images as int),
        ensures
            final(self).inv(num_images as int),
            num_images == 0 ==> *final(self) == *old(self),
            num_images > 0 ==> final(self).current == match msg {
                DefaultImageViewerMessage::Next => next_index(
                    old(self).current as int,
                    num_images as int,
                    true,
                ),
                DefaultImageViewerMessage::Prev => prev_index(
                    old(self).current as int,
                    num_images as int,
                    true,
                ),
            },
            render == (num_images > 1),
    {
        if num_images == 0 {
            return false;
        }
        self.current = match msg {
            DefaultImageViewerMessage::Next => {
                if self.current == num_images - 1 {
                    0
                } else {
                    self.current + 1
                }
            },
            DefaultImageViewerMessage::Prev => {
                if self.current == 0 {
                    num_images - 1
                } else {
                    self.current - 1
                }
            },
        };
        num_images > 1
    }

    /// The "next" action as the user sees it: a step forward where the
    /// control is enabled, a no-op where it is not.
    pub fn next(&mut self, num_images: usize, infinite: bool)
        requires
            old(self).inv(num_images as int),
        ensures
            final(self).inv(num_images as int),
            num_images == 0 ==> *final(self) == *old(self),
            num_images > 0 ==> final(self).current == next_index(
                old(self).current as int,
                num_images as int,
                infinite,
            ),
    {
        if self.has_next(num_images, infinite) {
            self.update(DefaultImageViewerMessage::Next, num_images);
        }
    }

    /// The "prev" action as the user sees it, symmetric to `next`.
    pub fn prev(&mut self, num_images: usize, infinite: bool)
        requires
            old(self).inv(num_images as int),
        ensures
            final(self).inv(num_images as int),
            num_images == 0 ==> *final(self) == *old(self),
            num_images > 0 ==> final(self).current == prev_index(
                old(self).current as int,
                num_images as int,
                infinite,
            ),
    {
        if self.has_prev(num_images, infinite) {
            self.update(DefaultImageViewerMessage::Prev, num_images);
        }
    }
}

/// The index reached after `k` circular "next" steps from index `i`.
pub open spec fn iter_next(i: int, n: int, k: nat) -> int
    decreases k,
{
    if k == 0 {
        i
    } else {
        next_index(iter_next(i, n, (k - 1) as nat), n, true)
    }
}

/// After `k <= n` circular steps from `i`, the index has advanced by
/// `k`, wrapping past the end at most once.
pub proof fn lemma_iter_next_value(i: int, n: int, k: nat)
    requires
        n >= 1,
        0 <= i < n,
        k <= n,
    ensures
        iter_next(i, n, k) == if i + k < n {
            i + k
        } else {
            i + k - n
        },
    decreases k,
{
    if k > 0 {
        lemma_iter_next_value(i, n, (k - 1) as nat);
    }
}

/// Cycle closure: with circular mode enabled, `n` "next" steps from any
/// valid start index return to the start index.
pub proof fn lemma_circular_next_cycle(i: int, n: int)
    requires
        n >= 1,
        0 <= i < n,
    ensures
        iter_next(i, n, n as nat) == i,
{
    lemma_iter_next_value(i, n, n as nat);
}

/// With circular mode disabled, "next" at the last index and "prev" at
/// the first are no-ops.
pub proof fn lemma_bounded_ends_are_noops(n: int)
    requires
        n >= 1,
    ensures
        next_index(n - 1, n, false) == n - 1,
        prev_index(0, n, false) == 0,
{
}

/// With no images the viewer renders no image and both navigation
/// actions are disabled, whatever its state and configuration.
pub proof fn lemma_empty_viewer_disabled(v: DefaultImageViewer, infinite: bool, open: bool)
    ensures
        spec_rendered_index(v, 0, open) is None,
        !spec_has_next(v.current as int, 0, infinite),
        !spec_has_prev(v.current as int, 0, infinite),
{
}

} // verus!
