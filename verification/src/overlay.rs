//! Full-viewport modal backdrop. Clicks on the content area bubble to
//! the backdrop, so the content handler sets a suppression mark that
//! the backdrop handler consumes instead of closing; a click that
//! started on the backdrop itself finds no mark and closes.

use vstd::prelude::*;
use vstd::string::*;

verus! {

/// Where a click originated, in the order the handlers fire: a click on
/// the content raises `ClickContent` and then, by bubbling, `ClickRoot`;
/// a click on the backdrop raises `ClickRoot` alone.
#[derive(Structural, PartialEq, Eq, Clone, Copy, Debug)]
pub enum OverlayMessage {
    ClickContent,
    ClickRoot,
}

/// The overlay's dismissal state: whether the next backdrop click
/// should notify the close callback.
#[derive(Structural, PartialEq, Eq, Clone, Copy, Debug)]
pub struct Overlay {
    pub should_notify: bool,
}

/// The dismissal state after handling a message: a content click clears
/// the mark; every backdrop click evaluation resets it.
pub open spec fn spec_overlay_next(should_notify: bool, msg: OverlayMessage) -> bool {
    match msg {
        OverlayMessage::ClickContent => false,
        OverlayMessage::ClickRoot => true,
    }
}

/// Whether handling a message notifies the close callback: only a
/// backdrop click with the mark still set does.
pub open spec fn spec_overlay_notifies(should_notify: bool, msg: OverlayMessage) -> bool {
    msg is ClickRoot && should_notify
}

impl Overlay {
    /// A fresh overlay: the next backdrop click closes.
    pub fn create() -> (o: Overlay)
        ensures
            o.should_notify,
    {
        Overlay { should_notify: true }
    }

    /// Handles a click message; the result says whether the close
    /// callback is to be invoked.
    pub fn update(&mut self, msg: OverlayMessage) -> (notified: bool)
        ensures
            final(self).should_notify == spec_overlay_next(old(self).should_notify, msg),
            notified == spec_overlay_notifies(old(self).should_notify, msg),
    {
        let mut notified = false;
        match msg {
            OverlayMessage::ClickContent => {
                self.should_notify = false;
            },
            OverlayMessage::ClickRoot => {
                if self.should_notify {
                    notified = true;
                }
                self.should_notify = true;
            },
        }
        notified
    }
}

/// The class attribute of the backdrop element: shaded unless disabled,
/// hidden while closed.
pub open spec fn spec_overlay_class(noshade: bool, open: bool) -> Seq<char> {
    "overlay"@ + (if noshade {
        ""@
    } else {
        " shade"@
    }) + (if open {
        ""@
    } else {
        " hidden"@
    })
}

/// Composes the class attribute of the backdrop element.
pub fn overlay_class(noshade: bool, open: bool) -> (r: String)
    ensures
        r@ == spec_overlay_class(noshade, open),
{
    let mut s = String::from_str("overlay");
    if !noshade {
        s.append(" shade");
    }
    if !open {
        s.append(" hidden");
    }
    proof {
        reveal_strlit("");
        assert(s@ =~= spec_overlay_class(noshade, open));
    }
    s
}

/// A click on the content area never triggers the close callback, in
/// any state.
pub proof fn lemma_content_click_never_closes(should_notify: bool)
    ensures
        !spec_overlay_notifies(should_notify, OverlayMessage::ClickContent),
{
}

/// A click that starts on the backdrop — one not preceded by a content
/// click since the last backdrop evaluation — always triggers the close
/// callback.
pub proof fn lemma_backdrop_click_closes()
    ensures
        spec_overlay_notifies(true, OverlayMessage::ClickRoot),
{
}

/// A content click followed by its bubbled backdrop click is suppressed
/// exactly once: the bubbled click does not close, and the mark is
/// reset so that the next direct backdrop click closes again.
pub proof fn lemma_bubbled_click_suppressed_once(should_notify: bool)
    ensures
        !spec_overlay_notifies(
            spec_overlay_next(should_notify, OverlayMessage::ClickContent),
            OverlayMessage::ClickRoot,
        ),
        spec_overlay_next(
            spec_overlay_next(should_notify, OverlayMessage::ClickContent),
            OverlayMessage::ClickRoot,
        ),
{
}

} // verus!
