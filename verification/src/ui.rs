use vstd::prelude::*;

verus! {

/// A pixel offset of an interface element from its anchor, in a coordinate system whose
/// values grow towards the bottom right.
#[derive(Debug, Clone, Copy, PartialEq, Eq, Structural)]
pub struct UIMargin {
    top: i32,
    left: i32,
    bottom: i32,
    right: i32,
}

impl UIMargin {
    pub closed spec fn spec_top(&self) -> i32 {
        self.top
    }

    pub closed spec fn spec_left(&self) -> i32 {
        self.left
    }

    pub closed spec fn spec_bottom(&self) -> i32 {
        self.bottom
    }

    pub closed spec fn spec_right(&self) -> i32 {
        self.right
    }

    /// A margin with the given sides.
    pub fn new(top: i32, left: i32, bottom: i32, right: i32) -> (res: Self)
        ensures
            res.spec_top() == top,
            res.spec_left() == left,
            res.spec_bottom() == bottom,
            res.spec_right() == right,
    {
        Self { top, left, bottom, right }
    }

    pub fn set_top(&mut self, top: i32)
        ensures
            final(self).spec_top() == top,
            final(self).spec_left() == old(self).spec_left(),
            final(self).spec_bottom() == old(self).spec_bottom(),
            final(self).spec_right() == old(self).spec_right(),
    {
        self.top = top
    }

    pub fn set_left(&mut self, left: i32)
        ensures
            final(self).spec_top() == old(self).spec_top(),
            final(self).spec_left() == left,
            final(self).spec_bottom() == old(self).spec_bottom(),
            final(self).spec_right() == old(self).spec_right(),
    {
        self.left = left
    }

    pub fn set_bottom(&mut self, bottom: i32)
        ensures
            final(self).spec_top() == old(self).spec_top(),
            final(self).spec_left() == old(self).spec_left(),
            final(self).spec_bottom() == bottom,
            final(self).spec_right() == old(self).spec_right(),
    {
        self.bottom = bottom
    }

    pub fn set_right(&mut self, right: i32)
        ensures
            final(self).spec_top() == old(self).spec_top(),
            final(self).spec_left() == old(self).spec_left(),
            final(self).spec_bottom() == old(self).spec_bottom(),
            final(self).spec_right() == right,
    {
        self.right = right
    }

    pub fn top(&self) -> (res: i32)
        ensures
            res == self.spec_top(),
    {
        self.top
    }

    pub fn left(&self) -> (res: i32)
        ensures
            res == self.spec_left(),
    {
        self.left
    }

    pub fn bottom(&self) -> (res: i32)
        ensures
            res == self.spec_bottom(),
    {
        self.bottom
    }

    pub fn right(&self) -> (res: i32)
        ensures
            res == self.spec_right(),
    {
        self.right
    }
}

impl Default for UIMargin {
    fn default() -> (res: Self)
        ensures
            res.spec_top() == 0,
            res.spec_left() == 0,
            res.spec_bottom() == 0,
            res.spec_right() == 0,
    {
        Self { top: 0, left: 0, bottom: 0, right: 0 }
    }
}

/// What releasing the left mouse button does: the element whose look must be restored,
/// and the element that is activated.
#[derive(Debug, Clone, Copy, PartialEq, Eq, Structural)]
pub struct Release {
    pub restored: Option<usize>,
    pub activated: Option<usize>,
}

/// The element held after the left mouse button goes down over `hit` while `held` was held.
pub open spec fn spec_after_press(held: Option<usize>, hit: Option<usize>) -> Option<usize> {
    if hit is Some {
        hit
    } else {
        held
    }
}

/// The element activated when the left mouse button goes up over `hit` while `held` is held.
pub open spec fn spec_activated(held: Option<usize>, hit: Option<usize>) -> Option<usize> {
    if held is Some && hit == held {
        held
    } else {
        None
    }
}

/// The interface element held down with the left mouse button, by its index among the
/// elements of a scene. An element is activated when the button is pressed and released
/// over it.
#[derive(Debug, Clone, Copy, PartialEq, Eq, Structural)]
pub struct UiFocus {
    focused: Option<usize>,
}

impl UiFocus {
    pub closed spec fn spec_focused(&self) -> Option<usize> {
        self.focused
    }

    /// No element is held down.
    pub fn new() -> (res: Self)
        ensures
            res.spec_focused() is None,
    {
        UiFocus { focused: None }
    }

    /// The element held down, if any.
    pub fn focused(&self) -> (res: Option<usize>)
        ensures
            res == self.spec_focused(),
    {
        self.focused
    }

    /// The left mouse button goes down with the cursor over `hit`, if over an element.
    /// An element under the cursor becomes the held one and must be highlighted; that
    /// element is returned.
    pub fn press(&mut self, hit: Option<usize>) -> (res: Option<usize>)
        ensures
            res == hit,
            final(self).spec_focused() == spec_after_press(old(self).spec_focused(), hit),
    {
        if hit.is_some() {
            self.focused = hit;
        }
        hit
    }

    /// The left mouse button goes up with the cursor over `hit`, if over an element.
    /// The held element is let go and restored; it is activated when the cursor is still
    /// over it.
    pub fn release(&mut self, hit: Option<usize>) -> (res: Release)
        ensures
            final(self).spec_focused() is None,
            res.restored == old(self).spec_focused(),
            res.activated == spec_activated(old(self).spec_focused(), hit),
    {
        let held = self.focused;
        self.focused = None;
        match held {
            Some(index) => {
                let activated = match hit {
                    Some(h) => if h == index {
                        Some(index)
                    } else {
                        None
                    },
                    None => None,
                };
                Release { restored: Some(index), activated }
            },
            None => Release { restored: None, activated: None },
        }
    }

    /// The held element is let go without activating it, as when the scene is left with
    /// the escape key; it is returned so that its look can be restored.
    pub fn cancel(&mut self) -> (res: Option<usize>)
        ensures
            final(self).spec_focused() is None,
            res == old(self).spec_focused(),
    {
        let held = self.focused;
        self.focused = None;
        held
    }
}

/// An element is activated only when it was held down and the button is released over it:
/// with nothing held, pressing over `pressed` and releasing over `released` activates an
/// element exactly when both are the same element, and then activates that element.
pub proof fn lemma_activation_needs_press_and_release_on_same(
    pressed: Option<usize>,
    released: Option<usize>,
)
    ensures
        spec_activated(spec_after_press(None, pressed), released) is Some <==> (pressed is Some
            && released == pressed),
        spec_activated(spec_after_press(None, pressed), released) is Some ==> spec_activated(
            spec_after_press(None, pressed),
            released,
        ) == pressed,
{
}

/// Letting go activates nothing when nothing is held.
pub proof fn lemma_release_without_press_activates_nothing(hit: Option<usize>)
    ensures
        spec_activated(None, hit) is None,
{
}

} // verus!
