//! Framework-origin notifications and the position-dependent context that
//! accompanies a descent of the retained tree.

use vstd::prelude::*;
use crate::geometry::{fits, Point, Rect, Vec2};
use crate::id::Id;

verus! {

/// Where the current widget sits: its origin in window space, its clip
/// rectangle and the pointer's position, if known, in its own space.
#[derive(Clone, Copy, Debug, PartialEq, Eq, Structural)]
pub struct ViewContext {
    pub window_origin: Point,
    pub clip: Rect,
    pub mouse_position: Option<Point>,
}

/// A notification that the framework itself sends to the retained tree.
#[derive(Clone, Copy, Debug, PartialEq, Eq, Structural)]
pub enum LifeCycle {
    /// The widget became hot (the pointer is over it), or stopped being hot.
    HotChanged(bool),
    /// The widget's view context changed.
    ViewContextChanged(ViewContext),
    /// The widget tree was updated.
    TreeUpdate,
}

/// Every coordinate of `c`, moved by `(dx, dy)` as `translated` moves it,
/// fits in an `i64`.
pub open spec fn can_translate(c: ViewContext, dx: int, dy: int) -> bool {
    &&& fits(c.window_origin.x + dx)
    &&& fits(c.window_origin.y + dy)
    &&& fits(c.clip.x0 - dx)
    &&& fits(c.clip.y0 - dy)
    &&& fits(c.clip.x1 - dx)
    &&& fits(c.clip.y1 - dy)
    &&& match c.mouse_position {
        Some(p) => fits(p.x - dx) && fits(p.y - dy),
        None => true,
    }
}

/// `c` seen from a child whose origin lies at `(dx, dy)` in `c`'s space:
/// the window origin moves forward by the offset, the clip and the pointer
/// move back by it.
pub open spec fn translated(c: ViewContext, dx: int, dy: int) -> ViewContext {
    ViewContext {
        window_origin: Point {
            x: (c.window_origin.x + dx) as i64,
            y: (c.window_origin.y + dy) as i64,
        },
        clip: Rect {
            x0: (c.clip.x0 - dx) as i64,
            y0: (c.clip.y0 - dy) as i64,
            x1: (c.clip.x1 - dx) as i64,
            y1: (c.clip.y1 - dy) as i64,
        },
        mouse_position: match c.mouse_position {
            Some(p) => Some(Point { x: (p.x - dx) as i64, y: (p.y - dy) as i64 }),
            None => None,
        },
    }
}

impl ViewContext {
    /// The context of a child whose origin is `new_origin` in this
    /// context's space.
    pub fn translate_to(&self, new_origin: Point) -> (r: ViewContext)
        requires
            can_translate(*self, new_origin.x as int, new_origin.y as int),
        ensures
            r == translated(*self, new_origin.x as int, new_origin.y as int),
    {
        let translate = new_origin.to_vec2();
        let mouse_position = match self.mouse_position {
            Some(p) => Some(p.minus(translate)),
            None => None,
        };
        ViewContext {
            window_origin: self.window_origin.plus(translate),
            clip: self.clip.minus(translate),
            mouse_position,
        }
    }
}

/// Translating by `a` and then by `b` is translating once by `a + b`.
pub proof fn lemma_translate_composes(c: ViewContext, a: Vec2, b: Vec2)
    requires
        can_translate(c, a.x as int, a.y as int),
        can_translate(translated(c, a.x as int, a.y as int), b.x as int, b.y as int),
    ensures
        can_translate(c, a.x + b.x, a.y + b.y),
        translated(translated(c, a.x as int, a.y as int), b.x as int, b.y as int)
            == translated(c, a.x + b.x, a.y + b.y),
{
}

/// The widgets that a pointer move goes to: the active widget alone, where
/// one has captured the pointer; else every hot widget, in order. With
/// neither, the move goes nowhere.
pub fn mouse_move_targets(active: Option<Id>, hot: &Vec<Id>) -> (r: Vec<Id>)
    ensures
        active is Some ==> r@ == seq![active->Some_0],
        active is None ==> r@ == hot@,
{
    match active {
        Some(id) => vec![id],
        None => hot.clone(),
    }
}

} // verus!
