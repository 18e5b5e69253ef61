//! Keyboard focus: the focused widget, and the per-frame registry of
//! interactive rectangles that navigation is resolved against.
//!
//! The registry is rebuilt every frame in draw order and consumed at the
//! start of the next frame. Sequential navigation (Tab / Shift-Tab) walks the
//! registration order, wrapping. Directional navigation measures, from the
//! focused rectangle's edge facing the requested direction to each
//! candidate's opposite edge, a primary distance (displacement along the
//! direction) and a secondary distance (perpendicular offset of the edge
//! midpoints), discards candidates behind the edge, and picks the candidate
//! with the least `1.5 * secondary^2 + primary^2`, ties going to the smaller
//! secondary distance. All distances are computed exactly, in edge-midpoint
//! coordinates scaled by two.

use vstd::prelude::*;
use crate::geometry::{sat_add, Rect};
use crate::id::Id;

verus! {

/// A pending navigation request.
#[derive(Debug, Clone, Copy, PartialEq, Eq, Structural)]
pub enum NavDirection {
    Idle,
    Forward,
    Backward,
    Up,
    Down,
    Left,
    Right,
}

/// The midpoint of `rect`'s edge facing `dir`, in coordinates scaled by two
/// (so midpoints of odd-length edges stay exact).
pub open spec fn spec_edge_mid(rect: Rect, dir: NavDirection) -> (int, int) {
    let x2 = rect.x + sat_add(rect.x, rect.width);
    let y2 = rect.y + sat_add(rect.y, rect.height);
    match dir {
        NavDirection::Up => (x2, 2 * rect.y),
        NavDirection::Down => (x2, 2 * sat_add(rect.y, rect.height)),
        NavDirection::Left => (2 * rect.x, y2),
        NavDirection::Right => (2 * sat_add(rect.x, rect.width), y2),
        _ => (x2, y2),
    }
}

/// The edge of a candidate that faces back towards the focused rectangle.
pub open spec fn spec_opposite(dir: NavDirection) -> NavDirection {
    match dir {
        NavDirection::Up => NavDirection::Down,
        NavDirection::Down => NavDirection::Up,
        NavDirection::Left => NavDirection::Right,
        NavDirection::Right => NavDirection::Left,
        d => d,
    }
}

/// The primary (along `dir`) and secondary (perpendicular) distances from the
/// focused rectangle's facing edge to a candidate's opposite edge, in scaled
/// coordinates. A negative primary distance means the candidate lies behind.
pub open spec fn spec_distances(frect: Rect, rect: Rect, dir: NavDirection) -> (int, int) {
    let c = spec_edge_mid(frect, dir);
    let e = spec_edge_mid(rect, spec_opposite(dir));
    match dir {
        NavDirection::Up => (c.1 - e.1, if e.0 >= c.0 { e.0 - c.0 } else { c.0 - e.0 }),
        NavDirection::Down => (e.1 - c.1, if e.0 >= c.0 { e.0 - c.0 } else { c.0 - e.0 }),
        NavDirection::Left => (c.0 - e.0, if e.1 >= c.1 { e.1 - c.1 } else { c.1 - e.1 }),
        NavDirection::Right => (e.0 - c.0, if e.1 >= c.1 { e.1 - c.1 } else { c.1 - e.1 }),
        _ => (0, 0),
    }
}

/// Whether the candidate distances `(pd, sd)` beat the best so far: equal
/// primary distances tie-break on the secondary distance, otherwise the
/// combined score `1.5 * sd^2 + pd^2` decides (scaled by two to stay exact).
pub open spec fn spec_beats(pd: int, sd: int, bpd: int, bsd: int) -> bool {
    if pd == bpd {
        sd < bsd
    } else {
        3 * (sd * sd) + 2 * (pd * pd) < 3 * (bsd * bsd) + 2 * (bpd * bpd)
    }
}

/// The best directional candidate among the registrations from index `i` on:
/// every rectangle registered under another identity, in front of the focused
/// edge, scored as above; earlier registrations win ties that
/// [`spec_beats`] does not break.
pub open spec fn spec_best_from(
    reg: Seq<(Id, Rect)>,
    i: int,
    fid: Id,
    frect: Rect,
    dir: NavDirection,
    best: Option<(Id, int, int)>,
) -> Option<(Id, int, int)>
    decreases reg.len() - i,
{
    if i < 0 || i >= reg.len() {
        best
    } else {
        let e = reg[i];
        let next = if e.0 == fid {
            best
        } else {
            let d = spec_distances(frect, e.1, dir);
            if d.0 < 0 {
                best
            } else {
                match best {
                    Option::None => Option::Some((e.0, d.0, d.1)),
                    Option::Some((bid, bpd, bsd)) => if spec_beats(d.0, d.1, bpd, bsd) {
                        Option::Some((e.0, d.0, d.1))
                    } else {
                        best
                    },
                }
            }
        };
        spec_best_from(reg, i + 1, fid, frect, dir, next)
    }
}

/// The last registration index of `id`, if any (a re-registration supersedes
/// earlier ones).
pub open spec fn spec_find_last(reg: Seq<(Id, Rect)>, id: Id) -> Option<int>
    decreases reg.len(),
{
    if reg.len() == 0 {
        Option::None
    } else if reg.last().0 == id {
        Option::Some(reg.len() - 1)
    } else {
        spec_find_last(reg.drop_last(), id)
    }
}

/// The identity focused after a sequential step from `index` (wrapping).
pub open spec fn spec_seq_target(reg: Seq<(Id, Rect)>, index: int, forward: bool) -> Option<Id> {
    let n = reg.len() as int;
    if n == 0 {
        Option::None
    } else {
        let next = if forward {
            (index + 1) % n
        } else if index == 0 {
            n - 1
        } else {
            (index - 1) % n
        };
        Option::Some(reg[next].0)
    }
}

/// The focus record: the currently focused widget, the widget focused when
/// the frame began, and this frame's registry of interactive rectangles.
#[derive(Debug)]
pub struct Focus {
    focused: Option<(Id, Rect)>,
    last_focused: Option<Id>,
    registry: Vec<(Id, Rect)>,
}

impl Focus {
    pub closed spec fn spec_focused(self) -> Option<(Id, Rect)> {
        self.focused
    }

    pub closed spec fn spec_last_focused(self) -> Option<Id> {
        self.last_focused
    }

    pub closed spec fn spec_registry(self) -> Seq<(Id, Rect)> {
        self.registry@
    }

    pub fn new() -> (r: Self)
        ensures
            r.spec_focused() is None,
            r.spec_last_focused() is None,
            r.spec_registry() == Seq::<(Id, Rect)>::empty(),
    {
        Focus { focused: None, last_focused: None, registry: Vec::new() }
    }

    /// Register an interactive rectangle, in draw order.
    pub fn push_id(&mut self, id: Id, rect: Rect)
        ensures
            final(self).spec_registry() == old(self).spec_registry().push((id, rect)),
            final(self).spec_focused() == old(self).spec_focused(),
            final(self).spec_last_focused() == old(self).spec_last_focused(),
    {
        self.registry.push((id, rect));
    }

    pub fn focused_id(&self) -> (r: Option<Id>)
        ensures
            r == match self.spec_focused() {
                Some((id, _)) => Some(id),
                None => None::<Id>,
            },
    {
        match self.focused {
            Some((id, _)) => Some(id),
            None => None,
        }
    }

    pub fn last_focused_id(&self) -> (r: Option<Id>)
        ensures
            r == self.spec_last_focused(),
    {
        self.last_focused
    }

    /// If `id` is the focused widget, refresh its stored rectangle to this
    /// frame's; returns whether `id` holds focus.
    pub fn touch_focused(&mut self, id: Id, area: Rect) -> (r: bool)
        ensures
            r == match old(self).spec_focused() {
                Some((fid, _)) => fid == id,
                None => false,
            },
            final(self).spec_focused() == match old(self).spec_focused() {
                Some((fid, rect)) => if fid == id {
                    Some((fid, area))
                } else {
                    Some((fid, rect))
                },
                None => None::<(Id, Rect)>,
            },
            final(self).spec_last_focused() == old(self).spec_last_focused(),
            final(self).spec_registry() == old(self).spec_registry(),
    {
        match self.focused {
            Some((fid, _)) => {
                if fid == id {
                    self.focused = Some((fid, area));
                    true
                } else {
                    false
                }
            },
            None => false,
        }
    }

    /// The last registration of `id`, if any.
    fn find_last(&self, id: Id) -> (r: Option<(usize, Rect)>)
        ensures
            match r {
                Some((i, rect)) => (i as int) < self.spec_registry().len() && spec_find_last(
                    self.spec_registry(),
                    id,
                ) == Some(i as int) && rect == self.spec_registry()[i as int].1,
                None => spec_find_last(self.spec_registry(), id) is None,
            },
    {
        let n = self.registry.len();
        let mut i: usize = n;
        proof {
            assert(self.registry@.subrange(0, n as int) =~= self.registry@);
        }
        while i > 0
            invariant
                i <= n,
                n == self.registry@.len(),
                spec_find_last(self.registry@.subrange(0, i as int), id) == spec_find_last(
                    self.registry@,
                    id,
                ),
            decreases i,
        {
            i -= 1;
            proof {
                assert(self.registry@.subrange(0, i + 1).last() == self.registry@[i as int]);
                assert(self.registry@.subrange(0, i + 1).drop_last() =~= self.registry@.subrange(
                    0,
                    i as int,
                ));
            }
            if self.registry[i].0 == id {
                return Some((i, self.registry[i].1));
            }
        }
        proof {
            assert(self.registry@.subrange(0, 0) =~= Seq::<(Id, Rect)>::empty());
        }
        None
    }
}

/// What the focused widget and the frame-start record become when the
/// registry is consulted for `dir`: focus is dropped if its widget was not
/// re-registered; then a sequential or directional target is looked up; a
/// found target takes focus with its registered rectangle; with no target,
/// focus is unchanged. With nothing focused, any request focuses the first
/// registered widget.
pub open spec fn spec_resolved(
    reg: Seq<(Id, Rect)>,
    focused: Option<(Id, Rect)>,
    dir: NavDirection,
) -> (Option<(Id, Rect)>, Option<Id>) {
    let last1 = match focused {
        Option::Some((id, _)) => Option::Some(id),
        Option::None => Option::None,
    };
    let focused1 = match focused {
        Option::Some((fid, r)) => if spec_find_last(reg, fid) is Some {
            focused
        } else {
            Option::None
        },
        Option::None => Option::None,
    };
    let target: Option<Id> = match focused1 {
        Option::Some((fid, frect)) => match dir {
            NavDirection::Idle => Option::None,
            NavDirection::Forward => spec_seq_target(
                reg,
                spec_find_last(reg, fid).unwrap(),
                true,
            ),
            NavDirection::Backward => spec_seq_target(
                reg,
                spec_find_last(reg, fid).unwrap(),
                false,
            ),
            _ => match spec_best_from(reg, 0, fid, frect, dir, Option::None) {
                Option::Some((id, _, _)) => Option::Some(id),
                Option::None => Option::None,
            },
        },
        Option::None => if dir != NavDirection::Idle && reg.len() > 0 {
            Option::Some(reg[0].0)
        } else {
            Option::None
        },
    };
    let focused2 = match target {
        Option::Some(id) => match spec_find_last(reg, id) {
            Option::Some(i) => Option::Some((id, reg[i].1)),
            Option::None => Option::None,
        },
        Option::None => focused1,
    };
    (focused2, last1)
}

impl Focus {
    /// The midpoint of `rect`'s edge facing `dir`, scaled by two.
    fn edge_mid(rect: Rect, dir: NavDirection) -> (r: (i64, i64))
        ensures
            r.0 as int == spec_edge_mid(rect, dir).0,
            r.1 as int == spec_edge_mid(rect, dir).1,
    {
        let x2 = rect.x as i64 + rect.x.saturating_add(rect.width) as i64;
        let y2 = rect.y as i64 + rect.y.saturating_add(rect.height) as i64;
        match dir {
            NavDirection::Up => (x2, 2 * rect.y as i64),
            NavDirection::Down => (x2, 2 * rect.y.saturating_add(rect.height) as i64),
            NavDirection::Left => (2 * rect.x as i64, y2),
            NavDirection::Right => (2 * rect.x.saturating_add(rect.width) as i64, y2),
            _ => (x2, y2),
        }
    }

    /// The primary and secondary distances from the focused rectangle to a
    /// candidate, for `dir`.
    fn distances(frect: Rect, rect: Rect, dir: NavDirection) -> (r: (i64, i64))
        ensures
            r.0 as int == spec_distances(frect, rect, dir).0,
            r.1 as int == spec_distances(frect, rect, dir).1,
            -262140 <= r.0 <= 262140,
            -262140 <= r.1 <= 262140,
    {
        let c = Self::edge_mid(frect, dir);
        let opposite = match dir {
            NavDirection::Up => NavDirection::Down,
            NavDirection::Down => NavDirection::Up,
            NavDirection::Left => NavDirection::Right,
            NavDirection::Right => NavDirection::Left,
            d => d,
        };
        let e = Self::edge_mid(rect, opposite);
        match dir {
            NavDirection::Up => (c.1 - e.1, if e.0 >= c.0 { e.0 - c.0 } else { c.0 - e.0 }),
            NavDirection::Down => (e.1 - c.1, if e.0 >= c.0 { e.0 - c.0 } else { c.0 - e.0 }),
            NavDirection::Left => (c.0 - e.0, if e.1 >= c.1 { e.1 - c.1 } else { c.1 - e.1 }),
            NavDirection::Right => (e.0 - c.0, if e.1 >= c.1 { e.1 - c.1 } else { c.1 - e.1 }),
            _ => (0, 0),
        }
    }

    /// The combined directional score `1.5 * sd^2 + pd^2`, scaled by two.
    fn score(pd: i64, sd: i64) -> (r: i64)
        requires
            -262140 <= pd <= 262140,
            -262140 <= sd <= 262140,
        ensures
            r as int == 3 * (sd * sd) + 2 * (pd * pd),
    {
        proof {
            assert(0 <= sd as int * sd as int <= 262140 * 262140) by (nonlinear_arith)
                requires
                    -262140 <= sd as int <= 262140,
            ;
            assert(0 <= pd as int * pd as int <= 262140 * 262140) by (nonlinear_arith)
                requires
                    -262140 <= pd as int <= 262140,
            ;
        }
        let s2 = sd * sd;
        let p2 = pd * pd;
        proof {
            assert(s2 as int == sd as int * sd as int);
            assert(p2 as int == pd as int * pd as int);
        }
        3 * s2 + 2 * p2
    }

    /// The best directional candidate over the whole registry.
    fn best_candidate(&self, fid: Id, frect: Rect, dir: NavDirection) -> (r: Option<Id>)
        ensures
            r == match spec_best_from(self.spec_registry(), 0, fid, frect, dir, Option::None) {
                Option::Some((id, _, _)) => Option::Some(id),
                Option::None => Option::None::<Id>,
            },
    {
        let n = self.registry.len();
        let mut best: Option<(Id, i64, i64)> = None;
        let mut i: usize = 0;
        while i < n
            invariant
                i <= n,
                n == self.registry@.len(),
                match best {
                    Some((bid, bpd, bsd)) => 0 <= bpd <= 262140 && 0 <= bsd <= 262140,
                    None => true,
                },
                spec_best_from(self.spec_registry(), i as int, fid, frect, dir, match best {
                    Some((bid, bpd, bsd)) => Option::Some((bid, bpd as int, bsd as int)),
                    None => Option::None,
                }) == spec_best_from(self.spec_registry(), 0, fid, frect, dir, Option::None),
            decreases n - i,
        {
            let e = self.registry[i];
            if !(e.0 == fid) {
                let d = Self::distances(frect, e.1, dir);
                if d.0 >= 0 {
                    proof {
                        let sd = spec_distances(frect, e.1, dir);
                        assert(0 <= sd.0 <= 262140 && 0 <= sd.1 <= 262140);
                    }
                    match best {
                        None => {
                            best = Some((e.0, d.0, d.1));
                        },
                        Some((bid, bpd, bsd)) => {
                            let beats = if d.0 == bpd {
                                d.1 < bsd
                            } else {
                                Self::score(d.0, d.1) < Self::score(bpd, bsd)
                            };
                            if beats {
                                best = Some((e.0, d.0, d.1));
                            }
                        },
                    }
                }
            }
            i += 1;
        }
        match best {
            Some((id, _, _)) => Some(id),
            None => None,
        }
    }

    /// Consume this frame's registry to resolve a pending navigation request,
    /// then clear the registry; [`spec_resolved`] gives the exact outcome.
    pub fn resolve(&mut self, dir: NavDirection)
        ensures
            final(self).spec_focused() == spec_resolved(
                old(self).spec_registry(),
                old(self).spec_focused(),
                dir,
            ).0,
            final(self).spec_last_focused() == spec_resolved(
                old(self).spec_registry(),
                old(self).spec_focused(),
                dir,
            ).1,
            final(self).spec_registry() == Seq::<(Id, Rect)>::empty(),
    {
        self.last_focused = match self.focused {
            Some((id, _)) => Some(id),
            None => None,
        };

        let mut focused_index: Option<usize> = None;
        match self.focused {
            Some((fid, _)) => {
                match self.find_last(fid) {
                    Some((i, _)) => {
                        focused_index = Some(i);
                    },
                    None => {
                        self.focused = None;
                    },
                }
            },
            None => {},
        }

        let target: Option<Id> = match self.focused {
            Some((fid, frect)) => {
                match dir {
                    NavDirection::Idle => None,
                    NavDirection::Forward | NavDirection::Backward => {
                        let n = self.registry.len();
                        match focused_index {
                            Some(index) => {
                                if n == 0 {
                                    None
                                } else {
                                    let next = match dir {
                                        NavDirection::Forward => (index + 1) % n,
                                        _ => if index == 0 {
                                            n - 1
                                        } else {
                                            (index - 1) % n
                                        },
                                    };
                                    Some(self.registry[next].0)
                                }
                            },
                            None => None,
                        }
                    },
                    _ => self.best_candidate(fid, frect, dir),
                }
            },
            None => {
                if !(dir == NavDirection::Idle) && self.registry.len() > 0 {
                    Some(self.registry[0].0)
                } else {
                    None
                }
            },
        };

        match target {
            Some(id) => {
                match self.find_last(id) {
                    Some((_, rect)) => {
                        self.focused = Some((id, rect));
                    },
                    None => {
                        self.focused = None;
                    },
                }
            },
            None => {},
        }

        self.registry.clear();
    }
}

} // verus!
