//! The authoritative camera model.
//!
//! The view state owns the focus point, zoom factor, camera extents, the
//! aspect lock, the last known viewport size, and the derived axis ranges.
//! Transitions are exact rational arithmetic; a transition whose reduced
//! result would not fit the representable range leaves the affected field
//! unchanged (the analogue of the accepted float-range exhaustion at extreme
//! zoom), and every transition is given by a deterministic specification
//! function.

use vstd::prelude::*;
use crate::events::{view_event_wf, ViewEvent};
use crate::rat::{
    in_i128, lemma_mul_bound, lemma_mul_pos, lemma_q_reduce, q_add, q_div, q_from_int, q_mul,
    q_pos, q_reduce, q_small, q_sub, q_wf, Q, Rat, RAT_LIMIT,
};

verus! {

/// The camera model: focus, zoom, camera extents, aspect lock, viewport size
/// and the derived axis ranges.
#[derive(Clone, Copy, Debug, PartialEq, Eq, Structural)]
pub struct ViewState {
    /// World-space center of the view.
    pub focus_x: Rat,
    pub focus_y: Rat,
    /// Multiplicative scale factor; always positive.
    pub zoom: Rat,
    /// World-space extents at zoom 1; always positive.
    pub camera_width: Rat,
    pub camera_height: Rat,
    /// When set, editing one camera dimension or resizing the viewport
    /// recomputes the other camera dimension.
    pub lock_aspect_ratio: bool,
    /// Last known render-surface size in pixels.
    pub viewport_width: i32,
    pub viewport_height: i32,
    /// Derived axis ranges; recomputed from the fields above, never treated
    /// as independent truth.
    pub axis_x_min: Rat,
    pub axis_x_max: Rat,
    pub axis_y_min: Rat,
    pub axis_y_max: Rat,
}

/// The executable rational holding a (representable) specification rational.
pub open spec fn rat_of(q: Q) -> Rat {
    Rat { num: q.num as i128, den: q.den as i128 }
}

/// Whether an exact transition result is representable once reduced.
pub open spec fn representable(exact: Q) -> bool {
    q_small(q_reduce(exact))
}

/// The stored outcome of an exact transition result: the reduced value when
/// representable, otherwise the prior value.
pub open spec fn commit(exact: Q, prior: Rat) -> Rat {
    if representable(exact) {
        rat_of(q_reduce(exact))
    } else {
        prior
    }
}

/// The world-space focus delta of a pan by `d` pixels along an axis whose
/// viewport extent is `viewport` pixels, at zoom `zoom`.
pub open spec fn pan_delta(d: int, viewport: int, zoom: Q) -> Q {
    q_div(q_div(q_from_int(d), q_from_int(viewport)), zoom)
}

impl ViewState {
    /// Well-formedness: positive denominators everywhere, positive zoom and
    /// camera extents, and every transition operand small enough that exact
    /// arithmetic on it cannot overflow.
    pub open spec fn wf(self) -> bool {
        &&& q_small(self.focus_x@)
        &&& q_small(self.focus_y@)
        &&& q_small(self.zoom@) && q_pos(self.zoom@)
        &&& q_small(self.camera_width@) && q_pos(self.camera_width@)
        &&& q_small(self.camera_height@) && q_pos(self.camera_height@)
        &&& q_wf(self.axis_x_min@)
        &&& q_wf(self.axis_x_max@)
        &&& q_wf(self.axis_y_min@)
        &&& q_wf(self.axis_y_max@)
    }

    /// The state after one view event: the deterministic transition function.
    pub open spec fn step(self, e: ViewEvent) -> ViewState {
        match e {
            ViewEvent::Zoom(f) => ViewState {
                zoom: commit(q_mul(self.zoom@, f@), self.zoom),
                ..self
            },
            ViewEvent::UnZoom(f) => ViewState {
                zoom: commit(q_div(self.zoom@, f@), self.zoom),
                ..self
            },
            ViewEvent::Pan(dx, dy) => ViewState {
                focus_x: if self.viewport_width > 0 {
                    commit(
                        q_add(
                            self.focus_x@,
                            pan_delta(dx as int, self.viewport_width as int, self.zoom@),
                        ),
                        self.focus_x,
                    )
                } else {
                    self.focus_x
                },
                focus_y: if self.viewport_height > 0 {
                    commit(
                        q_add(
                            self.focus_y@,
                            pan_delta(dy as int, self.viewport_height as int, self.zoom@),
                        ),
                        self.focus_y,
                    )
                } else {
                    self.focus_y
                },
                ..self
            },
            ViewEvent::WindowResize(w, h) => ViewState {
                viewport_width: w,
                viewport_height: h,
                camera_width: if self.lock_aspect_ratio && w > 0 && h > 0 {
                    commit(
                        q_mul(q_div(q_from_int(w as int), q_from_int(h as int)), self.camera_height@),
                        self.camera_width,
                    )
                } else {
                    self.camera_width
                },
                ..self
            },
            ViewEvent::Quit => self,
        }
    }

    /// Mutate the camera model by one user-intent event.
    ///
    /// `Zoom` multiplies the zoom factor, `UnZoom` divides it, `Pan` moves the
    /// focus by the pixel delta normalized by the viewport size and the
    /// current zoom, `WindowResize` records the new surface size and, under
    /// the aspect lock, recomputes the camera width; a zero or negative
    /// surface dimension skips that recomputation.  An event the model does
    /// not consume (`Quit`) leaves it unchanged.
    pub fn apply(&mut self, e: &ViewEvent)
        requires
            old(self).wf(),
            view_event_wf(*e),
        ensures
            *final(self) == old(self).step(*e),
            final(self).wf(),
    {
        match e {
            ViewEvent::Zoom(f) => {
                proof {
                    lemma_mul_bound(
                        self.zoom@.num,
                        f@.num,
                        RAT_LIMIT as int,
                        RAT_LIMIT as int,
                    );
                    lemma_mul_bound(
                        self.zoom@.den,
                        f@.den,
                        RAT_LIMIT as int,
                        RAT_LIMIT as int,
                    );
                }
                let exact = self.zoom.times(f);
                proof {
                    lemma_q_reduce(exact@);
                    lemma_mul_pos(self.zoom@.num, f@.num);
                }
                self.zoom = commit_rat(exact, self.zoom);
            },
            ViewEvent::UnZoom(f) => {
                proof {
                    lemma_mul_bound(
                        self.zoom@.num,
                        f@.den,
                        RAT_LIMIT as int,
                        RAT_LIMIT as int,
                    );
                    lemma_mul_bound(
                        self.zoom@.den,
                        f@.num,
                        RAT_LIMIT as int,
                        RAT_LIMIT as int,
                    );
                }
                let exact = self.zoom.divided_by(f);
                proof {
                    lemma_q_reduce(exact@);
                    lemma_mul_pos(self.zoom@.num, f@.den);
                }
                self.zoom = commit_rat(exact, self.zoom);
            },
            ViewEvent::Pan(dx, dy) => {
                if self.viewport_width > 0 {
                    let d = self.pan_delta_exec(*dx, self.viewport_width);
                    proof {
                        lemma_pan_sum_bounds(self.focus_x@, d@);
                    }
                    let exact = self.focus_x.plus(&d);
                    proof {
                        lemma_q_reduce(exact@);
                    }
                    self.focus_x = commit_rat(exact, self.focus_x);
                }
                if self.viewport_height > 0 {
                    let d = self.pan_delta_exec(*dy, self.viewport_height);
                    proof {
                        lemma_pan_sum_bounds(self.focus_y@, d@);
                    }
                    let exact = self.focus_y.plus(&d);
                    proof {
                        lemma_q_reduce(exact@);
                    }
                    self.focus_y = commit_rat(exact, self.focus_y);
                }
            },
            ViewEvent::WindowResize(w, h) => {
                if self.lock_aspect_ratio && *w > 0 && *h > 0 {
                    let ratio = Rat::from_int(*w as i128).divided_by(&Rat::from_int(*h as i128));
                    proof {
                        lemma_mul_bound(
                            ratio@.num,
                            self.camera_height@.num,
                            0x8000_0000,
                            RAT_LIMIT as int,
                        );
                        lemma_mul_bound(
                            ratio@.den,
                            self.camera_height@.den,
                            0x8000_0000,
                            RAT_LIMIT as int,
                        );
                    }
                    let exact = ratio.times(&self.camera_height);
                    proof {
                        lemma_q_reduce(exact@);
                        lemma_mul_pos(ratio@.num, self.camera_height@.num);
                    }
                    self.camera_width = commit_rat(exact, self.camera_width);
                }
                self.viewport_width = *w;
                self.viewport_height = *h;
            },
            ViewEvent::Quit => {},
        }
    }

    /// The documented startup state: focus at the origin, zoom 1, a 2-by-2
    /// camera, aspect lock on, an 800-by-600 viewport, and unit axis ranges.
    pub open spec fn initial() -> ViewState {
        ViewState {
            focus_x: Rat { num: 0, den: 1 },
            focus_y: Rat { num: 0, den: 1 },
            zoom: Rat { num: 1, den: 1 },
            camera_width: Rat { num: 2, den: 1 },
            camera_height: Rat { num: 2, den: 1 },
            lock_aspect_ratio: true,
            viewport_width: 800,
            viewport_height: 600,
            axis_x_min: Rat { num: -1i128, den: 1 },
            axis_x_max: Rat { num: 1, den: 1 },
            axis_y_min: Rat { num: -1i128, den: 1 },
            axis_y_max: Rat { num: 1, den: 1 },
        }
    }

    /// The state with both axis ranges freshly derived from focus, camera
    /// extents and zoom: `focus +- extent / (2 * zoom)` per axis.
    pub open spec fn with_ranges(self) -> ViewState {
        let denom = q_mul(self.zoom@, q_from_int(2));
        let half_w = q_div(self.camera_width@, denom);
        let half_h = q_div(self.camera_height@, denom);
        ViewState {
            axis_x_min: rat_of(q_sub(self.focus_x@, half_w)),
            axis_x_max: rat_of(q_add(self.focus_x@, half_w)),
            axis_y_min: rat_of(q_sub(self.focus_y@, half_h)),
            axis_y_max: rat_of(q_add(self.focus_y@, half_h)),
            ..self
        }
    }

    /// Derive both axis ranges from the current focus, camera extents and
    /// zoom.  The ranges are always computed fresh, never from a previous
    /// range, so no error accumulates and a second call yields identical
    /// values.
    pub fn recompute_axis_ranges(&mut self)
        requires
            old(self).wf(),
        ensures
            *final(self) == old(self).with_ranges(),
            final(self).wf(),
    {
        proof {
            lemma_mul_bound(self.zoom@.num, 2, RAT_LIMIT as int, 2);
            lemma_mul_bound(self.zoom@.den, 1, RAT_LIMIT as int, 1);
            lemma_mul_pos(self.zoom@.num, 2);
        }
        let denom = self.zoom.times(&Rat::from_int(2));
        proof {
            lemma_half_extent_bounds(self.camera_width@, denom@);
            lemma_half_extent_bounds(self.camera_height@, denom@);
        }
        let half_w = self.camera_width.divided_by(&denom);
        let half_h = self.camera_height.divided_by(&denom);
        proof {
            lemma_range_sum_bounds(self.focus_x@, half_w@);
            lemma_range_sum_bounds(self.focus_y@, half_h@);
        }
        self.axis_x_min = self.focus_x.minus(&half_w);
        self.axis_x_max = self.focus_x.plus(&half_w);
        self.axis_y_min = self.focus_y.minus(&half_h);
        self.axis_y_max = self.focus_y.plus(&half_h);
    }

    /// The state after a direct focus edit from the parameter panel.
    pub open spec fn with_focus(self, x: Rat, y: Rat) -> ViewState {
        ViewState { focus_x: x, focus_y: y, ..self }
    }

    /// Write a focus point edited in the parameter panel.
    pub fn set_focus(&mut self, x: Rat, y: Rat)
        requires
            old(self).wf(),
            q_small(x@),
            q_small(y@),
        ensures
            *final(self) == old(self).with_focus(x, y),
            final(self).wf(),
    {
        self.focus_x = x;
        self.focus_y = y;
    }

    /// The state after a direct zoom edit from the parameter panel.
    pub open spec fn with_zoom(self, z: Rat) -> ViewState {
        ViewState { zoom: z, ..self }
    }

    /// Write a zoom factor edited in the parameter panel; the factor must be
    /// positive, as the model's invariant demands.
    pub fn set_zoom(&mut self, z: Rat)
        requires
            old(self).wf(),
            q_small(z@),
            q_pos(z@),
        ensures
            *final(self) == old(self).with_zoom(z),
            final(self).wf(),
    {
        self.zoom = z;
    }

    /// The state after the panel edits the camera width: the width is
    /// written, and under the aspect lock the height is recomputed as
    /// `(viewport_height / viewport_width) * width`; a zero or negative
    /// viewport dimension skips the recomputation.
    pub open spec fn with_camera_width(self, w: Rat) -> ViewState {
        ViewState {
            camera_width: w,
            camera_height: if self.lock_aspect_ratio && self.viewport_width > 0
                && self.viewport_height > 0 {
                commit(
                    q_mul(
                        q_div(
                            q_from_int(self.viewport_height as int),
                            q_from_int(self.viewport_width as int),
                        ),
                        w@,
                    ),
                    self.camera_height,
                )
            } else {
                self.camera_height
            },
            ..self
        }
    }

    /// Write a camera width edited in the parameter panel, keeping the
    /// displayed aspect ratio when the lock is set.
    pub fn set_camera_width(&mut self, w: Rat)
        requires
            old(self).wf(),
            q_small(w@),
            q_pos(w@),
        ensures
            *final(self) == old(self).with_camera_width(w),
            final(self).wf(),
    {
        if self.lock_aspect_ratio && self.viewport_width > 0 && self.viewport_height > 0 {
            let ratio = Rat::from_int(self.viewport_height as i128).divided_by(
                &Rat::from_int(self.viewport_width as i128),
            );
            proof {
                lemma_mul_bound(ratio@.num, w@.num, 0x8000_0000, RAT_LIMIT as int);
                lemma_mul_bound(ratio@.den, w@.den, 0x8000_0000, RAT_LIMIT as int);
            }
            let exact = ratio.times(&w);
            proof {
                lemma_q_reduce(exact@);
                lemma_mul_pos(ratio@.num, w@.num);
            }
            self.camera_height = commit_rat(exact, self.camera_height);
        }
        self.camera_width = w;
    }

    /// The state after the panel edits the camera height; mirror image of
    /// `with_camera_width`.
    pub open spec fn with_camera_height(self, h: Rat) -> ViewState {
        ViewState {
            camera_height: h,
            camera_width: if self.lock_aspect_ratio && self.viewport_width > 0
                && self.viewport_height > 0 {
                commit(
                    q_mul(
                        q_div(
                            q_from_int(self.viewport_width as int),
                            q_from_int(self.viewport_height as int),
                        ),
                        h@,
                    ),
                    self.camera_width,
                )
            } else {
                self.camera_width
            },
            ..self
        }
    }

    /// Write a camera height edited in the parameter panel, keeping the
    /// displayed aspect ratio when the lock is set.
    pub fn set_camera_height(&mut self, h: Rat)
        requires
            old(self).wf(),
            q_small(h@),
            q_pos(h@),
        ensures
            *final(self) == old(self).with_camera_height(h),
            final(self).wf(),
    {
        if self.lock_aspect_ratio && self.viewport_width > 0 && self.viewport_height > 0 {
            let ratio = Rat::from_int(self.viewport_width as i128).divided_by(
                &Rat::from_int(self.viewport_height as i128),
            );
            proof {
                lemma_mul_bound(ratio@.num, h@.num, 0x8000_0000, RAT_LIMIT as int);
                lemma_mul_bound(ratio@.den, h@.den, 0x8000_0000, RAT_LIMIT as int);
            }
            let exact = ratio.times(&h);
            proof {
                lemma_q_reduce(exact@);
                lemma_mul_pos(ratio@.num, h@.num);
            }
            self.camera_width = commit_rat(exact, self.camera_width);
        }
        self.camera_height = h;
    }

    /// The state after the panel toggles the aspect lock: enabling the lock
    /// recomputes the camera height from the width and the viewport shape.
    pub open spec fn with_lock_aspect_ratio(self, locked: bool) -> ViewState {
        ViewState {
            lock_aspect_ratio: locked,
            camera_height: if locked && self.viewport_width > 0 && self.viewport_height > 0 {
                commit(
                    q_mul(
                        q_div(
                            q_from_int(self.viewport_height as int),
                            q_from_int(self.viewport_width as int),
                        ),
                        self.camera_width@,
                    ),
                    self.camera_height,
                )
            } else {
                self.camera_height
            },
            ..self
        }
    }

    /// Toggle the aspect lock from the parameter panel.
    pub fn set_lock_aspect_ratio(&mut self, locked: bool)
        requires
            old(self).wf(),
        ensures
            *final(self) == old(self).with_lock_aspect_ratio(locked),
            final(self).wf(),
    {
        if locked && self.viewport_width > 0 && self.viewport_height > 0 {
            let ratio = Rat::from_int(self.viewport_height as i128).divided_by(
                &Rat::from_int(self.viewport_width as i128),
            );
            proof {
                lemma_mul_bound(ratio@.num, self.camera_width@.num, 0x8000_0000, RAT_LIMIT as int);
                lemma_mul_bound(ratio@.den, self.camera_width@.den, 0x8000_0000, RAT_LIMIT as int);
            }
            let exact = ratio.times(&self.camera_width);
            proof {
                lemma_q_reduce(exact@);
                lemma_mul_pos(ratio@.num, self.camera_width@.num);
            }
            self.camera_height = commit_rat(exact, self.camera_height);
        }
        self.lock_aspect_ratio = locked;
    }

    /// The exact pan delta `d / viewport / zoom` for one axis.
    fn pan_delta_exec(&self, d: i64, viewport: i32) -> (r: Rat)
        requires
            self.wf(),
            viewport > 0,
            -(RAT_LIMIT as int) <= d <= RAT_LIMIT as int,
        ensures
            r@ == pan_delta(d as int, viewport as int, self.zoom@),
            q_wf(r@),
            -(RAT_LIMIT as int) * (RAT_LIMIT as int) <= r@.num <= (RAT_LIMIT as int) * (
            RAT_LIMIT as int),
            0 < r@.den <= 0x8000_0000 * (RAT_LIMIT as int),
    {
        let d1 = Rat::from_int(d as i128).divided_by(&Rat::from_int(viewport as i128));
        proof {
            lemma_mul_bound(d1@.num, self.zoom@.den, RAT_LIMIT as int, RAT_LIMIT as int);
            lemma_mul_bound(d1@.den, self.zoom@.num, 0x8000_0000, RAT_LIMIT as int);
            lemma_mul_pos(d1@.den, self.zoom@.num);
        }
        d1.divided_by(&self.zoom)
    }
}

impl Default for ViewState {
    /// The documented startup state.
    fn default() -> (s: ViewState)
        ensures
            s == ViewState::initial(),
            s.wf(),
    {
        ViewState {
            focus_x: Rat::from_int(0),
            focus_y: Rat::from_int(0),
            zoom: Rat::from_int(1),
            camera_width: Rat::from_int(2),
            camera_height: Rat::from_int(2),
            lock_aspect_ratio: true,
            viewport_width: 800,
            viewport_height: 600,
            axis_x_min: Rat::from_int(-1),
            axis_x_max: Rat::from_int(1),
            axis_y_min: Rat::from_int(-1),
            axis_y_max: Rat::from_int(1),
        }
    }
}

/// Bounds needed to divide a camera extent by twice the zoom without
/// overflow.
proof fn lemma_half_extent_bounds(extent: Q, denom: Q)
    requires
        q_small(extent),
        q_pos(denom),
        -2 * (RAT_LIMIT as int) <= denom.num <= 2 * (RAT_LIMIT as int),
        0 < denom.den <= RAT_LIMIT as int,
    ensures
        in_i128(extent.num * denom.den),
        in_i128(extent.den * denom.num),
        q_wf(q_div(extent, denom)),
        -(RAT_LIMIT as int) * (RAT_LIMIT as int) <= q_div(extent, denom).num <= (
        RAT_LIMIT as int) * (RAT_LIMIT as int),
        0 < q_div(extent, denom).den <= 2 * (RAT_LIMIT as int) * (RAT_LIMIT as int),
{
    lemma_mul_bound(extent.num, denom.den, RAT_LIMIT as int, RAT_LIMIT as int);
    lemma_mul_bound(extent.den, denom.num, RAT_LIMIT as int, 2 * (RAT_LIMIT as int));
    lemma_mul_pos(extent.den, denom.num);
}

/// Bounds needed to add or subtract a half extent from a focus coordinate
/// without overflow.
proof fn lemma_range_sum_bounds(f: Q, half: Q)
    requires
        q_small(f),
        q_wf(half),
        -(RAT_LIMIT as int) * (RAT_LIMIT as int) <= half.num <= (RAT_LIMIT as int) * (
        RAT_LIMIT as int),
        0 < half.den <= 2 * (RAT_LIMIT as int) * (RAT_LIMIT as int),
    ensures
        in_i128(f.num * half.den),
        in_i128(half.num * f.den),
        in_i128(q_add(f, half).num),
        in_i128(q_add(f, half).den),
        in_i128(q_sub(f, half).num),
        in_i128(q_sub(f, half).den),
{
    lemma_mul_bound(f.num, half.den, RAT_LIMIT as int, 2 * (RAT_LIMIT as int) * (RAT_LIMIT as int));
    lemma_mul_bound(
        half.num,
        f.den,
        (RAT_LIMIT as int) * (RAT_LIMIT as int),
        RAT_LIMIT as int,
    );
    lemma_mul_bound(f.den, half.den, RAT_LIMIT as int, 2 * (RAT_LIMIT as int) * (RAT_LIMIT as int));
}

/// Bounds needed to add a pan delta to a focus coordinate without overflow.
proof fn lemma_pan_sum_bounds(f: Q, d: Q)
    requires
        q_small(f),
        q_wf(d),
        -(RAT_LIMIT as int) * (RAT_LIMIT as int) <= d.num <= (RAT_LIMIT as int) * (
        RAT_LIMIT as int),
        0 < d.den <= 0x8000_0000 * (RAT_LIMIT as int),
    ensures
        in_i128(f.num * d.den),
        in_i128(d.num * f.den),
        in_i128(q_add(f, d).num),
        in_i128(q_add(f, d).den),
{
    lemma_mul_bound(f.num, d.den, RAT_LIMIT as int, 0x8000_0000 * (RAT_LIMIT as int));
    lemma_mul_bound(d.num, f.den, (RAT_LIMIT as int) * (RAT_LIMIT as int), RAT_LIMIT as int);
    lemma_mul_bound(f.den, d.den, RAT_LIMIT as int, 0x8000_0000 * (RAT_LIMIT as int));
}

/// Reduce an exact transition result and store it only when representable.
fn commit_rat(exact: Rat, prior: Rat) -> (r: Rat)
    requires
        q_wf(exact@),
        exact@.num > i128::MIN as int,
    ensures
        r == commit(exact@, prior),
{
    let red = exact.reduced();
    if red.is_small() {
        red
    } else {
        prior
    }
}

} // verus!
