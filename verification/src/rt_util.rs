//! The command interpreter and its runtime state.
//!
//! A `RunTime` owns the current view/style configuration, the queue of
//! pending curves (each bound to the style snapshot taken when it was
//! enqueued), and the output sequence counter. Configuration commands mutate
//! the current state only; `show` samples every queued curve against the live
//! axis ranges, returns the styled point batches for a drawing surface,
//! clears the queue and advances the counter.
use vstd::prelude::*;

use crate::fbits::{lt_bits, lt64, ZERO_BITS, ONE_BITS};
use crate::sample::{ForStruct, curve_points, render_curve};
use crate::style::Style;

verus! {

/// Bit pattern of 10.0, the default upper x bound.
pub const DEFAULT_X_HI_BITS: u64 = 0x4024000000000000;

/// Bit pattern of -4.0, the default lower y bound.
pub const DEFAULT_Y_LO_BITS: u64 = 0xC010000000000000;

/// Bit pattern of 4.0, the default upper y bound.
pub const DEFAULT_Y_HI_BITS: u64 = 0x4010000000000000;

/// Bit pattern of 2.0, the default point size.
pub const DEFAULT_SIZE_BITS: u64 = 0x4000000000000000;

/// One parsed command, as the grammar front end delivers it. All scalars are
/// binary64 bit patterns.
#[derive(Debug)]
pub enum DrawableKind {
    DrawableFor(ForStruct),
    Rot(u64),
    Origin(u64, u64),
    Scale(u64, u64),
    Show,
    Exit,
    XRange(u64, u64),
    YRange(u64, u64),
    DotSize(u64),
    Color(String),
}

/// The styled points one queued curve contributed to a `show`.
pub struct PlotBatch {
    pub points: Vec<(u64, u64)>,
    pub size: u64,
    pub color: String,
}

/// What applying one command did: a state update, a rejected curve, the
/// rendered batches of a `show`, or the request to end the session.
pub enum CommandEffect {
    Updated,
    Rejected,
    Rendered(Vec<PlotBatch>),
    Exit,
}

/// The interpreter state.
pub struct RunTime {
    pub origin: (u64, u64),
    pub rot: u64,
    pub scale: (u64, u64),
    pub graph: Vec<(ForStruct, Style)>,
    pub x_range: (u64, u64),
    pub y_range: (u64, u64),
    pub size: u64,
    pub color: String,
    pub pic_num: u32,
}

/// The style a curve enqueued now would be bound to.
pub open spec fn current_style(rt: RunTime) -> Style {
    Style { origin: rt.origin, rot: rt.rot, scale: rt.scale, size: rt.size, color: rt.color }
}

/// Whether a batch is exactly what one queue entry contributes under the
/// given live window: the entry's clipped points, point size and color.
pub open spec fn batch_matches(
    b: PlotBatch,
    entry: (ForStruct, Style),
    xr: (u64, u64),
    yr: (u64, u64),
) -> bool {
    &&& b.points@ == curve_points(entry.0, entry.1, xr, yr)
    &&& b.size == entry.1.size
    &&& b.color@ == entry.1.color@
}

impl RunTime {
    /// A fresh interpreter: identity transform, ranges x in [0, 10] and
    /// y in [-4, 4], point size 2, color blue, empty queue, counter 0.
    pub fn new() -> (rt: RunTime)
        ensures
            rt.origin == (ZERO_BITS, ZERO_BITS),
            rt.rot == ZERO_BITS,
            rt.scale == (ONE_BITS, ONE_BITS),
            rt.graph@.len() == 0,
            rt.x_range == (ZERO_BITS, DEFAULT_X_HI_BITS),
            rt.y_range == (DEFAULT_Y_LO_BITS, DEFAULT_Y_HI_BITS),
            rt.size == DEFAULT_SIZE_BITS,
            rt.color@ == "blue"@,
            rt.pic_num == 0,
    {
        RunTime {
            origin: (ZERO_BITS, ZERO_BITS),
            rot: ZERO_BITS,
            scale: (ONE_BITS, ONE_BITS),
            graph: Vec::new(),
            x_range: (ZERO_BITS, DEFAULT_X_HI_BITS),
            y_range: (DEFAULT_Y_LO_BITS, DEFAULT_Y_HI_BITS),
            size: DEFAULT_SIZE_BITS,
            color: String::from_str("blue"),
            pic_num: 0,
        }
    }

    /// Sets the translation applied after rotation.
    pub fn set_origin(&mut self, origin: (u64, u64))
        ensures
            *final(self) == (RunTime { origin, ..*old(self) }),
    {
        self.origin = origin;
    }

    /// Sets the rotation angle, in radians.
    pub fn set_rot(&mut self, rot: u64)
        ensures
            *final(self) == (RunTime { rot, ..*old(self) }),
    {
        self.rot = rot;
    }

    /// Sets the per-axis scale factors.
    pub fn set_scale(&mut self, scale: (u64, u64))
        ensures
            *final(self) == (RunTime { scale, ..*old(self) }),
    {
        self.scale = scale;
    }

    /// Sets the visible x range. Read live at show time, never snapshotted.
    pub fn set_x_range(&mut self, x_range: (u64, u64))
        ensures
            *final(self) == (RunTime { x_range, ..*old(self) }),
    {
        self.x_range = x_range;
    }

    /// Sets the visible y range. Read live at show time, never snapshotted.
    pub fn set_y_range(&mut self, y_range: (u64, u64))
        ensures
            *final(self) == (RunTime { y_range, ..*old(self) }),
    {
        self.y_range = y_range;
    }

    /// Sets the point size for curves enqueued from now on.
    pub fn set_size(&mut self, size: u64)
        ensures
            *final(self) == (RunTime { size, ..*old(self) }),
    {
        self.size = size;
    }

    /// Sets the color for curves enqueued from now on.
    pub fn set_color(&mut self, color: String)
        ensures
            *final(self) == (RunTime { color, ..*old(self) }),
    {
        self.color = color;
    }

    /// Enqueues a curve bound to a snapshot of the current style, provided
    /// its step is positive; a zero, negative or NaN step is rejected so that
    /// sampling stays finite. The axis ranges are not snapshotted.
    pub fn for_draw(&mut self, stat: ForStruct) -> (accepted: bool)
        ensures
            accepted == lt_bits(ZERO_BITS, stat.step),
            accepted ==> final(self).graph@ == old(self).graph@.push(
                (stat, current_style(*old(self))),
            ),
            !accepted ==> final(self).graph@ == old(self).graph@,
            final(self).origin == old(self).origin,
            final(self).rot == old(self).rot,
            final(self).scale == old(self).scale,
            final(self).x_range == old(self).x_range,
            final(self).y_range == old(self).y_range,
            final(self).size == old(self).size,
            final(self).color == old(self).color,
            final(self).pic_num == old(self).pic_num,
    {
        if lt64(ZERO_BITS, stat.step) {
            let snapshot = Style {
                origin: self.origin,
                rot: self.rot,
                scale: self.scale,
                size: self.size,
                color: self.color.clone(),
            };
            self.graph.push((stat, snapshot));
            true
        } else {
            false
        }
    }

    /// Renders every queued curve against the live axis ranges, in queue
    /// order, then clears the queue and advances the output sequence counter
    /// by exactly one — also when the queue is empty.
    pub fn show(&mut self) -> (batches: Vec<PlotBatch>)
        requires
            old(self).pic_num < u32::MAX,
        ensures
            batches@.len() == old(self).graph@.len(),
            forall|i: int|
                0 <= i < batches@.len() ==> batch_matches(
                    #[trigger] batches@[i],
                    old(self).graph@[i],
                    old(self).x_range,
                    old(self).y_range,
                ),
            final(self).graph@.len() == 0,
            final(self).pic_num == old(self).pic_num + 1,
            final(self).origin == old(self).origin,
            final(self).rot == old(self).rot,
            final(self).scale == old(self).scale,
            final(self).x_range == old(self).x_range,
            final(self).y_range == old(self).y_range,
            final(self).size == old(self).size,
            final(self).color == old(self).color,
    {
        let mut batches: Vec<PlotBatch> = Vec::new();
        let mut i: usize = 0;
        while i < self.graph.len()
            invariant
                *self == *old(self),
                i <= self.graph@.len(),
                batches@.len() == i,
                forall|j: int|
                    0 <= j < i ==> batch_matches(
                        #[trigger] batches@[j],
                        self.graph@[j],
                        self.x_range,
                        self.y_range,
                    ),
            decreases self.graph@.len() - i,
        {
            let entry = &self.graph[i];
            let points = render_curve(&entry.0, &entry.1, self.x_range, self.y_range);
            let batch = PlotBatch { points, size: entry.1.size, color: entry.1.color.clone() };
            batches.push(batch);
            i = i + 1;
        }
        self.graph.clear();
        self.pic_num = self.pic_num + 1;
        batches
    }

    /// Applies one parsed command: configuration commands update the current
    /// state, a curve command enqueues (or rejects) the curve, `Show` renders
    /// and resets the queue, and `Exit` asks the session to end without
    /// touching the state.
    pub fn apply(&mut self, cmd: DrawableKind) -> (effect: CommandEffect)
        requires
            cmd is Show ==> old(self).pic_num < u32::MAX,
        ensures
            cmd matches DrawableKind::Rot(a) ==> *final(self) == (RunTime {
                rot: a,
                ..*old(self)
            }) && effect is Updated,
            cmd matches DrawableKind::Origin(x, y) ==> *final(self) == (RunTime {
                origin: (x, y),
                ..*old(self)
            }) && effect is Updated,
            cmd matches DrawableKind::Scale(x, y) ==> *final(self) == (RunTime {
                scale: (x, y),
                ..*old(self)
            }) && effect is Updated,
            cmd matches DrawableKind::XRange(lo, hi) ==> *final(self) == (RunTime {
                x_range: (lo, hi),
                ..*old(self)
            }) && effect is Updated,
            cmd matches DrawableKind::YRange(lo, hi) ==> *final(self) == (RunTime {
                y_range: (lo, hi),
                ..*old(self)
            }) && effect is Updated,
            cmd matches DrawableKind::DotSize(s) ==> *final(self) == (RunTime {
                size: s,
                ..*old(self)
            }) && effect is Updated,
            cmd matches DrawableKind::Color(c) ==> *final(self) == (RunTime {
                color: c,
                ..*old(self)
            }) && effect is Updated,
            cmd matches DrawableKind::DrawableFor(stat) ==> {
                &&& lt_bits(ZERO_BITS, stat.step) ==> effect is Updated && final(self).graph@
                    == old(self).graph@.push((stat, current_style(*old(self))))
                &&& !lt_bits(ZERO_BITS, stat.step) ==> effect is Rejected && final(self).graph@
                    == old(self).graph@
                &&& final(self).origin == old(self).origin
                &&& final(self).rot == old(self).rot
                &&& final(self).scale == old(self).scale
                &&& final(self).x_range == old(self).x_range
                &&& final(self).y_range == old(self).y_range
                &&& final(self).size == old(self).size
                &&& final(self).color == old(self).color
                &&& final(self).pic_num == old(self).pic_num
            },
            cmd is Show ==> {
                &&& effect matches CommandEffect::Rendered(batches) && batches@.len() == old(
                    self,
                ).graph@.len() && (forall|i: int|
                    0 <= i < batches@.len() ==> batch_matches(
                        #[trigger] batches@[i],
                        old(self).graph@[i],
                        old(self).x_range,
                        old(self).y_range,
                    ))
                &&& final(self).graph@.len() == 0
                &&& final(self).pic_num == old(self).pic_num + 1
                &&& final(self).origin == old(self).origin
                &&& final(self).rot == old(self).rot
                &&& final(self).scale == old(self).scale
                &&& final(self).x_range == old(self).x_range
                &&& final(self).y_range == old(self).y_range
                &&& final(self).size == old(self).size
                &&& final(self).color == old(self).color
            },
            cmd is Exit ==> *final(self) == *old(self) && effect is Exit,
    {
        match cmd {
            DrawableKind::Rot(a) => {
                self.set_rot(a);
                CommandEffect::Updated
            },
            DrawableKind::Origin(x, y) => {
                self.set_origin((x, y));
                CommandEffect::Updated
            },
            DrawableKind::Scale(x, y) => {
                self.set_scale((x, y));
                CommandEffect::Updated
            },
            DrawableKind::XRange(lo, hi) => {
                self.set_x_range((lo, hi));
                CommandEffect::Updated
            },
            DrawableKind::YRange(lo, hi) => {
                self.set_y_range((lo, hi));
                CommandEffect::Updated
            },
            DrawableKind::DotSize(s) => {
                self.set_size(s);
                CommandEffect::Updated
            },
            DrawableKind::Color(c) => {
                self.set_color(c);
                CommandEffect::Updated
            },
            DrawableKind::DrawableFor(stat) => {
                if self.for_draw(stat) {
                    CommandEffect::Updated
                } else {
                    CommandEffect::Rejected
                }
            },
            DrawableKind::Show => CommandEffect::Rendered(self.show()),
            DrawableKind::Exit => CommandEffect::Exit,
        }
    }
}

/// Law: the batch a `show` produces for a queued entry is fixed by that entry
/// and the live axis ranges alone. Commands issued between enqueue and show
/// that leave the queue and the ranges alone — every style command does —
/// cannot change what that entry renders to.
pub proof fn lemma_snapshot_isolation(before: RunTime, after: RunTime, i: int, b: PlotBatch)
    requires
        0 <= i < before.graph@.len(),
        after.graph@ == before.graph@,
        after.x_range == before.x_range,
        after.y_range == before.y_range,
        batch_matches(b, after.graph@[i], after.x_range, after.y_range),
    ensures
        batch_matches(b, before.graph@[i], before.x_range, before.y_range),
{
}

} // verus!

