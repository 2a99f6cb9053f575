//! The moving piece.
use vstd::prelude::*;

use crate::commons::{rotated, EntityId, Rotation};
use crate::config::{Block, Offset};

verus! {

/// Marks a block of the moving piece.
pub struct DynamicBlock;

/// The moving piece: its blocks, its shape, its parent entity (whose
/// position is the piece's position) and its orientation.
pub struct DynBlockHandler {
    pub blocks: Vec<EntityId>,
    pub config: Block,
    pub parent: Option<EntityId>,
    pub rotation: Rotation,
}

/// A span as it is configured, widened to 64 bits.
pub open spec fn span_kept(span: (i32, i32)) -> (i64, i64) {
    (span.0 as i64, span.1 as i64)
}

/// A span mirrored through the origin: (first, last) becomes (-last, -first).
pub open spec fn span_mirrored(span: (i32, i32)) -> (i64, i64) {
    ((-(span.1 as int)) as i64, (-(span.0 as int)) as i64)
}

/// The span swept by a quarter turn in `direction` of a piece facing
/// `facing`, given the piece's main spans.
pub open spec fn main_span(offset: Option<Offset>, facing: Rotation, direction: Rotation) -> (
    i64,
    i64,
) {
    let span = match direction {
        Rotation::Right => match offset {
            Some(o) => Some(o.right_rotate),
            None => None,
        },
        Rotation::Left => match offset {
            Some(o) => Some(o.left_rotate),
            None => None,
        },
        _ => None,
    };
    match span {
        Some(s) => match facing {
            Rotation::Up | Rotation::Left => span_kept(s),
            Rotation::Right | Rotation::Down => span_mirrored(s),
            Rotation::Still => (0, 0),
        },
        None => (0, 0),
    }
}

/// The span swept by a quarter turn in `direction` of a piece facing
/// `facing`, given the piece's secondary spans.
pub open spec fn sub_span(sub_offset: Option<Offset>, facing: Rotation, direction: Rotation) -> (
    i64,
    i64,
) {
    match sub_offset {
        None => (0, 0),
        Some(o) => match direction {
            Rotation::Right => match facing {
                Rotation::Up | Rotation::Down | Rotation::Right => span_kept(o.right_rotate),
                Rotation::Left => span_mirrored(o.right_rotate),
                Rotation::Still => (0, 0),
            },
            Rotation::Left => match facing {
                Rotation::Up | Rotation::Right => span_kept(o.left_rotate),
                Rotation::Left | Rotation::Down => span_mirrored(o.left_rotate),
                Rotation::Still => (0, 0),
            },
            _ => (0, 0),
        },
    }
}

/// The spans that the turns of a piece sweep, by the way it faces. The main
/// span of a turn is the configured one when the piece faces up or left, and
/// the configured one turned end for end and negated (from `-last` to
/// `-first`) when it faces right or down. The secondary span of a right turn
/// is the configured one when the piece faces up, down or right, and the
/// negated one only when it faces left; that of a left turn is the
/// configured one facing up or right and the negated one facing left or
/// down. A piece without such spans, or a turn that is neither right nor
/// left, sweeps the span (0, 0).
pub proof fn law_turn_spans(offset: Option<Offset>, sub_offset: Option<Offset>, facing: Rotation, direction: Rotation)
    ensures
        offset is None || !(direction == Rotation::Right || direction == Rotation::Left)
            ==> main_span(offset, facing, direction) == (0i64, 0i64),
        sub_offset is None || !(direction == Rotation::Right || direction == Rotation::Left)
            ==> sub_span(sub_offset, facing, direction) == (0i64, 0i64),
        offset is Some && (direction == Rotation::Right || direction == Rotation::Left) ==> {
            let o = offset->0;
            let s = if direction == Rotation::Right { o.right_rotate } else { o.left_rotate };
            let m = main_span(offset, facing, direction);
            &&& (facing == Rotation::Up || facing == Rotation::Left) ==> m.0 == s.0 && m.1 == s.1
            &&& (facing == Rotation::Right || facing == Rotation::Down) ==> m.0 == -s.1 && m.1
                == -s.0
        },
        sub_offset is Some ==> {
            let o = sub_offset->0;
            let r = sub_span(sub_offset, facing, Rotation::Right);
            let l = sub_span(sub_offset, facing, Rotation::Left);
            &&& (facing == Rotation::Up || facing == Rotation::Down || facing == Rotation::Right)
                ==> r.0 == o.right_rotate.0 && r.1 == o.right_rotate.1
            &&& facing == Rotation::Left ==> r.0 == -o.right_rotate.1 && r.1 == -o.right_rotate.0
            &&& (facing == Rotation::Up || facing == Rotation::Right) ==> l.0 == o.left_rotate.0
                && l.1 == o.left_rotate.1
            &&& (facing == Rotation::Left || facing == Rotation::Down) ==> l.0 == -o.left_rotate.1
                && l.1 == -o.left_rotate.0
        },
{
}

impl Default for DynBlockHandler {
    fn default() -> (res: DynBlockHandler)
        ensures
            res.blocks@.len() == 0,
            res.config.is_default(),
            res.parent is None,
            res.rotation == Rotation::Up,
    {
        DynBlockHandler {
            blocks: Vec::new(),
            config: Block::default(),
            parent: None,
            rotation: Rotation::Up,
        }
    }
}

fn kept(span: (i32, i32)) -> (res: (i64, i64))
    ensures
        res == span_kept(span),
{
    (span.0 as i64, span.1 as i64)
}

fn mirrored(span: (i32, i32)) -> (res: (i64, i64))
    ensures
        res == span_mirrored(span),
{
    (-(span.1 as i64), -(span.0 as i64))
}

impl DynBlockHandler {
    /// Turns the piece a quarter turn in `rotation`.
    pub fn rotate_handler(&mut self, rotation: Rotation)
        ensures
            final(self).rotation == rotated(old(self).rotation, rotation),
            final(self).blocks == old(self).blocks,
            final(self).config == old(self).config,
            final(self).parent == old(self).parent,
    {
        if let Rotation::Right = rotation {
            match self.rotation {
                Rotation::Up => {
                    self.rotation = Rotation::Right;
                },
                Rotation::Right => {
                    self.rotation = Rotation::Down;
                },
                Rotation::Down => {
                    self.rotation = Rotation::Left;
                },
                Rotation::Left => {
                    self.rotation = Rotation::Up;
                },
                _ => (),
            }
        } else if let Rotation::Left = rotation {
            match self.rotation {
                Rotation::Up => {
                    self.rotation = Rotation::Left;
                },
                Rotation::Left => {
                    self.rotation = Rotation::Down;
                },
                Rotation::Down => {
                    self.rotation = Rotation::Right;
                },
                Rotation::Right => {
                    self.rotation = Rotation::Up;
                },
                _ => (),
            }
        }
    }

    /// The span of cells that a quarter turn in `direction` sweeps, by the
    /// piece's main spans and its present orientation.
    pub fn get_count(&self, direction: Rotation) -> (res: (i64, i64))
        ensures
            res == main_span(self.config.offset, self.rotation, direction),
    {
        if let Rotation::Right = direction {
            if let Some(offset) = self.config.offset {
                let span = offset.right_rotate;
                match self.rotation {
                    Rotation::Up => kept(span),
                    Rotation::Right => mirrored(span),
                    Rotation::Down => mirrored(span),
                    Rotation::Left => kept(span),
                    _ => (0, 0),
                }
            } else {
                (0, 0)
            }
        } else if let Rotation::Left = direction {
            if let Some(offset) = self.config.offset {
                let span = offset.left_rotate;
                match self.rotation {
                    Rotation::Up => kept(span),
                    Rotation::Right => mirrored(span),
                    Rotation::Down => mirrored(span),
                    Rotation::Left => kept(span),
                    _ => (0, 0),
                }
            } else {
                (0, 0)
            }
        } else {
            (0, 0)
        }
    }

    /// The span of cells that a quarter turn in `direction` sweeps, by the
    /// piece's secondary spans and its present orientation.
    pub fn get_sub_count(&self, direction: Rotation) -> (res: (i64, i64))
        ensures
            res == sub_span(self.config.sub_offset, self.rotation, direction),
    {
        let sub = match self.config.sub_offset {
            None => {
                return (0, 0);
            },
            Some(o) => o,
        };
        if let Rotation::Right = direction {
            let span = sub.right_rotate;
            match self.rotation {
                Rotation::Up => kept(span),
                Rotation::Down => kept(span),
                Rotation::Right => kept(span),
                Rotation::Left => mirrored(span),
                _ => (0, 0),
            }
        } else if let Rotation::Left = direction {
            let span = sub.left_rotate;
            match self.rotation {
                Rotation::Up => kept(span),
                Rotation::Right => kept(span),
                Rotation::Left => mirrored(span),
                Rotation::Down => mirrored(span),
                _ => (0, 0),
            }
        } else {
            (0, 0)
        }
    }
}

} // verus!
