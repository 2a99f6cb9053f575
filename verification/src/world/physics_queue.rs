//! The moves requested for the piece this frame.
use vstd::prelude::*;

use crate::commons::Rotation;

verus! {

/// The contents of a `PhysicsQueue`.
pub struct PhysicsQueueView {
    pub queue: Option<Seq<(i64, i64)>>,
    pub rotation: Option<Rotation>,
    pub shoot: bool,
    pub offset: Option<(i64, i64)>,
    pub sub_offset: Option<(i64, i64)>,
}

/// The queue with nothing requested.
pub open spec fn cleared_queue() -> PhysicsQueueView {
    PhysicsQueueView { queue: None, rotation: None, shoot: false, offset: None, sub_offset: None }
}

/// A stored span, or `(0, 0)` where none is stored.
pub open spec fn span_or_zero(span: Option<(i64, i64)>) -> (i64, i64) {
    match span {
        Some(v) => v,
        None => (0, 0),
    }
}

/// The queue after a shot check: a requested shot drops every other request.
pub open spec fn shoot_checked(q: PhysicsQueueView) -> PhysicsQueueView {
    if q.shoot {
        PhysicsQueueView { shoot: true, ..cleared_queue() }
    } else {
        q
    }
}

/// The requested moves, pixel translations in order of request, with the
/// turn, the shoot request and the spans swept by the turn.
pub struct PhysicsQueue {
    queue: Option<Vec<(i64, i64)>>,
    rotation: Option<Rotation>,
    shoot: bool,
    offset: Option<(i64, i64)>,
    sub_offset: Option<(i64, i64)>,
}

impl View for PhysicsQueue {
    type V = PhysicsQueueView;

    closed spec fn view(&self) -> PhysicsQueueView {
        PhysicsQueueView {
            queue: match self.queue {
                Some(v) => Some(v@),
                None => None,
            },
            rotation: self.rotation,
            shoot: self.shoot,
            offset: self.offset,
            sub_offset: self.sub_offset,
        }
    }
}

/// The translations requested so far, none where no queue was started.
pub open spec fn queued_moves(q: PhysicsQueueView) -> Seq<(i64, i64)> {
    match q.queue {
        Some(s) => s,
        None => Seq::empty(),
    }
}

impl Default for PhysicsQueue {
    fn default() -> (res: PhysicsQueue)
        ensures
            res@ == cleared_queue(),
    {
        PhysicsQueue { queue: None, rotation: None, shoot: false, offset: None, sub_offset: None }
    }
}

fn copy_moves(v: &Vec<(i64, i64)>) -> (res: Vec<(i64, i64)>)
    ensures
        res@ == v@,
{
    let mut res: Vec<(i64, i64)> = Vec::new();
    let mut k: usize = 0;
    while k < v.len()
        invariant
            k <= v@.len(),
            res@ == v@.subrange(0, k as int),
        decreases v@.len() - k,
    {
        let p: (i64, i64) = v[k];
        res.push(p);
        k = k + 1;
        assert(res@ =~= v@.subrange(0, k as int));
    }
    assert(res@ =~= v@);
    res
}

impl PhysicsQueue {
    /// A copy of the requested translations, if a queue was started.
    pub fn get_queue(&mut self) -> (res: Option<Vec<(i64, i64)>>)
        ensures
            final(self)@ == old(self)@,
            match old(self)@.queue {
                Some(s) => res matches Some(v) && v@ == s,
                None => res is None,
            },
    {
        match &self.queue {
            Some(v) => Some(copy_moves(v)),
            None => None,
        }
    }

    /// Appends a translation, starting the queue if there was none.
    pub fn add_to_queue(&mut self, physics: (i64, i64))
        ensures
            final(self)@ == (PhysicsQueueView {
                queue: Some(queued_moves(old(self)@).push(physics)),
                ..old(self)@
            }),
    {
        let mut v = match self.queue.take() {
            Some(v) => v,
            None => Vec::new(),
        };
        v.push(physics);
        self.queue = Some(v);
    }

    /// The requested turn, if any.
    pub fn get_rotation(&self) -> (res: Option<Rotation>)
        ensures
            res == self@.rotation,
    {
        self.rotation
    }

    /// Forgets every request, then requests the turn `rotation`.
    pub fn set_rotation(&mut self, rotation: Rotation)
        ensures
            final(self)@ == (PhysicsQueueView { rotation: Some(rotation), ..cleared_queue() }),
    {
        self.clear();
        self.rotation = Some(rotation);
    }

    /// Whether the piece is to be shot down.
    pub fn get_shoot(&self) -> (res: bool)
        ensures
            res == self@.shoot,
    {
        self.shoot
    }

    /// Sets whether the piece is to be shot down.
    pub fn set_shoot(&mut self, shoot: bool)
        ensures
            final(self)@ == (PhysicsQueueView { shoot, ..old(self)@ }),
    {
        self.shoot = shoot;
    }

    /// When a shot is requested, it takes the place of every other request:
    /// the translations, the turn and its spans are dropped. Returns whether
    /// a shot is requested.
    pub fn shoot_check(&mut self) -> (res: bool)
        ensures
            res == old(self)@.shoot,
            final(self)@ == shoot_checked(old(self)@),
    {
        if self.shoot {
            self.queue = None;
            self.offset = None;
            self.sub_offset = None;
            self.rotation = None;
            true
        } else {
            false
        }
    }

    /// Forgets every request.
    pub fn clear(&mut self)
        ensures
            final(self)@ == cleared_queue(),
    {
        self.queue = None;
        self.shoot = false;
        self.offset = None;
        self.sub_offset = None;
        self.rotation = None;
    }

    /// The span swept by the requested turn, `(0, 0)` if none was set.
    pub fn get_offset(&self) -> (res: (i64, i64))
        ensures
            res == span_or_zero(self@.offset),
    {
        if let Some(value) = self.offset {
            value
        } else {
            (0, 0)
        }
    }

    /// Sets the span swept by the requested turn.
    pub fn set_offset(&mut self, offset: (i64, i64))
        ensures
            final(self)@ == (PhysicsQueueView { offset: Some(offset), ..old(self)@ }),
    {
        self.offset = Some(offset);
    }

    /// The secondary span swept by the requested turn, `(0, 0)` if none was set.
    pub fn get_sub_offset(&self) -> (res: (i64, i64))
        ensures
            res == span_or_zero(self@.sub_offset),
    {
        if let Some(value) = self.sub_offset {
            value
        } else {
            (0, 0)
        }
    }

    /// Sets the secondary span swept by the requested turn.
    pub fn set_sub_offset(&mut self, offset: (i64, i64))
        ensures
            final(self)@ == (PhysicsQueueView { sub_offset: Some(offset), ..old(self)@ }),
    {
        self.sub_offset = Some(offset);
    }
}

} // verus!

verus! {

/// A span that was set is read back as it was set.
pub proof fn law_span_read_after_write(q: PhysicsQueueView, span: (i64, i64))
    ensures
        span_or_zero((PhysicsQueueView { offset: Some(span), ..q }).offset) == span,
        span_or_zero((PhysicsQueueView { sub_offset: Some(span), ..q }).sub_offset) == span,
        (PhysicsQueueView { offset: Some(span), ..q }).sub_offset == q.sub_offset,
        (PhysicsQueueView { sub_offset: Some(span), ..q }).offset == q.offset,
{
}

/// A second shot check changes nothing.
pub proof fn law_shoot_check_idempotent(q: PhysicsQueueView)
    ensures
        shoot_checked(shoot_checked(q)) == shoot_checked(q),
{
}

} // verus!
