//! Bounded framed queue: the sole channel between the execution contexts of
//! the bridge.
//!
//! A producer reserves write space with [`FramedQueue::acquire`], makes the
//! filled bytes visible as one frame with [`FramedQueue::commit`] (or does
//! both at once with [`FramedQueue::push`]); a consumer observes the oldest
//! committed frame with [`FramedQueue::read`] and frees its storage with
//! [`FramedQueue::release`].  Frames come out in commit order, and a frame's
//! storage counts against the capacity until it is released.

use vstd::prelude::*;

verus! {

/// Failures of the queue primitive.
#[derive(Clone, Copy, Debug, PartialEq, Eq)]
pub enum QueueError {
    /// Fewer free bytes than the requested reservation.
    CapacityExceeded,
    /// A reservation is already outstanding.
    GrantInProgress,
    /// No reservation is outstanding.
    NoGrant,
    /// More bytes committed than were reserved.
    GrantOverrun,
}

/// Mathematical state of a [`FramedQueue`]: its byte capacity, the
/// outstanding reservation if any, and the committed-but-unreleased frames,
/// oldest first.
pub ghost struct QueueModel {
    pub capacity: nat,
    pub reserved: Option<nat>,
    pub frames: Seq<Seq<u8>>,
}

/// Total length of a sequence of frames.
pub open spec fn sum_lens(s: Seq<Seq<u8>>) -> nat
    decreases s.len(),
{
    if s.len() == 0 {
        0
    } else {
        s[0].len() + sum_lens(s.drop_first())
    }
}

proof fn lemma_sum_lens_push(s: Seq<Seq<u8>>, x: Seq<u8>)
    ensures
        sum_lens(s.push(x)) == sum_lens(s) + x.len(),
    decreases s.len(),
{
    assert(s.push(x)[0] == if s.len() == 0 { x } else { s[0] });
    assert(sum_lens(s.push(x)) == s.push(x)[0].len() + sum_lens(s.push(x).drop_first()));
    if s.len() == 0 {
        assert(s.push(x).drop_first() =~= Seq::<Seq<u8>>::empty());
        assert(sum_lens(Seq::<Seq<u8>>::empty()) == 0);
        assert(sum_lens(s) == 0);
    } else {
        assert(s.push(x).drop_first() =~= s.drop_first().push(x));
        lemma_sum_lens_push(s.drop_first(), x);
        assert(sum_lens(s) == s[0].len() + sum_lens(s.drop_first()));
    }
}

impl QueueModel {
    /// Bytes occupied: the outstanding reservation plus every frame that has
    /// been committed and not yet released.
    pub open spec fn used(self) -> nat {
        sum_lens(self.frames) + match self.reserved {
            Some(n) => n,
            None => 0nat,
        }
    }

    /// Bytes still free for new reservations.
    pub open spec fn free(self) -> int {
        self.capacity - self.used()
    }

    /// The model a well-formed queue can be in.
    pub open spec fn wf(self) -> bool {
        self.used() <= self.capacity
    }
}

/// The effect a best-effort enqueue of `frame` has on a queue: the frame is
/// appended when it fits and no reservation is outstanding, and the queue is
/// left unchanged (the frame is dropped) otherwise.
pub open spec fn push_effect(pre: QueueModel, post: QueueModel, frame: Seq<u8>) -> bool {
    if pre.reserved is None && frame.len() <= pre.free() {
        post == QueueModel { frames: pre.frames.push(frame), ..pre }
    } else {
        post == pre
    }
}

/// Whether a best-effort enqueue of `frame` succeeds on a queue.
pub open spec fn push_fits(pre: QueueModel, frame: Seq<u8>) -> bool {
    pre.reserved is None && frame.len() <= pre.free()
}

/// The queue after its oldest frame is released; a queue with no frames is
/// left as it is.
pub open spec fn popped(q: QueueModel) -> QueueModel {
    if q.frames.len() == 0 {
        q
    } else {
        QueueModel { frames: q.frames.drop_first(), ..q }
    }
}

/// A bounded queue of variable-length byte frames with explicit
/// reserve/commit and read/release boundaries.
pub struct FramedQueue {
    capacity: usize,
    used: usize,
    has_grant: bool,
    reserved: usize,
    frames: Vec<Vec<u8>>,
}

impl View for FramedQueue {
    type V = QueueModel;

    closed spec fn view(&self) -> QueueModel {
        QueueModel {
            capacity: self.capacity as nat,
            reserved: if self.has_grant {
                Some(self.reserved as nat)
            } else {
                None
            },
            frames: self.frames.deep_view(),
        }
    }
}

impl FramedQueue {
    /// The exec fields agree with the model's accounting.
    pub closed spec fn inv(self) -> bool {
        &&& self.used == self@.used()
        &&& self.used <= self.capacity
        &&& (!self.has_grant ==> self.reserved == 0)
    }

    /// Create an empty queue able to hold `capacity` bytes of frames.
    pub fn new(capacity: usize) -> (q: FramedQueue)
        ensures
            q.inv(),
            q@ == (QueueModel {
                capacity: capacity as nat,
                reserved: None,
                frames: Seq::<Seq<u8>>::empty(),
            }),
    {
        let q = FramedQueue {
            capacity,
            used: 0,
            has_grant: false,
            reserved: 0,
            frames: Vec::new(),
        };
        proof {
            assert(q.frames.deep_view() =~= Seq::<Seq<u8>>::empty());
        }
        q
    }

    /// The queue's byte capacity.
    pub fn capacity(&self) -> (c: usize)
        ensures
            c == self@.capacity,
    {
        self.capacity
    }

    /// Bytes currently free for a new reservation.
    pub fn free_space(&self) -> (n: usize)
        requires
            self.inv(),
        ensures
            n == self@.free(),
    {
        proof {
            assert(self@.used() == self.used);
        }
        self.capacity - self.used
    }

    /// Number of committed frames not yet released.
    pub fn frame_count(&self) -> (n: usize)
        ensures
            n == self@.frames.len(),
    {
        self.frames.len()
    }

    /// Reserve `n` bytes of write space.  Fails with `CapacityExceeded`, and
    /// changes nothing, when fewer than `n` bytes are free; fails with
    /// `GrantInProgress` when an earlier reservation has not been committed.
    pub fn acquire(&mut self, n: usize) -> (r: Result<(), QueueError>)
        requires
            old(self).inv(),
        ensures
            final(self).inv(),
            match r {
                Ok(()) => {
                    &&& old(self)@.reserved is None
                    &&& n <= old(self)@.free()
                    &&& final(self)@ == (QueueModel { reserved: Some(n as nat), ..old(self)@ })
                },
                Err(QueueError::GrantInProgress) => {
                    &&& old(self)@.reserved is Some
                    &&& *final(self) == *old(self)
                },
                Err(QueueError::CapacityExceeded) => {
                    &&& old(self)@.reserved is None
                    &&& n > old(self)@.free()
                    &&& *final(self) == *old(self)
                },
                Err(_) => false,
            },
    {
        if self.has_grant {
            return Err(QueueError::GrantInProgress);
        }
        if n > self.capacity - self.used {
            return Err(QueueError::CapacityExceeded);
        }
        self.has_grant = true;
        self.reserved = n;
        self.used = self.used + n;
        Ok(())
    }

    /// Commit `data` as one frame filling the outstanding reservation.  The
    /// frame may be shorter than the reservation; the unused remainder is
    /// freed.  Fails with `NoGrant` when nothing is reserved and with
    /// `GrantOverrun` when `data` is longer than the reservation; either
    /// failure changes nothing.
    pub fn commit(&mut self, data: &[u8]) -> (r: Result<(), QueueError>)
        requires
            old(self).inv(),
        ensures
            final(self).inv(),
            match r {
                Ok(()) => {
                    &&& old(self)@.reserved matches Some(res) && data@.len() <= res
                    &&& final(self)@ == (QueueModel {
                        reserved: None,
                        frames: old(self)@.frames.push(data@),
                        ..old(self)@
                    })
                },
                Err(QueueError::NoGrant) => {
                    &&& old(self)@.reserved is None
                    &&& *final(self) == *old(self)
                },
                Err(QueueError::GrantOverrun) => {
                    &&& old(self)@.reserved matches Some(res) && data@.len() > res
                    &&& *final(self) == *old(self)
                },
                Err(_) => false,
            },
    {
        if !self.has_grant {
            return Err(QueueError::NoGrant);
        }
        if data.len() > self.reserved {
            return Err(QueueError::GrantOverrun);
        }
        let frame = vstd::slice::slice_to_vec(data);
        let ghost pre_frames = self.frames.deep_view();
        self.used = self.used - self.reserved + data.len();
        self.has_grant = false;
        self.reserved = 0;
        self.frames.push(frame);
        proof {
            assert(self.frames.deep_view() =~~= pre_frames.push(data@));
            lemma_sum_lens_push(pre_frames, data@);
        }
        Ok(())
    }

    /// Reserve and commit in one step: enqueue `data` as one frame.  Fails
    /// with `CapacityExceeded`, and changes nothing, when `data` does not fit
    /// in the free space.
    pub fn push(&mut self, data: &[u8]) -> (r: Result<(), QueueError>)
        requires
            old(self).inv(),
        ensures
            final(self).inv(),
            match r {
                Ok(()) => {
                    &&& push_fits(old(self)@, data@)
                    &&& final(self)@ == (QueueModel {
                        frames: old(self)@.frames.push(data@),
                        ..old(self)@
                    })
                },
                Err(QueueError::CapacityExceeded) => {
                    &&& old(self)@.reserved is None
                    &&& data@.len() > old(self)@.free()
                    &&& *final(self) == *old(self)
                },
                Err(QueueError::GrantInProgress) => {
                    &&& old(self)@.reserved is Some
                    &&& *final(self) == *old(self)
                },
                Err(_) => false,
            },
    {
        self.acquire(data.len())?;
        match self.commit(data) {
            Ok(()) => Ok(()),
            Err(e) => {
                proof {
                    assert(false);
                }
                Err(e)
            },
        }
    }

    /// Enqueue `data` if it fits and drop it otherwise, reporting which
    /// happened.  This is the best-effort discipline every producer of the
    /// bridge uses: a full queue loses the frame, it never blocks.
    pub fn push_or_drop(&mut self, data: &[u8]) -> (fit: bool)
        requires
            old(self).inv(),
        ensures
            final(self).inv(),
            push_effect(old(self)@, final(self)@, data@),
            fit == push_fits(old(self)@, data@),
    {
        match self.push(data) {
            Ok(()) => true,
            Err(_) => false,
        }
    }

    /// The oldest committed frame, if one exists.  The frame stays in the
    /// queue until [`FramedQueue::release`] is called.
    pub fn read(&self) -> (r: Option<Vec<u8>>)
        ensures
            match r {
                Some(f) => self@.frames.len() > 0 && f@ == self@.frames[0],
                None => self@.frames.len() == 0,
            },
    {
        if self.frames.len() > 0 {
            let f = self.frames[0].clone();
            proof {
                assert(f@ =~= self.frames.deep_view()[0]);
            }
            Some(f)
        } else {
            None
        }
    }

    /// Free the storage of the oldest committed frame.
    pub fn release(&mut self)
        requires
            old(self).inv(),
            old(self)@.frames.len() > 0,
        ensures
            final(self).inv(),
            final(self)@ == (QueueModel { frames: old(self)@.frames.drop_first(), ..old(self)@ }),
    {
        let ghost pre_frames = self.frames.deep_view();
        let f = self.frames.remove(0);
        self.used = self.used - f.len();
        proof {
            assert(self.frames.deep_view() =~= pre_frames.drop_first());
        }
    }

    /// Read and release the oldest frame in one step: the consumer's polling
    /// primitive.
    pub fn pop(&mut self) -> (r: Option<Vec<u8>>)
        requires
            old(self).inv(),
        ensures
            final(self).inv(),
            final(self)@ == popped(old(self)@),
            match r {
                Some(f) => old(self)@.frames.len() > 0 && f@ == old(self)@.frames[0],
                None => old(self)@.frames.len() == 0 && *final(self) == *old(self),
            },
    {
        match self.read() {
            Some(f) => {
                self.release();
                Some(f)
            },
            None => None,
        }
    }
}

/// The queue after a whole sequence of commits, each as
/// [`FramedQueue::commit`] and [`FramedQueue::push`] describe it.
pub open spec fn committed(q: QueueModel, cs: Seq<Seq<u8>>) -> QueueModel
    decreases cs.len(),
{
    if cs.len() == 0 {
        q
    } else {
        committed(QueueModel { frames: q.frames.push(cs[0]), ..q }, cs.drop_first())
    }
}

/// The queue after `i` releases, each as [`FramedQueue::release`] and
/// [`FramedQueue::pop`] describe it.
pub open spec fn released(q: QueueModel, i: int) -> QueueModel
    decreases i,
{
    if i <= 0 {
        q
    } else {
        released(popped(q), i - 1)
    }
}

proof fn lemma_committed_frames(q: QueueModel, cs: Seq<Seq<u8>>)
    ensures
        committed(q, cs).frames == q.frames + cs,
    decreases cs.len(),
{
    if cs.len() == 0 {
        assert(q.frames + cs =~= q.frames);
    } else {
        lemma_committed_frames(QueueModel { frames: q.frames.push(cs[0]), ..q }, cs.drop_first());
        assert(q.frames.push(cs[0]) + cs.drop_first() =~= q.frames + cs);
    }
}

proof fn lemma_released_frames(q: QueueModel, i: int)
    requires
        0 <= i <= q.frames.len(),
    ensures
        released(q, i).frames == q.frames.skip(i),
    decreases i,
{
    if i == 0 {
        assert(q.frames.skip(0) =~= q.frames);
    } else {
        lemma_released_frames(popped(q), i - 1);
        assert(q.frames.drop_first().skip(i - 1) =~= q.frames.skip(i));
    }
}

/// Queue FIFO: committing the frames `cs`, in order, on an empty queue and
/// then releasing `i` of them leaves exactly the frames `cs[i..]`, so the
/// next read observes the `i`-th committed frame, byte for byte, for every
/// `i` — frames are never observed out of commit order.
pub proof fn lemma_fifo(q: QueueModel, cs: Seq<Seq<u8>>, i: int)
    requires
        q.frames.len() == 0,
        0 <= i < cs.len(),
    ensures
        committed(q, cs).frames == cs,
        released(committed(q, cs), i).frames == cs.skip(i),
        released(committed(q, cs), i).frames[0] == cs[i],
{
    lemma_committed_frames(q, cs);
    assert(q.frames + cs =~= cs);
    lemma_released_frames(committed(q, cs), i);
}

} // verus!
