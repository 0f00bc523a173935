//! The bounded frame channel between the capture worker and the consumer.
//!
//! A first-in-first-out handoff of finished frames with a fixed capacity:
//! the worker's push fails (and blocks, at the caller's discretion) when
//! the channel is full, which is the pipeline's sole backpressure
//! mechanism.  Frames come out in the order they went in, never reordered
//! or duplicated, and every frame held has the session's fixed frame
//! length.

use vstd::prelude::*;

verus! {

/// Default channel depth: small enough to bound memory, large enough to
/// ride out consumer jitter.
pub const FRAME_CHANNEL_DEPTH: usize = 10;

/// A bounded FIFO of finished frames, oldest first.
pub struct FrameChannel {
    items: Vec<Vec<u8>>,
    capacity: usize,
    frame_len: usize,
}

impl FrameChannel {
    /// The frames currently held, oldest first.
    pub closed spec fn contents(self) -> Seq<Seq<u8>> {
        self.items@.map_values(|f: Vec<u8>| f@)
    }

    /// The fixed capacity.
    pub closed spec fn capacity_spec(self) -> int {
        self.capacity as int
    }

    /// The byte length every held frame has.
    pub closed spec fn frame_len_spec(self) -> int {
        self.frame_len as int
    }

    /// Channel invariant: never over capacity, and every held frame has
    /// the fixed frame length.
    pub open spec fn wf(self) -> bool {
        &&& 1 <= self.capacity_spec()
        &&& self.contents().len() <= self.capacity_spec()
        &&& forall|i: int|
            0 <= i < self.contents().len() ==> (#[trigger] self.contents()[i]).len()
                == self.frame_len_spec()
    }

    /// An empty channel for frames of `frame_len` bytes.
    pub fn new(capacity: usize, frame_len: usize) -> (r: FrameChannel)
        requires
            capacity >= 1,
        ensures
            r.wf(),
            r.contents() == Seq::<Seq<u8>>::empty(),
            r.capacity_spec() == capacity,
            r.frame_len_spec() == frame_len,
    {
        let r = FrameChannel { items: Vec::new(), capacity, frame_len };
        proof {
            assert(r.contents() =~= Seq::<Seq<u8>>::empty());
        }
        r
    }

    /// How many frames are waiting.
    pub fn len(&self) -> (n: usize)
        ensures
            n == self.contents().len(),
    {
        self.items.len()
    }

    /// Hand one finished frame to the channel.  When the channel is full
    /// nothing changes and the frame comes back to the caller, who may
    /// block and try again; otherwise the frame is appended after every
    /// frame already waiting.
    pub fn try_push(&mut self, frame: Vec<u8>) -> (r: Result<(), Vec<u8>>)
        requires
            old(self).wf(),
            frame@.len() == old(self).frame_len_spec(),
        ensures
            final(self).wf(),
            final(self).capacity_spec() == old(self).capacity_spec(),
            final(self).frame_len_spec() == old(self).frame_len_spec(),
            old(self).contents().len() < old(self).capacity_spec() ==> {
                &&& r is Ok
                &&& final(self).contents() =~= old(self).contents().push(frame@)
            },
            old(self).contents().len() >= old(self).capacity_spec() ==> {
                &&& r matches Err(f) && f == frame
                &&& final(self).contents() =~= old(self).contents()
            },
    {
        if self.items.len() < self.capacity {
            self.items.push(frame);
            proof {
                assert(self.contents() =~= old(self).contents().push(frame@));
            }
            Ok(())
        } else {
            Err(frame)
        }
    }

    /// Take the oldest waiting frame, if any.  Frames leave in exactly the
    /// order they were pushed.
    pub fn pop_oldest(&mut self) -> (r: Option<Vec<u8>>)
        requires
            old(self).wf(),
        ensures
            final(self).wf(),
            final(self).capacity_spec() == old(self).capacity_spec(),
            final(self).frame_len_spec() == old(self).frame_len_spec(),
            old(self).contents().len() == 0 ==> {
                &&& r is None
                &&& final(self).contents() =~= old(self).contents()
            },
            old(self).contents().len() > 0 ==> {
                &&& (r matches Some(f) && f@ == old(self).contents()[0] && f@.len() == old(
                    self,
                ).frame_len_spec())
                &&& final(self).contents() =~= old(self).contents().drop_first()
            },
    {
        if self.items.len() == 0 {
            None
        } else {
            let f = self.items.remove(0);
            proof {
                assert(self.contents() =~= old(self).contents().drop_first());
            }
            Some(f)
        }
    }
}

} // verus!
