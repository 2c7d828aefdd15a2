//! What is kept of a session's output, to be shown again to a client that
//! attaches.

use std::collections::VecDeque;
use vstd::prelude::*;

verus! {

/// The number of bytes that are kept of a session's output.
pub const SCROLLBACK_CAP: usize = 262144;

/// The last `n` bytes of `bytes`, or all where there are no more.
pub open spec fn last_bytes(bytes: Seq<u8>, n: int) -> Seq<u8> {
    if bytes.len() <= n {
        bytes
    } else {
        bytes.skip(bytes.len() - n)
    }
}

/// The end of a session's output.
#[derive(Debug, Clone)]
pub struct Scrollback {
    bytes: VecDeque<u8>,
}

impl View for Scrollback {
    type V = Seq<u8>;

    closed spec fn view(&self) -> Seq<u8> {
        self.bytes@
    }
}

impl Scrollback {
    /// Whether no more is kept than there is room for.
    pub open spec fn well_formed(self) -> bool {
        self@.len() <= SCROLLBACK_CAP
    }

    /// Nothing shown yet.
    pub fn new() -> (r: Self)
        ensures
            r.well_formed(),
            r@ == Seq::<u8>::empty(),
    {
        Scrollback { bytes: VecDeque::new() }
    }

    /// Adds what was shown; what no longer fits is dropped, the oldest first.
    pub fn append(&mut self, chunk: &Vec<u8>)
        requires
            old(self).well_formed(),
        ensures
            final(self).well_formed(),
            final(self)@ == last_bytes(old(self)@ + chunk@, SCROLLBACK_CAP as int),
    {
        let ghost all = self.bytes@ + chunk@;
        let mut i: usize = 0;
        while i < chunk.len()
            invariant
                i <= chunk.len(),
                all == old(self)@ + chunk@,
                self.bytes@ == old(self)@ + chunk@.take(i as int),
            decreases chunk.len() - i,
        {
            self.bytes.push_back(chunk[i]);
            assert(self.bytes@ =~= old(self)@ + chunk@.take(i + 1));
            i += 1;
        }
        assert(self.bytes@ =~= all);
        let ghost mut dropped: int = 0;
        while self.bytes.len() > SCROLLBACK_CAP
            invariant
                0 <= dropped <= all.len(),
                self.bytes@ == all.skip(dropped),
                dropped > 0 ==> self.bytes@.len() >= SCROLLBACK_CAP,
            decreases self.bytes@.len(),
        {
            let _ = self.bytes.pop_front();
            proof {
                dropped = dropped + 1;
                assert(self.bytes@ =~= all.skip(dropped));
            }
        }
        assert(self.bytes@ =~= last_bytes(all, SCROLLBACK_CAP as int));
    }

    /// The bytes that are kept, oldest first.
    pub fn snapshot(&self) -> (r: Vec<u8>)
        ensures
            r@ == self@,
    {
        let mut r: Vec<u8> = Vec::new();
        let mut i: usize = 0;
        while i < self.bytes.len()
            invariant
                i <= self.bytes@.len(),
                r@ == self.bytes@.take(i as int),
            decreases self.bytes@.len() - i,
        {
            r.push(self.bytes[i]);
            assert(r@ =~= self.bytes@.take(i + 1));
            i += 1;
        }
        assert(r@ =~= self.bytes@);
        r
    }
}

// ==================== Laws ====================

/// All bytes of `chunks`, in order.
pub open spec fn joined(chunks: Seq<Seq<u8>>) -> Seq<u8>
    decreases chunks.len(),
{
    if chunks.len() == 0 {
        Seq::empty()
    } else {
        joined(chunks.drop_last()) + chunks.last()
    }
}

/// What is kept once `chunks` were added one after the other.
pub open spec fn kept(chunks: Seq<Seq<u8>>) -> Seq<u8>
    decreases chunks.len(),
{
    if chunks.len() == 0 {
        Seq::empty()
    } else {
        last_bytes(kept(chunks.drop_last()) + chunks.last(), SCROLLBACK_CAP as int)
    }
}

/// The replay is the end of everything that the session has shown, however the
/// output came in pieces: all of it as long as there is room, and else as many
/// of its last bytes as there is room for.
pub proof fn law_replay_is_the_end_of_the_output(chunks: Seq<Seq<u8>>)
    ensures
        kept(chunks) == last_bytes(joined(chunks), SCROLLBACK_CAP as int),
    decreases chunks.len(),
{
    if chunks.len() > 0 {
        let front = chunks.drop_last();
        law_replay_is_the_end_of_the_output(front);
        let cap = SCROLLBACK_CAP as int;
        assert(last_bytes(last_bytes(joined(front), cap) + chunks.last(), cap) =~= last_bytes(
            joined(front) + chunks.last(),
            cap,
        ));
    }
}

/// How the output was cut into pieces does not show in the replay.
pub proof fn law_replay_does_not_depend_on_the_pieces(a: Seq<Seq<u8>>, b: Seq<Seq<u8>>)
    requires
        joined(a) == joined(b),
    ensures
        kept(a) == kept(b),
{
    law_replay_is_the_end_of_the_output(a);
    law_replay_is_the_end_of_the_output(b);
}

/// No replay is longer than there is room for.
pub proof fn law_replay_is_bounded(chunks: Seq<Seq<u8>>)
    ensures
        kept(chunks).len() <= SCROLLBACK_CAP,
{
    law_replay_is_the_end_of_the_output(chunks);
}

/// The end of some bytes: as many as there is room for, or all, and each of them
/// as far from the end as it was.
pub proof fn law_end_keeps_its_bytes(bytes: Seq<u8>, n: int)
    requires
        n >= 0,
    ensures
        last_bytes(bytes, n).len() == (if bytes.len() < n {
            bytes.len() as int
        } else {
            n
        }),
        forall|i: int|
            1 <= i <= last_bytes(bytes, n).len() ==> #[trigger] last_bytes(
                bytes,
                n,
            )[last_bytes(bytes, n).len() - i] == bytes[bytes.len() - i],
{
}

/// The pieces of an output together are all their bytes, in order: a piece that
/// comes last stands last, whole.
pub proof fn law_pieces_are_joined_in_order(chunks: Seq<Seq<u8>>, last: Seq<u8>)
    ensures
        joined(Seq::empty()) == Seq::<u8>::empty(),
        joined(chunks.push(last)).len() == joined(chunks).len() + last.len(),
        forall|i: int|
            0 <= i < joined(chunks).len() ==> #[trigger] joined(chunks.push(last))[i] == joined(
                chunks,
            )[i],
        forall|i: int|
            0 <= i < last.len() ==> joined(chunks.push(last))[joined(chunks).len() + i]
                == #[trigger] last[i],
{
    assert(chunks.push(last).drop_last() =~= chunks);
}

/// The replay is as long as the output, up to 256 times 1024 bytes, and each of
/// its bytes is as far from the end as in the output.
pub proof fn law_replay_has_the_last_bytes(chunks: Seq<Seq<u8>>)
    ensures
        kept(chunks).len() == (if joined(chunks).len() < 256 * 1024 {
            joined(chunks).len()
        } else {
            256 * 1024
        }),
        forall|i: int|
            1 <= i <= kept(chunks).len() ==> #[trigger] kept(chunks)[kept(chunks).len() - i]
                == joined(chunks)[joined(chunks).len() - i],
{
    law_replay_is_the_end_of_the_output(chunks);
    law_end_keeps_its_bytes(joined(chunks), SCROLLBACK_CAP as int);
}

impl Scrollback {
    /// What is kept, as a value, is every byte, in order.
    proof fn law_model_has_every_byte(self)
        ensures
            self@.len() == self.bytes@.len(),
            forall|i: int| 0 <= i < self.bytes@.len() ==> #[trigger] self@[i] == self.bytes@[i],
            self.well_formed() <==> self@.len() <= 256 * 1024,
    {
    }
}

} // verus!
