//! Accounting for the streaming download loop: which display mode the
//! declared content length selects, how many bytes have arrived, and — in
//! ghost state — exactly which bytes, in order.

use vstd::prelude::*;

verus! {

/// The two progress-display modes: a bar scaled to a known total, or a
/// spinner when the response declares no content length.
#[derive(Clone, Copy, Debug, PartialEq, Eq, Structural)]
pub enum ProgressMode {
    /// The response declared a content length.
    Determinate { total: u64 },
    /// The content length is unknown.
    Indeterminate,
}

/// The display mode a declared content length selects.
pub fn mode_for(content_length: Option<u64>) -> (m: ProgressMode)
    ensures
        match content_length {
            Some(total) => m == (ProgressMode::Determinate { total }),
            None => m == ProgressMode::Indeterminate,
        },
{
    match content_length {
        Some(total) => ProgressMode::Determinate { total },
        None => ProgressMode::Indeterminate,
    }
}

/// The state of one streaming download: the display mode, the running byte
/// count, and (as ghost state) the bytes that have arrived, in order.
pub struct StreamState {
    /// The display mode chosen from the declared content length.
    pub mode: ProgressMode,
    /// Bytes recorded so far.
    pub received: u64,
    /// The exact bytes recorded so far, in arrival order.
    pub bytes: Ghost<Seq<u8>>,
}

impl StreamState {
    /// The byte count always counts exactly the recorded bytes.
    pub open spec fn wf(self) -> bool {
        self.received == self.bytes@.len()
    }

    /// A fresh state for a response declaring the given content length.
    pub fn new(content_length: Option<u64>) -> (s: Self)
        ensures
            s.wf(),
            s.mode == mode_for_spec(content_length),
            s.received == 0,
            s.bytes@ == Seq::<u8>::empty(),
    {
        StreamState { mode: mode_for(content_length), received: 0, bytes: Ghost(Seq::empty()) }
    }

    /// Records one arrived chunk: the running count grows by the chunk's
    /// length and the recorded bytes are extended by the chunk, in order —
    /// nothing dropped, duplicated or reordered.
    pub fn record_chunk(&mut self, chunk: &[u8])
        requires
            old(self).wf(),
            old(self).received + chunk@.len() <= u64::MAX,
        ensures
            final(self).wf(),
            final(self).mode == old(self).mode,
            final(self).bytes@ == old(self).bytes@ + chunk@,
            final(self).received == old(self).received + chunk@.len(),
    {
        self.received = self.received + chunk.len() as u64;
        proof {
            self.bytes@ = self.bytes@ + chunk@;
        }
    }

    /// The whole-percent completion shown by a determinate bar, or nothing
    /// when the mode is indeterminate, the total is zero, or more bytes than
    /// the declared total have arrived.
    pub fn percent(&self) -> (p: Option<u8>)
        ensures
            p == percent_spec(self.mode, self.received),
    {
        match self.mode {
            ProgressMode::Determinate { total } => {
                if total > 0 && self.received <= total {
                    let hundred: u128 = (self.received as u128) * 100;
                    let pct: u128 = hundred / (total as u128);
                    proof {
                        assert(self.received as int * 100 / total as int <= 100)
                            by (nonlinear_arith)
                            requires
                                0 < total as int,
                                self.received as int <= total as int,
                        ;
                        assert(hundred as int / total as int == self.received as int * 100
                            / total as int);
                    }
                    Some(pct as u8)
                } else {
                    None
                }
            },
            ProgressMode::Indeterminate => None,
        }
    }
}

/// The display mode a declared content length selects.
pub open spec fn mode_for_spec(content_length: Option<u64>) -> ProgressMode {
    match content_length {
        Some(total) => ProgressMode::Determinate { total },
        None => ProgressMode::Indeterminate,
    }
}

/// The whole-percent completion of a determinate bar at `received` bytes.
pub open spec fn percent_spec(mode: ProgressMode, received: u64) -> Option<u8> {
    match mode {
        ProgressMode::Determinate { total } => if 0 < total && received <= total {
            Some((received as int * 100 / total as int) as u8)
        } else {
            None
        },
        ProgressMode::Indeterminate => None,
    }
}

/// A determinate bar reaches one hundred percent exactly when the stream's
/// total equals the declared content length: short of the total the percent
/// stays below one hundred.
pub proof fn lemma_percent_complete(total: u64, received: u64)
    requires
        0 < total,
        received <= total,
    ensures
        percent_spec(ProgressMode::Determinate { total }, received) == Some(100u8) <==> received
            == total,
{
    let r = received as int;
    let t = total as int;
    assert(r < t ==> r * 100 / t < 100) by (nonlinear_arith)
        requires
            0 < t,
    ;
    assert(r == t ==> r * 100 / t == 100) by (nonlinear_arith)
        requires
            0 < t,
    ;
}

/// Replays a stream chunk by chunk, the way `record_chunk` extends the ghost
/// bytes: each step appends one chunk to what came before.
pub open spec fn replayed_bytes(chunks: Seq<Seq<u8>>) -> Seq<u8>
    decreases chunks.len(),
{
    if chunks.len() == 0 {
        Seq::empty()
    } else {
        replayed_bytes(chunks.drop_last()) + chunks.last()
    }
}

/// Feeding a stream's chunks through `record_chunk` one at a time writes
/// exactly the concatenation of the chunks, in order: chunk boundaries drop,
/// duplicate and reorder nothing.
pub proof fn lemma_replay_is_concatenation(chunks: Seq<Seq<u8>>)
    ensures
        replayed_bytes(chunks) == chunks.flatten(),
    decreases chunks.len(),
{
    if chunks.len() == 0 {
        assert(chunks.flatten() =~= Seq::<u8>::empty());
    } else {
        lemma_replay_is_concatenation(chunks.drop_last());
        chunks.lemma_flatten_and_flatten_alt_are_equivalent();
        chunks.drop_last().lemma_flatten_and_flatten_alt_are_equivalent();
        assert(chunks.flatten_alt() == chunks.drop_last().flatten_alt() + chunks.last());
    }
}

/// Concatenates a list of chunks into the byte sequence a successful
/// download writes to the output file.
pub fn concat_chunks(chunks: &Vec<Vec<u8>>) -> (out: Vec<u8>)
    ensures
        out@ == chunks.deep_view().flatten(),
{
    let mut out: Vec<u8> = Vec::new();
    let mut i: usize = 0;
    proof {
        assert(out@ =~= replayed_bytes(chunks.deep_view().subrange(0, 0)));
    }
    while i < chunks.len()
        invariant
            i <= chunks.len(),
            out@ == replayed_bytes(chunks.deep_view().subrange(0, i as int)),
        decreases chunks.len() - i,
    {
        let chunk = &chunks[i];
        let mut j: usize = 0;
        let ghost mid = out@;
        proof {
            assert(out@ =~= mid + chunk@.subrange(0, 0));
        }
        while j < chunk.len()
            invariant
                j <= chunk.len(),
                chunk@ == chunks@[i as int]@,
                out@ == mid + chunk@.subrange(0, j as int),
            decreases chunk.len() - j,
        {
            out.push(chunk[j]);
            proof {
                assert(out@ =~= mid + chunk@.subrange(0, j + 1 as int));
            }
            j += 1;
        }
        proof {
            let pre = chunks.deep_view().subrange(0, i as int);
            let post = chunks.deep_view().subrange(0, i + 1 as int);
            assert(chunk@.subrange(0, chunk@.len() as int) =~= chunk@);
            assert(post.drop_last() =~= pre);
            assert(post.last() == chunks.deep_view()[i as int]);
            assert(chunks.deep_view()[i as int] =~= chunk@);
            assert(out@ == replayed_bytes(post));
        }
        i += 1;
    }
    proof {
        assert(chunks.deep_view().subrange(0, chunks.deep_view().len() as int) =~= chunks.deep_view());
        lemma_replay_is_concatenation(chunks.deep_view());
    }
    out
}

} // verus!
