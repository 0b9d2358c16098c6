//! The peer link's wire protocol: NUL-delimited records.
//!
//! The transport and the JSON encoding of each record live outside the
//! crate; what is verified here is the framing itself — every byte that
//! ever arrives ends up in exactly one place, either inside a delivered
//! frame or in the retained trailing fragment, in order and undamaged.

use vstd::prelude::*;
use crate::vec2::Vec2;

verus! {

/// What travels between the two robots.
#[derive(Clone, Copy, Debug, PartialEq)]
pub enum IntercomMessage {
    Position(IntercomPosition),
    ModeTransition(IntercomMode),
}

/// Which role the behaviour plays.
#[derive(Clone, Copy, Debug, PartialEq, Eq, Structural)]
pub enum BehaviorMode {
    Offense,
    Defense,
}

/// The scene as one robot tells it to the other, in milli-units.
#[derive(Clone, Copy, Debug, PartialEq, Eq, Structural)]
pub struct IntercomPosition {
    pub ball: Vec2,
    pub own_goal: Vec2,
    pub target_goal: Vec2,
}

/// A commanded change of role.
#[derive(Clone, Copy, Debug, PartialEq, Eq, Structural)]
pub struct IntercomMode {
    pub mode: BehaviorMode,
}

/// The frames and the retained fragment, rejoined with their delimiters:
/// the stream they were cut from.
pub open spec fn spec_joined(frames: Seq<Seq<u8>>, rem: Seq<u8>) -> Seq<u8>
    decreases frames.len(),
{
    if frames.len() == 0 {
        rem
    } else {
        frames.first() + seq![0u8] + spec_joined(frames.drop_first(), rem)
    }
}

/// No byte of the sequence is the delimiter.
pub open spec fn spec_no_delim(s: Seq<u8>) -> bool {
    forall|i: int| 0 <= i < s.len() ==> s[i] != 0
}

proof fn lemma_joined_push(frames: Seq<Seq<u8>>, f: Seq<u8>, rem: Seq<u8>)
    ensures
        spec_joined(frames.push(f), rem) == spec_joined(frames, f + seq![0u8] + rem),
    decreases frames.len(),
{
    if frames.len() == 0 {
        assert(frames.push(f).drop_first() =~= Seq::<Seq<u8>>::empty());
        assert(frames.push(f).first() == f);
        assert(spec_joined(frames.push(f).drop_first(), rem) == rem);
        assert(spec_joined(frames.push(f), rem) =~= f + seq![0u8] + rem);
    } else {
        lemma_joined_push(frames.drop_first(), f, rem);
        assert(frames.push(f).drop_first() =~= frames.drop_first().push(f));
        assert(frames.push(f).first() == frames.first());
    }
}

proof fn lemma_joined_extend(frames: Seq<Seq<u8>>, rem: Seq<u8>, b: u8)
    ensures
        spec_joined(frames, rem.push(b)) == spec_joined(frames, rem).push(b),
    decreases frames.len(),
{
    if frames.len() == 0 {
    } else {
        lemma_joined_extend(frames.drop_first(), rem, b);
        assert((frames.first() + seq![0u8] + spec_joined(frames.drop_first(), rem)).push(b)
            =~= frames.first() + seq![0u8] + spec_joined(frames.drop_first(), rem).push(b));
    }
}

/// The views of the delivered frames.
pub open spec fn spec_frame_views(frames: Seq<Vec<u8>>) -> Seq<Seq<u8>> {
    frames.map_values(|f: Vec<u8>| f@)
}

/// Cut a received chunk, appended to the retained fragment of earlier
/// reads, into complete frames. Every complete frame (terminated by the
/// NUL delimiter) is delivered, the trailing fragment is returned to be
/// retained, and nothing is lost, reordered or invented: rejoining the
/// frames and the fragment gives back exactly what was received.
pub fn extract_frames(buffer: Vec<u8>, chunk: &Vec<u8>) -> (r: (Vec<Vec<u8>>, Vec<u8>))
    requires
        buffer@.len() + chunk@.len() <= usize::MAX,
    ensures
        spec_joined(spec_frame_views(r.0@), r.1@) == buffer@ + chunk@,
        forall|i: int| 0 <= i < r.0@.len() ==> spec_no_delim(#[trigger] r.0@[i]@),
        spec_no_delim(r.1@),
{
    let mut data = buffer;
    let n = chunk.len();
    let mut i: usize = 0;
    while i < n
        invariant
            i <= n,
            n == chunk@.len(),
            data@ == buffer@ + chunk@.take(i as int),
        decreases n - i,
    {
        data.push(chunk[i]);
        proof {
            assert(data@ =~= buffer@ + chunk@.take(i + 1));
        }
        i += 1;
    }
    proof {
        assert(buffer@ + chunk@.take(n as int) =~= buffer@ + chunk@);
    }

    let m = data.len();
    let mut frames: Vec<Vec<u8>> = Vec::new();
    let mut cur: Vec<u8> = Vec::new();
    let mut j: usize = 0;
    while j < m
        invariant
            j <= m,
            m == data@.len(),
            spec_joined(spec_frame_views(frames@), cur@) == data@.take(j as int),
            forall|k: int| 0 <= k < frames@.len() ==> spec_no_delim(#[trigger] frames@[k]@),
            spec_no_delim(cur@),
        decreases m - j,
    {
        let b = data[j];
        if b == 0 {
            proof {
                lemma_joined_push(spec_frame_views(frames@), cur@, Seq::<u8>::empty());
                assert(spec_frame_views(frames@.push(cur)) =~= spec_frame_views(frames@).push(
                    cur@,
                ));
                assert(cur@ + seq![0u8] + Seq::<u8>::empty() =~= cur@ + seq![0u8]);
                assert(data@.take(j as int) + seq![0u8] =~= data@.take(j + 1));
                assert(spec_joined(spec_frame_views(frames@), cur@ + seq![0u8]) == spec_joined(
                    spec_frame_views(frames@),
                    cur@,
                ) + seq![0u8]) by {
                    lemma_joined_extend(spec_frame_views(frames@), cur@, 0u8);
                    assert(cur@.push(0u8) =~= cur@ + seq![0u8]);
                    assert(spec_joined(spec_frame_views(frames@), cur@).push(0u8) =~= spec_joined(
                        spec_frame_views(frames@),
                        cur@,
                    ) + seq![0u8]);
                }
            }
            frames.push(cur);
            cur = Vec::new();
        } else {
            proof {
                lemma_joined_extend(spec_frame_views(frames@), cur@, b);
                assert(data@.take(j as int).push(b) =~= data@.take(j + 1));
            }
            cur.push(b);
        }
        j += 1;
    }
    proof {
        assert(data@.take(m as int) =~= data@);
    }
    (frames, cur)
}

/// One record made wire-ready: the payload followed by the delimiter.
/// The payload must not contain the delimiter, or the cut would not
/// return it whole.
pub fn frame_record(payload: &Vec<u8>) -> (r: Vec<u8>)
    requires
        spec_no_delim(payload@),
        payload@.len() < usize::MAX,
    ensures
        r@ == payload@ + seq![0u8],
{
    let n = payload.len();
    let mut out: Vec<u8> = Vec::new();
    let mut i: usize = 0;
    while i < n
        invariant
            i <= n,
            n == payload@.len(),
            out@ == payload@.take(i as int),
        decreases n - i,
    {
        out.push(payload[i]);
        proof {
            assert(out@ =~= payload@.take(i + 1));
        }
        i += 1;
    }
    out.push(0);
    proof {
        assert(payload@.take(n as int) =~= payload@);
        assert(out@ =~= payload@ + seq![0u8]);
    }
    out
}

} // verus!
