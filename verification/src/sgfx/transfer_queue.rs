//! The graphics library's transfer queue: the commands it appends, and the data it keeps
//! alive until the GPU has passed the point in the queue that reads it.

use vstd::prelude::*;
use super::command_list_internal::CommandListBuilderInternal;
use crate::sdk::command_list::{spec_push_outcome, CommandListBuilder};
use crate::sdk::gpu::{spec_set_video_mode_command, GpuCommandBuilderExt, VideoResolution};

verus! {

/// Appends a video mode command with `resolution` and all layers (backgrounds, sprites and
/// triangles) on.
pub fn append_set_video_mode(pending: &mut CommandListBuilderInternal, resolution: VideoResolution)
    requires
        old(pending).inv(),
    ensures
        final(pending).inv(),
        exists|ok: bool| spec_push_outcome(old(pending).written(), old(pending).room(), final(pending).written(),
            final(pending).room(), spec_set_video_mode_command(resolution, true, true, true), ok),
{
    let _ = pending.set_video_mode(resolution, true, true, true);
}

/// The kept data after the GPU has passed point `current`: data waiting for a point at or
/// before it is let go.
pub open spec fn released<T>(retained: Seq<(Option<T>, usize)>, current: int) -> Seq<(Option<T>, usize)> {
    retained.map_values(|e: (Option<T>, usize)| if e.0 is Some && e.1 <= current { (None::<T>, e.1) } else { e })
}

/// The position of the first entry from `k` that still holds data, or the end.
pub open spec fn first_held<T>(retained: Seq<(Option<T>, usize)>, k: int) -> int
    decreases retained.len() - k,
{
    if 0 <= k < retained.len() && retained[k].0 is None {
        first_held(retained, k + 1)
    } else {
        k
    }
}

/// The first entry from `k` that holds data is at `j` (or there is none when `j` is the end).
proof fn lemma_first_held<T>(retained: Seq<(Option<T>, usize)>, k: int, j: int)
    requires
        0 <= k <= j <= retained.len(),
        forall|i: int| k <= i < j ==> (#[trigger] retained[i]).0 is None,
        j == retained.len() || retained[j].0 is Some,
    ensures
        first_held(retained, k) == j,
    decreases j - k,
{
    if k < j {
        lemma_first_held(retained, k + 1, j);
    }
}

/// Lets go of the data whose point in the queue (its number) is at or before `current_sid`,
/// the point the GPU has passed, then drops the entries at the front that hold nothing.
pub fn resolve_retained_writes<T>(retained: &mut Vec<(Option<T>, usize)>, current_sid: u32)
    ensures
        ({
            let r = released(old(retained)@, current_sid as int);
            final(retained)@ == r.subrange(first_held(r, 0), r.len() as int)
        }),
{
    let ghost r = released(retained@, current_sid as int);
    let ghost start = retained@;
    let mut i: usize = 0;
    while i < retained.len()
        invariant
            i <= retained@.len(),
            retained@.len() == start.len(),
            r == released(start, current_sid as int),
            forall|j: int| 0 <= j < i ==> #[trigger] retained@[j] == r[j],
            forall|j: int| i <= j < retained@.len() ==> #[trigger] retained@[j] == start[j],
        decreases retained@.len() - i,
    {
        let release = match &retained[i] {
            (Some(_), sid) => *sid <= current_sid as usize,
            (None, _) => false,
        };
        if release {
            let sid = retained[i].1;
            retained.set(i, (None, sid));
        }
        i = i + 1;
    }
    assert(retained@ =~= r);
    let ghost mut k: int = 0;
    while retained.len() > 0 && retained[0].0.is_none()
        invariant
            0 <= k <= r.len(),
            retained@ == r.subrange(k, r.len() as int),
            forall|j: int| 0 <= j < k ==> (#[trigger] r[j]).0 is None,
        decreases retained@.len(),
    {
        proof { assert(r[k].0 is None); }
        retained.remove(0);
        proof { k = k + 1; }
        assert(retained@ =~= r.subrange(k, r.len() as int));
    }
    proof { lemma_first_held(r, 0, k); }
}

} // verus!
