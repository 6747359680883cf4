//! Sample-table building: compresses per-frame metadata into the compact
//! run-length tables that animated sequences carry.

use vstd::prelude::*;

verus! {

use crate::FrameInfo;
use crate::moov::SttsEntry;
use crate::moov::StssBox;

/// The durations of a frame list, in order.
pub open spec fn durations_of(s: Seq<FrameInfo>) -> Seq<u64> {
    s.map_values(|f: FrameInfo| f.duration_in_timescales)
}

/// The encoded sizes of a frame list, in order.
pub open spec fn sizes_of(s: Seq<FrameInfo>) -> Seq<u32> {
    s.map_values(|f: FrameInfo| f.size)
}

/// Sum of all frame durations.
pub open spec fn spec_total_duration(s: Seq<FrameInfo>) -> nat
    decreases s.len(),
{
    if s.len() == 0 {
        0
    } else {
        (spec_total_duration(s.drop_last()) + s.last().duration_in_timescales) as nat
    }
}

/// Run-length encoding of a duration list: one (count, duration) entry per
/// maximal run of consecutive equal durations, in input order. A single
/// duration yields one run of length one; an empty list yields no runs.
pub open spec fn spec_duration_runs(s: Seq<u64>) -> Seq<SttsEntry>
    decreases s.len(),
{
    if s.len() == 0 {
        Seq::empty()
    } else {
        let prev = spec_duration_runs(s.drop_last());
        if s.len() >= 2 && s.last() == s[s.len() - 2] {
            prev.update(
                prev.len() - 1,
                SttsEntry {
                    sample_count: (prev.last().sample_count + 1) as u32,
                    sample_delta: prev.last().sample_delta,
                },
            )
        } else {
            prev.push(SttsEntry { sample_count: 1, sample_delta: s.last() as u32 })
        }
    }
}

/// The 1-based indices of the sync frames, ascending.
pub open spec fn spec_sync_indices(s: Seq<FrameInfo>) -> Seq<u32>
    decreases s.len(),
{
    if s.len() == 0 {
        Seq::empty()
    } else {
        let prev = spec_sync_indices(s.drop_last());
        if s.last().sync {
            prev.push(s.len() as u32)
        } else {
            prev
        }
    }
}

/// Builds the run-length duration table of a frame list.
pub fn build_duration_runs(frames: &[FrameInfo]) -> (r: Vec<SttsEntry>)
    requires
        frames@.len() <= u32::MAX,
    ensures
        r@ == spec_duration_runs(durations_of(frames@)),
{
    let n = frames.len();
    let ghost ds = durations_of(frames@);
    let mut runs: Vec<SttsEntry> = Vec::new();
    let mut count: u32 = 0;
    let mut i: usize = 0;
    while i < n
        invariant
            n == frames@.len(),
            n <= u32::MAX,
            ds == durations_of(frames@),
            ds.len() == n,
            i <= n,
            count <= i,
            count > 0 ==> 0 < i < n && ds[i - 1] == ds[i as int],
            count == 0 && 0 < i < n ==> ds[i - 1] != ds[i as int],
            spec_duration_runs(ds.subrange(0, i as int)) == (if count == 0 {
                runs@
            } else {
                runs@.push(
                    SttsEntry { sample_count: count, sample_delta: ds[i - 1] as u32 },
                )
            }),
        decreases n - i,
    {
        let ghost pre = ds.subrange(0, i as int);
        let ghost post = ds.subrange(0, i as int + 1);
        proof {
            assert(post.drop_last() =~= pre);
            assert(post.last() == ds[i as int]);
        }
        count = count + 1;
        // The current run now covers frame i; relate it to the spec's runs
        // of the one-longer prefix.
        proof {
            let prev = spec_duration_runs(pre);
            if count == 1 {
                // frame i starts a new run
                assert(!(post.len() >= 2 && post.last() == post[post.len() - 2]));
                assert(spec_duration_runs(post) == prev.push(
                    SttsEntry { sample_count: 1, sample_delta: ds[i as int] as u32 },
                ));
            } else {
                // frame i extends the open run
                assert(post.len() >= 2 && post.last() == post[post.len() - 2]);
                let open = SttsEntry {
                    sample_count: (count - 1) as u32,
                    sample_delta: ds[i - 1] as u32,
                };
                assert(prev == runs@.push(open));
                assert(prev.last() == open);
                assert(prev.len() - 1 == runs@.len());
                assert(spec_duration_runs(post) == prev.update(
                    runs@.len() as int,
                    SttsEntry { sample_count: count, sample_delta: open.sample_delta },
                ));
                assert(prev.update(
                    runs@.len() as int,
                    SttsEntry { sample_count: count, sample_delta: open.sample_delta },
                ) =~= runs@.push(
                    SttsEntry { sample_count: count, sample_delta: ds[i - 1] as u32 },
                ));
                assert(ds[i - 1] == ds[i as int]);
            }
            assert(spec_duration_runs(post) == runs@.push(
                SttsEntry { sample_count: count, sample_delta: ds[i as int] as u32 },
            ));
        }
        if i < n - 1 && frames[i].duration_in_timescales == frames[i + 1].duration_in_timescales {
            i = i + 1;
        } else {
            runs.push(
                SttsEntry {
                    sample_count: count,
                    sample_delta: frames[i].duration_in_timescales as u32,
                },
            );
            count = 0;
            i = i + 1;
        }
    }
    proof {
        assert(ds.subrange(0, n as int) =~= ds);
    }
    runs
}

/// Builds the optional sync-sample table. It is omitted exactly when every
/// frame is a sync frame; otherwise it lists the 1-based indices of the sync
/// frames, ascending.
pub fn build_sync_table(frames: &[FrameInfo]) -> (r: Option<StssBox>)
    requires
        frames@.len() <= u32::MAX,
    ensures
        match r {
            Some(b) => spec_sync_indices(frames@).len() != frames@.len() && b.entry_count
                == spec_sync_indices(frames@).len() && b.sample_number@ == spec_sync_indices(
                frames@,
            ),
            None => spec_sync_indices(frames@).len() == frames@.len(),
        },
{
    let n = frames.len();
    let mut sample_number: Vec<u32> = Vec::new();
    let mut i: usize = 0;
    while i < n
        invariant
            n == frames@.len(),
            n <= u32::MAX,
            i <= n,
            sample_number@ == spec_sync_indices(frames@.subrange(0, i as int)),
        decreases n - i,
    {
        proof {
            assert(frames@.subrange(0, i as int + 1).drop_last() =~= frames@.subrange(0, i as int));
            assert(frames@.subrange(0, i as int + 1).last() == frames@[i as int]);
        }
        if frames[i].sync {
            sample_number.push((i + 1) as u32);
        }
        i = i + 1;
    }
    proof {
        assert(frames@.subrange(0, n as int) =~= frames@);
    }
    if sample_number.len() != n {
        let entry_count = sample_number.len() as u32;
        proof {
            lemma_sync_indices_count(frames@);
        }
        Some(StssBox { entry_count, sample_number })
    } else {
        None
    }
}

/// There are never more sync indices than frames.
pub proof fn lemma_sync_indices_count(s: Seq<FrameInfo>)
    ensures
        spec_sync_indices(s).len() <= s.len(),
    decreases s.len(),
{
    if s.len() > 0 {
        lemma_sync_indices_count(s.drop_last());
    }
}

/// Collects the per-frame encoded sizes, one entry per frame, in order.
pub fn build_sizes(frames: &[FrameInfo]) -> (r: Vec<u32>)
    ensures
        r@ == sizes_of(frames@),
{
    let n = frames.len();
    let mut sizes: Vec<u32> = Vec::new();
    let mut i: usize = 0;
    while i < n
        invariant
            n == frames@.len(),
            i <= n,
            sizes@ == sizes_of(frames@).subrange(0, i as int),
        decreases n - i,
    {
        sizes.push(frames[i].size);
        i = i + 1;
        assert(sizes@ =~= sizes_of(frames@).subrange(0, i as int));
    }
    proof {
        assert(sizes_of(frames@).subrange(0, n as int) =~= sizes_of(frames@));
    }
    sizes
}

/// Sums the frame durations in timescale units.
pub fn total_duration(frames: &[FrameInfo]) -> (r: u64)
    requires
        spec_total_duration(frames@) <= u64::MAX,
    ensures
        r == spec_total_duration(frames@),
{
    let n = frames.len();
    let mut total: u64 = 0;
    let mut i: usize = 0;
    while i < n
        invariant
            n == frames@.len(),
            i <= n,
            spec_total_duration(frames@) <= u64::MAX,
            total == spec_total_duration(frames@.subrange(0, i as int)),
        decreases n - i,
    {
        proof {
            assert(frames@.subrange(0, i as int + 1).drop_last() =~= frames@.subrange(0, i as int));
            lemma_total_duration_prefix(frames@, i as int + 1);
        }
        total = total + frames[i].duration_in_timescales;
        i = i + 1;
    }
    proof {
        assert(frames@.subrange(0, n as int) =~= frames@);
    }
    total
}

/// A prefix of the frames never lasts longer than all of them.
pub proof fn lemma_total_duration_prefix(s: Seq<FrameInfo>, i: int)
    requires
        0 <= i <= s.len(),
    ensures
        spec_total_duration(s.subrange(0, i)) <= spec_total_duration(s),
    decreases s.len() - i,
{
    if i == s.len() {
        assert(s.subrange(0, i) =~= s);
    } else {
        lemma_total_duration_prefix(s, i + 1);
        assert(s.subrange(0, i + 1).drop_last() =~= s.subrange(0, i));
    }
}

} // verus!
