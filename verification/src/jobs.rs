//! The index of the jobs that upstreams have announced.
//!
//! Upstream and downstream number their jobs independently, so a share can
//! only be translated while the session knows which upstream announced the
//! job that the share was found for, and on which channel.

use crate::handlers::PeerId;
use std::collections::HashMap;
use vstd::prelude::*;
use vstd::seq_lib::lemma_seq_contains_after_push;
use vstd::std_specs::hash::spec_hash_map_iter;
use vstd::std_specs::iter::IteratorSpec;

verus! {

broadcast use vstd::std_specs::hash::group_hash_axioms;

/// What the session knows of one job.
#[derive(Debug, Clone, Copy, PartialEq, Eq, Structural)]
pub struct JobEntry {
    pub job_id: u32,
    /// The upstream that announced the job.
    pub upstream: PeerId,
    /// The channel that the job was last announced under.
    pub channel_id: u32,
    /// Whether a newer previous-block hash has arrived on the channel since.
    /// Shares for a stale job are still translated; the dispatcher may
    /// reject them.
    pub stale: bool,
}

/// The entry as it stands after a new previous-block hash on `channel_id`.
pub open spec fn stale_on_channel(e: JobEntry, channel_id: u32) -> JobEntry {
    if e.channel_id == channel_id {
        JobEntry { job_id: e.job_id, upstream: e.upstream, channel_id: e.channel_id, stale: true }
    } else {
        e
    }
}

/// The table without the jobs that were last announced under `channel_id`.
pub open spec fn jobs_without_channel(jobs: Map<u32, JobEntry>, channel_id: u32) -> Map<
    u32,
    JobEntry,
> {
    Map::new(
        |job_id: u32| jobs.contains_key(job_id) && jobs[job_id].channel_id != channel_id,
        |job_id: u32| jobs[job_id],
    )
}

/// The table with the jobs of `channel_id` marked stale.
pub open spec fn jobs_with_channel_stale(jobs: Map<u32, JobEntry>, channel_id: u32) -> Map<
    u32,
    JobEntry,
> {
    Map::new(
        |job_id: u32| jobs.contains_key(job_id),
        |job_id: u32| stale_on_channel(jobs[job_id], channel_id),
    )
}

/// The table without the jobs in `gone`.
spec fn without_jobs(jobs: Map<u32, JobEntry>, gone: Seq<u32>) -> Map<u32, JobEntry> {
    Map::new(
        |job_id: u32| jobs.contains_key(job_id) && !gone.contains(job_id),
        |job_id: u32| jobs[job_id],
    )
}

/// The table with the jobs in `marked` as they stand after a new
/// previous-block hash on `channel_id`.
spec fn with_jobs_stale(jobs: Map<u32, JobEntry>, marked: Seq<u32>, channel_id: u32) -> Map<
    u32,
    JobEntry,
> {
    Map::new(
        |job_id: u32| jobs.contains_key(job_id),
        |job_id: u32|
            if marked.contains(job_id) {
                stale_on_channel(jobs[job_id], channel_id)
            } else {
                jobs[job_id]
            },
    )
}

/// The jobs that upstreams have announced, by job id.
#[derive(Debug)]
pub struct JobTable {
    entries: HashMap<u32, JobEntry>,
}

impl View for JobTable {
    type V = Map<u32, JobEntry>;

    closed spec fn view(&self) -> Map<u32, JobEntry> {
        self.entries@
    }
}

impl JobTable {
    /// A table without jobs.
    pub fn new() -> (table: JobTable)
        ensures
            table@ == Map::<u32, JobEntry>::empty(),
    {
        JobTable { entries: HashMap::new() }
    }

    /// What the table knows of a job.
    pub fn get(&self, job_id: u32) -> (entry: Option<JobEntry>)
        ensures
            entry == (if self@.contains_key(job_id) {
                Some(self@[job_id])
            } else {
                None
            }),
    {
        match self.entries.get(&job_id) {
            Some(entry) => Some(*entry),
            None => None,
        }
    }

    /// The upstream that announced a job.
    pub fn upstream_from_job_id(&self, job_id: u32) -> (upstream: Option<PeerId>)
        ensures
            upstream == (if self@.contains_key(job_id) {
                Some(self@[job_id].upstream)
            } else {
                None
            }),
    {
        match self.get(job_id) {
            Some(entry) => Some(entry.upstream),
            None => None,
        }
    }

    /// Records that `upstream` announced `job_id` under `channel_id`. What
    /// the table knew of the job before is replaced; the job is fresh.
    pub fn record(&mut self, job_id: u32, upstream: PeerId, channel_id: u32)
        ensures
            final(self)@ == old(self)@.insert(
                job_id,
                (JobEntry { job_id, upstream, channel_id, stale: false }),
            ),
    {
        self.entries.insert(job_id, JobEntry { job_id, upstream, channel_id, stale: false });
    }

    /// The jobs that were last announced under `channel_id`.
    fn jobs_of_channel(&self, channel_id: u32) -> (jobs: Vec<u32>)
        ensures
            forall|job_id: u32|
                jobs@.contains(job_id) <==> self@.contains_key(job_id) && self@[job_id].channel_id
                    == channel_id,
    {
        let mut jobs: Vec<u32> = Vec::new();
        let ghost all = spec_hash_map_iter(&self.entries).remaining();
        for pair in it: self.entries.iter()
            invariant
                it.seq() == all,
                all == spec_hash_map_iter(&self.entries).remaining(),
                forall|job_id: u32| #[trigger]
                    jobs@.contains(job_id) ==> self.entries@.contains_key(job_id)
                        && self.entries@[job_id].channel_id == channel_id,
                forall|j: int|
                    0 <= j < it.index() && (#[trigger] all[j]).1.channel_id == channel_id
                        ==> jobs@.contains(*all[j].0),
        {
            let ghost at = it.index() as int;
            let ghost key = *all[at].0;
            let ghost value = *all[at].1;
            assert(pair == all[at]);
            assert(self.entries@.contains_key(key));
            assert(self.entries@[key] == value);
            let (job_id, entry) = pair;
            assert(*job_id == key && *entry == value);
            let ghost had = jobs@;
            if entry.channel_id == channel_id {
                jobs.push(*job_id);
            }
            proof {
                if value.channel_id == channel_id {
                    assert(jobs@ == had.push(key));
                    assert forall|x: u32| jobs@.contains(x) <==> x == key || had.contains(x) by {
                        lemma_seq_contains_after_push(had, key, x);
                    }
                } else {
                    assert(jobs@ == had);
                }
                assert forall|x: u32| #[trigger] jobs@.contains(x) implies self.entries@.contains_key(
                    x,
                ) && self.entries@[x].channel_id == channel_id by {
                    if value.channel_id == channel_id {
                        lemma_seq_contains_after_push(had, key, x);
                    }
                    if x != key || value.channel_id != channel_id {
                        assert(had.contains(x));
                    }
                }
                assert forall|j: int|
                    0 <= j < at + 1 && (#[trigger] all[j]).1.channel_id
                        == channel_id implies jobs@.contains(*all[j].0) by {
                    if j < at {
                        assert(had.contains(*all[j].0));
                    }
                }
            }
        }
        proof {
            assert forall|job_id: u32|
                self@.contains_key(job_id) && self@[job_id].channel_id
                    == channel_id implies jobs@.contains(job_id) by {
                assert(all.contains((&job_id, &self.entries@[job_id])));
                let j = choose|j: int|
                    0 <= j < all.len() && all[j] == (&job_id, &self.entries@[job_id]);
                assert(all[j].1.channel_id == channel_id);
            }
        }
        jobs
    }

    /// Forgets every job that was last announced under `channel_id`, as when
    /// the channel is closed.
    pub fn remove_channel(&mut self, channel_id: u32)
        ensures
            final(self)@ == jobs_without_channel(old(self)@, channel_id),
    {
        let gone = self.jobs_of_channel(channel_id);
        let ghost before = self.entries@;
        let n = gone.len();
        let mut i: usize = 0;
        assert(self.entries@ =~= without_jobs(before, gone@.take(0)));
        while i < n
            invariant
                n == gone@.len(),
                i <= n,
                self.entries@ == without_jobs(before, gone@.take(i as int)),
            decreases n - i,
        {
            let job_id = gone[i];
            let ghost kept = self.entries@;
            self.entries.remove(&job_id);
            proof {
                assert(self.entries@ == kept.remove(job_id));
                assert(gone@.take(i + 1) =~= gone@.take(i as int).push(job_id));
                assert forall|x: u32|
                    gone@.take(i + 1).contains(x) <==> x == job_id || gone@.take(
                        i as int,
                    ).contains(x) by {
                    lemma_seq_contains_after_push(gone@.take(i as int), job_id, x);
                }
                assert(self.entries@ =~= without_jobs(before, gone@.take(i + 1)));
            }
            i = i + 1;
        }
        proof {
            assert(gone@.take(n as int) =~= gone@);
            assert(self.entries@ =~= jobs_without_channel(before, channel_id));
        }
    }

    /// Marks every job that was announced under `channel_id` as stale, as
    /// when a new previous-block hash arrives on the channel.
    pub fn invalidate_channel(&mut self, channel_id: u32)
        ensures
            final(self)@ == jobs_with_channel_stale(old(self)@, channel_id),
    {
        let marked = self.jobs_of_channel(channel_id);
        let ghost before = self.entries@;
        let n = marked.len();
        let mut i: usize = 0;
        assert(self.entries@ =~= with_jobs_stale(before, marked@.take(0), channel_id));
        while i < n
            invariant
                n == marked@.len(),
                i <= n,
                forall|job_id: u32| #[trigger]
                    marked@.contains(job_id) ==> before.contains_key(job_id)
                        && before[job_id].channel_id == channel_id,
                self.entries@ == with_jobs_stale(before, marked@.take(i as int), channel_id),
            decreases n - i,
        {
            let job_id = marked[i];
            let ghost kept = self.entries@;
            assert(marked@.contains(job_id));
            let entry = match self.entries.get(&job_id) {
                Some(entry) => *entry,
                // every marked job is in the table
                None => unreached(),
            };
            self.entries.insert(
                job_id,
                JobEntry {
                    job_id: entry.job_id,
                    upstream: entry.upstream,
                    channel_id: entry.channel_id,
                    stale: true,
                },
            );
            proof {
                assert(entry == kept[job_id]);
                assert(marked@.take(i + 1) =~= marked@.take(i as int).push(job_id));
                assert forall|x: u32|
                    marked@.take(i + 1).contains(x) <==> x == job_id || marked@.take(
                        i as int,
                    ).contains(x) by {
                    lemma_seq_contains_after_push(marked@.take(i as int), job_id, x);
                }
                assert(stale_on_channel(stale_on_channel(before[job_id], channel_id), channel_id)
                    == stale_on_channel(before[job_id], channel_id));
                assert(self.entries@ =~= with_jobs_stale(
                    before,
                    marked@.take(i + 1),
                    channel_id,
                ));
            }
            i = i + 1;
        }
        proof {
            assert(marked@.take(n as int) =~= marked@);
            assert(self.entries@ =~= jobs_with_channel_stale(before, channel_id));
        }
    }
}

} // verus!
