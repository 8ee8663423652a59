//! The cognitive scheduler's state: the per-user task map, goal
//! assignment, the per-tick task update, and rehydration of the map from
//! durable records at startup. The surrounding tick loop performs the
//! observe/decide/act calls and hands their outcomes to these functions.

use vstd::prelude::*;
use crate::kv::KvVec;
use crate::task::{spec_tick, Task, TaskStatus, TaskView};
use crate::codec::{decode_task, encode_task, spec_decode_task, spec_encode_task};

verus! {

/// Seconds between two scheduler ticks.
pub const TICK_INTERVAL_SECS: u64 = 2;

/// The task-view map a task map denotes.
pub open spec fn task_views(m: Map<Seq<char>, Task>) -> Map<Seq<char>, TaskView> {
    Map::new(|k: Seq<char>| m.contains_key(k), |k: Seq<char>| m[k]@)
}

/// The map a record list hydrates into: records are read in order, later
/// ones superseding earlier ones for the same key; records that do not
/// decode, decode to an ill-formed task, or are filed under a key other
/// than their task's own id are skipped.
pub open spec fn spec_hydrate(records: Seq<(String, String)>) -> Map<Seq<char>, TaskView>
    decreases records.len(),
{
    if records.len() == 0 {
        Map::empty()
    } else {
        let m = spec_hydrate(records.drop_last());
        let k = records.last().0;
        match spec_decode_task(records.last().1@) {
            Some(tv) => if tv.wf() && tv.id == k@ {
                m.insert(k@, tv)
            } else {
                m
            },
            None => m,
        }
    }
}

/// The scheduler's own state: one task per user id, the sole authority on
/// whether that user is processed.
pub struct CognitiveSystem {
    tasks: KvVec<Task>,
}

impl View for CognitiveSystem {
    type V = Map<Seq<char>, Task>;

    closed spec fn view(&self) -> Map<Seq<char>, Task> {
        self.tasks@
    }
}

impl CognitiveSystem {
    /// Every task is well formed and keyed under its own user id.
    pub closed spec fn wf(&self) -> bool {
        &&& self.tasks.wf()
        &&& forall|k: Seq<char>|
            #[trigger] self.tasks@.contains_key(k) ==> self.tasks@[k].wf() && self.tasks@[k].id@
                == k
    }

    /// An empty scheduler, before any record is loaded.
    pub fn new() -> (s: Self)
        ensures
            s.wf(),
            s@ == Map::<Seq<char>, Task>::empty(),
    {
        CognitiveSystem { tasks: KvVec::new() }
    }

    /// Rebuilds the task map from the durable records, in the order the
    /// store yields them.
    pub fn hydrate(records: &Vec<(String, String)>) -> (s: Self)
        ensures
            s.wf(),
            task_views(s@) == spec_hydrate(records@),
    {
        let n = records.len();
        let mut sys = CognitiveSystem { tasks: KvVec::new() };
        proof {
            assert(task_views(sys@) =~= spec_hydrate(records@.take(0)));
        }
        let mut i: usize = 0;
        while i < n
            invariant
                n == records@.len(),
                i <= n,
                sys.wf(),
                task_views(sys@) == spec_hydrate(records@.take(i as int)),
            decreases n - i,
        {
            proof {
                assert(records@.take(i + 1).drop_last() =~= records@.take(i as int));
                assert(records@.take(i + 1).last() == records@[i as int]);
            }
            let key = &records[i].0;
            match decode_task(records[i].1.as_str()) {
                Some(t) => {
                    let ok = match t.status {
                        TaskStatus::Active => t.step <= crate::task::STEP_LIMIT,
                        _ => true,
                    };
                    if ok && crate::kv::str_eq(t.id.as_str(), key.as_str()) {
                        let k = t.id.clone();
                        let ghost pre = sys.tasks@;
                        sys.tasks.insert(k, t);
                        proof {
                            assert(task_views(sys.tasks@) =~= task_views(pre).insert(key@, t@));
                        }
                    }
                },
                None => {},
            }
            i += 1;
        }
        proof {
            assert(records@.take(n as int) =~= records@);
        }
        sys
    }

    /// Replaces any task of this user with a fresh active task at step
    /// zero, silently; returns the record that must be persisted for it.
    pub fn set_goal(&mut self, user_id: String, description: String) -> (record: (String, String))
        requires
            old(self).wf(),
        ensures
            final(self).wf(),
            final(self)@ == old(self)@.insert(
                user_id@,
                Task::spec_fresh(user_id, description),
            ),
            record.0@ == user_id@,
            record.1@ == spec_encode_task(Task::spec_fresh(user_id, description)@),
    {
        let task = Task::fresh(user_id.clone(), description);
        let record_val = encode_task(&task);
        self.tasks.insert(user_id.clone(), task);
        (user_id, record_val)
    }

    /// The task of one user, if any.
    pub fn get(&self, user_id: &str) -> (r: Option<&Task>)
        requires
            self.wf(),
        ensures
            match r {
                Some(t) => self@.contains_key(user_id@) && *t == self@[user_id@],
                None => !self@.contains_key(user_id@),
            },
    {
        self.tasks.get(user_id)
    }

    /// Applies one tick's outcome to the user's task: the step advances,
    /// a "done" decision completes the task, passing the ceiling fails
    /// it; returns the record to persist. Without a task for the user,
    /// nothing changes.
    pub fn tick_update(&mut self, user_id: &str, done: bool) -> (record: Option<(String, String)>)
        requires
            old(self).wf(),
            old(self)@.contains_key(user_id@) ==> old(self)@[user_id@].status
                == TaskStatus::Active,
        ensures
            final(self).wf(),
            match record {
                Some(rec) => {
                    &&& old(self)@.contains_key(user_id@)
                    &&& final(self)@ == old(self)@.insert(
                        user_id@,
                        spec_tick(old(self)@[user_id@], done),
                    )
                    &&& rec.0@ == user_id@
                    &&& rec.1@ == spec_encode_task(spec_tick(old(self)@[user_id@], done)@)
                },
                None => !old(self)@.contains_key(user_id@) && final(self)@ == old(self)@,
            },
    {
        let updated = match self.tasks.get(user_id) {
            None => {
                return None;
            },
            Some(t) => crate::task::tick(t, done),
        };
        let rec = encode_task(&updated);
        let key = updated.id.clone();
        let owner = updated.id.clone();
        self.tasks.insert(key, updated);
        Some((owner, rec))
    }

    /// The user ids whose tasks a tick must process: exactly those whose
    /// status is `Active`, each once.
    pub fn active_users(&self) -> (ids: Vec<String>)
        requires
            self.wf(),
        ensures
            forall|j: int|
                0 <= j < ids@.len() ==> self@.contains_key(#[trigger] ids@[j]@)
                    && self@[ids@[j]@].status == TaskStatus::Active,
            forall|k: Seq<char>|
                #[trigger] self@.contains_key(k) && self@[k].status == TaskStatus::Active
                    ==> exists|j: int| 0 <= j < ids@.len() && ids@[j]@ == k,
            forall|j1: int, j2: int| 0 <= j1 < j2 < ids@.len() ==> ids@[j1]@ != ids@[j2]@,
    {
        let n = self.tasks.len();
        let mut ids: Vec<String> = Vec::new();
        proof {
            self.tasks.lemma_keys_distinct();
        }
        let mut i: usize = 0;
        while i < n
            invariant
                n == self.tasks.spec_len(),
                i <= n,
                self.wf(),
                forall|a: int, b: int|
                    0 <= a < b < self.tasks.spec_len() ==> self.tasks.key_seq()[a]
                        != self.tasks.key_seq()[b],
                forall|j: int|
                    0 <= j < ids@.len() ==> self@.contains_key(#[trigger] ids@[j]@)
                        && self@[ids@[j]@].status == TaskStatus::Active,
                forall|j: int|
                    0 <= j < ids@.len() ==> exists|m: int|
                        0 <= m < i && (#[trigger] ids@[j])@ == self.tasks.key_seq()[m],
                forall|j1: int, j2: int| 0 <= j1 < j2 < ids@.len() ==> ids@[j1]@ != ids@[j2]@,
                forall|m: int|
                    0 <= m < i && self@[#[trigger] self.tasks.key_seq()[m]].status
                        == TaskStatus::Active ==> exists|j: int|
                        0 <= j < ids@.len() && ids@[j]@ == self.tasks.key_seq()[m],
            decreases n - i,
        {
            let v = self.tasks.value_at(i);
            let ghost pre_ids = ids@;
            if matches!(v.status, TaskStatus::Active) {
                let k = self.tasks.key_at(i);
                ids.push(k.clone());
                proof {
                    let ks = self.tasks.key_seq();
                    assert(ids@.last()@ == ks[i as int]);
                    assert(forall|j: int| 0 <= j < pre_ids.len() ==> ids@[j] == pre_ids[j]);
                    assert forall|j1: int, j2: int|
                        0 <= j1 < j2 < ids@.len() implies ids@[j1]@ != ids@[j2]@ by {
                        if j2 == ids@.len() - 1 {
                            let m = choose|m: int| 0 <= m < i && (#[trigger] pre_ids[j1])@
                                == ks[m];
                            assert(ids@[j1]@ == ks[m]);
                            assert(ks[m] != ks[i as int]);
                        }
                    }
                    assert forall|j: int| 0 <= j < ids@.len() implies exists|m: int|
                        0 <= m < i + 1 && (#[trigger] ids@[j])@ == ks[m] by {
                        if j == ids@.len() - 1 {
                            assert(ids@[j]@ == ks[i as int]);
                        } else {
                            let m = choose|m: int| 0 <= m < i && (#[trigger] pre_ids[j])@
                                == ks[m];
                            assert(ids@[j]@ == ks[m]);
                        }
                    }
                    assert forall|m: int|
                        0 <= m < i + 1 && self@[#[trigger] ks[m]].status
                            == TaskStatus::Active implies exists|j: int|
                        0 <= j < ids@.len() && ids@[j]@ == ks[m] by {
                        if m == i {
                            assert(ids@[ids@.len() - 1]@ == ks[i as int]);
                        } else {
                            let j = choose|j: int| 0 <= j < pre_ids.len() && (#[trigger] pre_ids[j])@
                                == ks[m];
                            assert(ids@[j]@ == ks[m]);
                        }
                    }
                }
            } else {
                proof {
                    assert(self@[self.tasks.key_seq()[i as int]].status != TaskStatus::Active);
                }
            }
            i += 1;
        }
        proof {
            assert forall|k: Seq<char>|
                #[trigger] self@.contains_key(k) && self@[k].status
                    == TaskStatus::Active implies exists|j: int|
                0 <= j < ids@.len() && ids@[j]@ == k by {
                self.tasks.lemma_cover(k);
                let m = choose|m: int|
                    0 <= m < self.tasks.spec_len() && self.tasks.key_seq()[m] == k;
                assert(self@[self.tasks.key_seq()[m]].status == TaskStatus::Active);
            }
        }
        ids
    }
}

/// Across one tick of any user — the map update `tick_update` performs —
/// no task disappears and no task's step counter decreases.
pub proof fn lemma_tick_monotone_map(
    pre: Map<Seq<char>, Task>,
    post: Map<Seq<char>, Task>,
    uid: Seq<char>,
    done: bool,
)
    requires
        pre.contains_key(uid),
        pre[uid].status == TaskStatus::Active,
        pre[uid].wf(),
        post == pre.insert(uid, spec_tick(pre[uid], done)),
    ensures
        forall|k: Seq<char>|
            #[trigger] pre.contains_key(k) ==> post.contains_key(k) && post[k].step >= pre[k].step,
{
}

/// Replaying the record that a goal assignment persisted recovers the
/// same task after a restart: whatever the store held before, hydrating
/// with that record written last yields that very task under its user id.
pub proof fn lemma_restart_recovery(prior: Seq<(String, String)>, user: String, record: String, t: Task)
    requires
        record@ == spec_encode_task(t@),
        t@.wf(),
        t.id@ == user@,
        t.id@.len() <= u64::MAX,
        t.description@.len() <= u64::MAX,
    ensures
        spec_hydrate(prior.push((user, record))).contains_key(user@),
        spec_hydrate(prior.push((user, record)))[user@] == t@,
{
    crate::codec::lemma_codec_round_trip(t@);
    let s = prior.push((user, record));
    assert(s.drop_last() =~= prior);
    assert(s.last() == (user, record));
}

} // verus!
