//! The running workers, each known under a key, and the decisions of the
//! manager that starts, stops and reconciles them.
use vstd::prelude::*;
use crate::text::{str_equals, owned, concat2, concat3, i64_to_decimal, signed_decimal};
use crate::config::{worker_key, worker_key_spec};

verus! {

/// A command sent to the worker manager.
#[derive(Debug, Clone, Copy, PartialEq, Eq, Structural)]
pub enum WorkerCommand {
    /// Start the worker with this id.
    Start(i64),
    /// Stop the worker with this id.
    Stop(i64),
    /// Stop every worker and start all configured ones again.
    Reload,
}

/// Position of the entry for `key` in `s`, or -1 when there is none.
pub open spec fn key_index<H>(s: Seq<(Seq<char>, H)>, key: Seq<char>) -> int
    decreases s.len(),
{
    if s.len() == 0 {
        -1
    } else if s[0].0 == key {
        0
    } else {
        let r = key_index(s.drop_first(), key);
        if r < 0 {
            -1
        } else {
            r + 1
        }
    }
}

/// `key_index` finds the first entry for `key`; -1 means there is none.
pub proof fn lemma_key_index<H>(s: Seq<(Seq<char>, H)>, key: Seq<char>)
    ensures
        -1 <= key_index(s, key) < s.len(),
        key_index(s, key) >= 0 ==> s[key_index(s, key)].0 == key,
        forall|j: int| 0 <= j < s.len() && j < key_index(s, key) ==> s[j].0 != key,
        key_index(s, key) < 0 ==> forall|j: int| 0 <= j < s.len() ==> s[j].0 != key,
    decreases s.len(),
{
    if s.len() > 0 && s[0].0 != key {
        lemma_key_index(s.drop_first(), key);
        assert forall|j: int| 1 <= j < s.len() implies s[j] == s.drop_first()[j - 1] by {}
    }
}

/// No key occurs twice.
pub open spec fn keys_unique<H>(s: Seq<(Seq<char>, H)>) -> bool {
    forall|i: int, j: int| 0 <= i < j < s.len() ==> s[i].0 != s[j].0
}

/// The entries after `key` was inserted with `h`: an entry already under
/// `key` takes the new handle in place, otherwise the entry joins at the end.
pub open spec fn inserted<H>(s: Seq<(Seq<char>, H)>, key: Seq<char>, h: H) -> Seq<(Seq<char>, H)> {
    let k = key_index(s, key);
    if k >= 0 {
        s.update(k, (key, h))
    } else {
        s.push((key, h))
    }
}

/// The entries after the entry under `key`, if any, was taken out.
pub open spec fn removed<H>(s: Seq<(Seq<char>, H)>, key: Seq<char>) -> Seq<(Seq<char>, H)> {
    let k = key_index(s, key);
    if k >= 0 {
        s.remove(k)
    } else {
        s
    }
}

/// The running workers, each under its key, with the handle that controls it.
pub struct WorkerPool<H> {
    running: Vec<(String, H)>,
}

/// The entries of a pool with their keys as characters.
pub open spec fn entries_view<H>(v: Seq<(String, H)>) -> Seq<(Seq<char>, H)> {
    v.map_values(|e: (String, H)| (e.0@, e.1))
}

impl<H> WorkerPool<H> {
    #[verifier::type_invariant]
    spec fn inv(self) -> bool {
        keys_unique(entries_view(self.running@))
    }

    /// The running workers, in the order they were started.
    pub closed spec fn view(&self) -> Seq<(Seq<char>, H)> {
        entries_view(self.running@)
    }

    /// No worker runs.
    pub fn new() -> (p: Self)
        ensures
            p.view() == Seq::<(Seq<char>, H)>::empty(),
    {
        let p = WorkerPool { running: Vec::new() };
        assert(p.view() =~= Seq::<(Seq<char>, H)>::empty());
        p
    }

    /// How many workers run.
    pub fn len(&self) -> (n: usize)
        ensures
            n == self.view().len(),
    {
        self.running.len()
    }

    fn index_of(&self, key: &str) -> (k: Option<usize>)
        ensures
            match k {
                Some(i) => i == key_index(self.view(), key@),
                None => key_index(self.view(), key@) < 0,
            },
    {
        let ghost v = self.view();
        let mut i: usize = 0;
        while i < self.running.len()
            invariant
                i <= self.running.len(),
                v == entries_view(self.running@),
                forall|j: int| 0 <= j < i ==> v[j].0 != key@,
            decreases self.running.len() - i,
        {
            assert(v[i as int].0 == self.running@[i as int].0@);
            if str_equals(self.running[i].0.as_str(), key) {
                proof {
                    lemma_key_index(v, key@);
                }
                return Some(i);
            }
            i += 1;
        }
        proof {
            lemma_key_index(v, key@);
        }
        None
    }

    /// Whether a worker runs under `key`.
    pub fn is_running(&self, key: &str) -> (b: bool)
        ensures
            b == (key_index(self.view(), key@) >= 0),
    {
        self.index_of(key).is_some()
    }

    /// Records the worker started under `key`; an entry already under `key`
    /// takes the new handle (the old one is dropped, as a map insert does).
    pub fn insert(&mut self, key: String, handle: H)
        ensures
            final(self).view() == inserted(old(self).view(), key@, handle),
    {
        proof {
            use_type_invariant(&*self);
            lemma_key_index(self.view(), key@);
        }
        let ghost kv = key@;
        let mut running: Vec<(String, H)> = Vec::new();
        std::mem::swap(&mut running, &mut self.running);
        let ghost old_v = entries_view(running@);
        match self.index_of_in(&running, key.as_str()) {
            Some(k) => {
                running.set(k, (key, handle));
                assert(entries_view(running@) =~= old_v.update(k as int, (kv, handle)));
                self.running = running;
            },
            None => {
                running.push((key, handle));
                assert(entries_view(running@) =~= old_v.push((kv, handle)));
                proof {
                    lemma_key_index(old_v, kv);
                }
                self.running = running;
            },
        }
    }

    fn index_of_in(&self, running: &Vec<(String, H)>, key: &str) -> (k: Option<usize>)
        ensures
            match k {
                Some(i) => i == key_index(entries_view(running@), key@),
                None => key_index(entries_view(running@), key@) < 0,
            },
    {
        let ghost v = entries_view(running@);
        let mut i: usize = 0;
        while i < running.len()
            invariant
                i <= running.len(),
                v == entries_view(running@),
                forall|j: int| 0 <= j < i ==> v[j].0 != key@,
            decreases running.len() - i,
        {
            assert(v[i as int].0 == running@[i as int].0@);
            if str_equals(running[i].0.as_str(), key) {
                proof {
                    lemma_key_index(v, key@);
                }
                return Some(i);
            }
            i += 1;
        }
        proof {
            lemma_key_index(v, key@);
        }
        None
    }

    /// Takes the worker under `key` out of the pool and gives back its handle.
    pub fn remove(&mut self, key: &str) -> (r: Option<H>)
        ensures
            final(self).view() == removed(old(self).view(), key@),
            key_index(old(self).view(), key@) >= 0 ==> r == Some(
                old(self).view()[key_index(old(self).view(), key@)].1,
            ),
            key_index(old(self).view(), key@) < 0 ==> r is None,
    {
        proof {
            use_type_invariant(&*self);
            lemma_key_index(self.view(), key@);
        }
        let mut running: Vec<(String, H)> = Vec::new();
        std::mem::swap(&mut running, &mut self.running);
        let ghost old_v = entries_view(running@);
        match self.index_of_in(&running, key) {
            Some(k) => {
                let (_, h) = running.remove(k);
                assert(entries_view(running@) =~= old_v.remove(k as int));
                self.running = running;
                Some(h)
            },
            None => {
                self.running = running;
                None
            },
        }
    }

    /// Takes every worker out of the pool, in the order they were started.
    pub fn drain(&mut self) -> (r: Vec<(String, H)>)
        ensures
            final(self).view() == Seq::<(Seq<char>, H)>::empty(),
            entries_view(r@) == old(self).view(),
    {
        let mut running: Vec<(String, H)> = Vec::new();
        std::mem::swap(&mut running, &mut self.running);
        assert(self.view() =~= Seq::<(Seq<char>, H)>::empty());
        running
    }
}

/// Inserting a key that is not running and then removing it leaves the pool
/// as it was.
pub proof fn lemma_insert_remove<H>(s: Seq<(Seq<char>, H)>, key: Seq<char>, h: H)
    requires
        key_index(s, key) < 0,
    ensures
        removed(inserted(s, key, h), key) == s,
{
    lemma_key_index(s, key);
    let t = s.push((key, h));
    lemma_key_index(t, key);
    let k = key_index(t, key);
    if k < 0 {
        assert(t[s.len() as int].0 == key);
    } else if k < s.len() {
        assert(t[k] == s[k]);
    }
    assert(k == s.len());
    assert(t.remove(s.len() as int) =~= s);
}


/// A stored worker as the manager's decisions read it.
#[derive(Debug, Clone)]
pub struct WorkerSnapshot {
    pub id: i64,
    pub name: String,
    pub address: String,
    /// The stored state name (`active`, `error`, `inactive`, `installing`).
    pub state: String,
    pub wine_prefix: Option<String>,
}

/// The stored configuration a worker is started from.
#[derive(Debug, Clone)]
pub struct WorkerConfig {
    pub id: i64,
    pub name: String,
    pub address: String,
    /// The bit pattern of the `f64` lot-size multiplier.
    pub multiplier_bits: u64,
    pub wine_prefix: Option<String>,
    pub symbol_prefix: String,
}

/// Whether `r` lists, in increasing order, exactly the indices below `n` that satisfy `p`.
pub open spec fn selects(r: Seq<usize>, n: nat, p: spec_fn(int) -> bool) -> bool {
    &&& forall|k: int| 0 <= k < r.len() ==> r[k] < n && p(r[k] as int)
    &&& forall|k: int, l: int| 0 <= k < l < r.len() ==> r[k] < r[l]
    &&& forall|i: int| 0 <= i < n && #[trigger] p(i) ==> r.contains(i as usize)
}

/// Whether a stored worker counts as active.
pub open spec fn is_active(w: WorkerSnapshot) -> bool {
    w.state@ == "active"@
}

/// The workers stored as active, by index.
pub fn active_workers(workers: &[WorkerSnapshot]) -> (r: Vec<usize>)
    ensures
        selects(r@, workers@.len(), |i: int| is_active(workers@[i])),
{
    let mut r: Vec<usize> = Vec::new();
    let mut i: usize = 0;
    while i < workers.len()
        invariant
            i <= workers.len(),
            forall|k: int| 0 <= k < r@.len() ==> r@[k] < i && is_active(workers@[r@[k] as int]),
            forall|k: int, l: int| 0 <= k < l < r@.len() ==> r@[k] < r@[l],
            forall|j: int| 0 <= j < i && is_active(workers@[j]) ==> r@.contains(j as usize),
        decreases workers.len() - i,
    {
        if str_equals(workers[i].state.as_str(), "active") {
            let ghost old_r = r@;
            r.push(i);
            assert forall|j: int| 0 <= j < i + 1 && is_active(workers@[j]) implies r@.contains(
                j as usize,
            ) by {
                if j < i {
                    let k = choose|k: int| 0 <= k < old_r.len() && old_r[k] == j as usize;
                    assert(r@[k] == j as usize);
                } else {
                    assert(r@[old_r.len() as int] == i);
                }
            }
        }
        i += 1;
    }
    r
}

/// Whether a stored worker is marked active although no worker runs under its key.
pub open spec fn is_stale<H>(w: WorkerSnapshot, running: Seq<(Seq<char>, H)>) -> bool {
    is_active(w) && key_index(running, worker_key_spec(w.id, w.name@)) < 0
}

impl<H> WorkerPool<H> {
    /// The stored workers marked active whose worker does not run (after a
    /// restart); they are set back to inactive, by index.
    pub fn stale_workers(&self, workers: &[WorkerSnapshot]) -> (r: Vec<usize>)
        ensures
            selects(r@, workers@.len(), |i: int| is_stale(workers@[i], self.view())),
    {
        let mut r: Vec<usize> = Vec::new();
        let mut i: usize = 0;
        while i < workers.len()
            invariant
                i <= workers.len(),
                forall|k: int| 0 <= k < r@.len() ==> r@[k] < i && is_stale(
                    workers@[r@[k] as int],
                    self.view(),
                ),
                forall|k: int, l: int| 0 <= k < l < r@.len() ==> r@[k] < r@[l],
                forall|j: int| 0 <= j < i && is_stale(workers@[j], self.view()) ==> r@.contains(
                    j as usize,
                ),
            decreases workers.len() - i,
        {
            let w = &workers[i];
            if str_equals(w.state.as_str(), "active") && !self.is_running(
                worker_key(w.id, w.name.as_str()).as_str(),
            ) {
                let ghost old_r = r@;
                r.push(i);
                assert forall|j: int|
                    0 <= j < i + 1 && is_stale(workers@[j], self.view()) implies r@.contains(
                    j as usize,
                ) by {
                    if j < i {
                        let k = choose|k: int| 0 <= k < old_r.len() && old_r[k] == j as usize;
                        assert(r@[k] == j as usize);
                    } else {
                        assert(r@[old_r.len() as int] == i);
                    }
                }
            }
            i += 1;
        }
        r
    }

    /// Decides whether the worker with `worker_id` can be started: its
    /// configuration must exist (the first with that id is used) and no worker
    /// may already run under its key. Gives the configuration's index.
    pub fn check_start(&self, configs: &[WorkerConfig], worker_id: i64) -> (r: Result<usize, String>)
        ensures
            match r {
                Ok(i) => i < configs@.len() && configs@[i as int].id == worker_id && (forall|
                    j: int,
                | 0 <= j < i ==> configs@[j].id != worker_id) && key_index(
                    self.view(),
                    worker_key_spec(worker_id, configs@[i as int].name@),
                ) < 0,
                Err(e) => {
                    ||| (forall|j: int| 0 <= j < configs@.len() ==> configs@[j].id != worker_id)
                        && e@ == "Worker with ID "@ + signed_decimal(worker_id as int)
                        + " not found in database"@
                    ||| exists|i: int|
                        0 <= i < configs@.len() && configs@[i].id == worker_id && (forall|j: int|
                            0 <= j < i ==> configs@[j].id != worker_id) && key_index(
                            self.view(),
                            worker_key_spec(worker_id, configs@[i].name@),
                        ) >= 0 && e@ == "Worker '"@ + configs@[i].name@ + "' (ID: "@
                            + signed_decimal(worker_id as int) + ") is already running"@
                },
            },
    {
        let mut i: usize = 0;
        while i < configs.len()
            invariant
                i <= configs.len(),
                forall|j: int| 0 <= j < i ==> configs@[j].id != worker_id,
            decreases configs.len() - i,
        {
            if configs[i].id == worker_id {
                let key = worker_key(worker_id, configs[i].name.as_str());
                if self.is_running(key.as_str()) {
                    let mut e = concat3("Worker '", configs[i].name.as_str(), "' (ID: ");
                    e.append(i64_to_decimal(worker_id).as_str());
                    e.append(") is already running");
                    return Err(e);
                }
                return Ok(i);
            }
            i += 1;
        }
        let mut e = concat2("Worker with ID ", i64_to_decimal(worker_id).as_str());
        e.append(" not found in database");
        Err(e)
    }
}

/// The Wine prefixes of the configured workers, in order, for those that have one.
pub open spec fn prefixes_of(cs: Seq<WorkerConfig>) -> Seq<Seq<char>> {
    cs.filter_map(|c: WorkerConfig| match c.wine_prefix {
        Some(p) => Some(p@),
        None => None,
    })
}

/// The Wine prefixes whose processes are ended at shutdown.
pub fn wine_prefixes(configs: &[WorkerConfig]) -> (r: Vec<String>)
    ensures
        r.deep_view() == prefixes_of(configs@),
{
    let ghost f = |c: WorkerConfig| match c.wine_prefix {
        Some(p) => Some(p@),
        None => None,
    };
    let mut r: Vec<String> = Vec::new();
    let mut i: usize = 0;
    assert(r.deep_view() =~= configs@.take(0).filter_map(f));
    while i < configs.len()
        invariant
            i <= configs.len(),
            f == (|c: WorkerConfig| match c.wine_prefix {
                Some(p) => Some(p@),
                None => None,
            }),
            r.deep_view() == configs@.take(i as int).filter_map(f),
        decreases configs.len() - i,
    {
        proof {
            configs@.lemma_filter_map_take_succ(f, i as int);
        }
        match &configs[i].wine_prefix {
            Some(p) => {
                let ghost before = r.deep_view();
                let q = p.clone();
                r.push(q);
                assert(r.deep_view() =~= before + seq![p@]);
            },
            None => {},
        }
        i += 1;
    }
    assert(configs@.take(configs.len() as int) =~= configs@);
    r
}

/// How many of the indices below `n` satisfy `p`.
pub open spec fn count_below(p: spec_fn(int) -> bool, n: nat) -> nat
    decreases n,
{
    if n == 0 {
        0
    } else {
        count_below(p, (n - 1) as nat) + if p(n - 1) {
            1nat
        } else {
            0nat
        }
    }
}

/// An exact increasing selection of the indices below `n` that satisfy `p`
/// has `count_below(p, n)` entries.
pub proof fn lemma_selects_len(r: Seq<usize>, n: nat, p: spec_fn(int) -> bool)
    requires
        selects(r, n, p),
        n <= usize::MAX + 1,
    ensures
        r.len() == count_below(p, n),
    decreases n,
{
    if n > 0 {
        let m = (n - 1) as nat;
        if p(m as int) {
            assert(r.contains(m as usize));
            let k = choose|k: int| 0 <= k < r.len() && r[k] == m as usize;
            assert(k == r.len() - 1) by {
                if k < r.len() - 1 {
                    assert(r[k] < r[r.len() - 1]);
                }
            }
            let rr = r.drop_last();
            assert forall|i: int| 0 <= i < m && #[trigger] p(i) implies rr.contains(i as usize) by {
                assert(r.contains(i as usize));
                let j = choose|j: int| 0 <= j < r.len() && r[j] == i as usize;
                assert(j != k);
                assert(rr[j] == r[j]);
            }
            assert forall|j: int| 0 <= j < rr.len() implies rr[j] < m && p(rr[j] as int) by {
                assert(rr[j] == r[j]);
                assert(r[j] < r[k]);
            }
            lemma_selects_len(rr, m, p);
        } else {
            assert forall|j: int| 0 <= j < r.len() implies r[j] < m && p(r[j] as int) by {
                if r[j] == m {
                    assert(p(r[j] as int));
                }
            }
            lemma_selects_len(r, m, p);
        }
    } else {
        if r.len() > 0 {
            assert(r[0] < 0);
        }
    }
}

/// The number of stored workers, and how many of them are active, as the
/// metrics collector records them (counts are stored as `i32`).
pub fn worker_counts(workers: &[WorkerSnapshot]) -> (r: (i32, i32))
    ensures
        r.0 == workers@.len() as i32,
        r.1 == count_below(|i: int| is_active(workers@[i]), workers@.len()) as i32,
{
    let active = active_workers(workers);
    assert(workers@.len() == workers.len());
    proof {
        lemma_selects_len(active@, workers@.len(), |i: int| is_active(workers@[i]));
    }
    (#[verifier::truncate] (workers.len() as i32), #[verifier::truncate] (active.len() as i32))
}

/// The error stored with a worker found marked active after a restart.
pub fn restart_detected_note() -> (m: String)
    ensures
        m@ == "Application restart detected - worker was not running"@,
{
    owned("Application restart detected - worker was not running")
}

/// The error stored with the workers still active at shutdown.
pub fn shutdown_note() -> (m: String)
    ensures
        m@ == "Application shutdown"@,
{
    owned("Application shutdown")
}

/// How waiting for a stopped worker's task ended.
#[derive(Debug, Clone)]
pub enum StopWait {
    /// The task finished.
    Finished,
    /// The task failed with this error.
    TaskFailed(String),
    /// The task did not finish within five seconds.
    TimedOut,
}

/// The outcome of stopping a running worker, from how its task ended.
pub fn stop_wait_result(w: &StopWait) -> (r: Result<(), String>)
    ensures
        match *w {
            StopWait::Finished => r is Ok,
            StopWait::TaskFailed(e) => r is Err && r->Err_0@ == "Worker task error: "@ + e@,
            StopWait::TimedOut => r is Err && r->Err_0@ == "Worker stop timeout"@,
        },
{
    match w {
        StopWait::Finished => Ok(()),
        StopWait::TaskFailed(e) => Err(concat2("Worker task error: ", e.as_str())),
        StopWait::TimedOut => Err(owned("Worker stop timeout")),
    }
}

/// What stopping a worker that no task runs amounts to: with the stored
/// worker found (`found` is `Ok(true)`), the outcome of storing it as
/// inactive (`stored`); a missing worker or a failed lookup is an error.
pub fn stop_not_running(id: i64, found: &Result<bool, String>, stored: &Result<(), String>) -> (r:
    Result<(), String>)
    ensures
        match *found {
            Ok(true) => match *stored {
                Ok(()) => r is Ok,
                Err(e) => r is Err && r->Err_0@ == "Failed to update worker state: "@ + e@,
            },
            Ok(false) => r is Err && r->Err_0@ == "Worker with ID "@ + signed_decimal(id as int)
                + " not found"@,
            Err(e) => r is Err && r->Err_0@ == "Database error: "@ + e@,
        },
{
    match found {
        Ok(true) => match stored {
            Ok(()) => Ok(()),
            Err(e) => Err(concat2("Failed to update worker state: ", e.as_str())),
        },
        Ok(false) => Err(concat3("Worker with ID ", i64_to_decimal(id).as_str(), " not found")),
        Err(e) => Err(concat2("Database error: ", e.as_str())),
    }
}

} // verus!
