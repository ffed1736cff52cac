//! The collection scheduler: which module runs when, and what a finished run
//! leaves in the module's record.
//!
//! Each tick the host hands the scheduler the installed modules one by one;
//! for each the scheduler decides whether to leave it, to record it as paused,
//! or to start a collection run, and it remembers which runs are in flight so
//! that a module never has two runs at once.
use vstd::prelude::*;
use crate::model::DbBackend;
use crate::records::{ModuleRecord, Timestamp, same_but_status, same_identity};
use crate::text::{append, owned};

verus! {

/// Nanoseconds in a second.
pub open spec fn nanos_per_sec() -> int {
    1_000_000_000
}

/// The instant as nanoseconds since the epoch.
pub open spec fn total_nanos(t: Timestamp) -> int {
    t.secs as int * nanos_per_sec() + t.nanos as int
}

/// Whole seconds from `earlier` to `later`, rounded toward zero (what
/// `later.signed_duration_since(earlier).num_seconds()` gives).
pub open spec fn elapsed_secs(later: Timestamp, earlier: Timestamp) -> int {
    let d = total_nanos(later) - total_nanos(earlier);
    if d >= 0 {
        d / nanos_per_sec()
    } else {
        -((-d) / nanos_per_sec())
    }
}

/// An interval in seconds read as a signed 64-bit count (`interval as i64`).
pub open spec fn signed_interval(interval_secs: u64) -> int {
    if interval_secs <= i64::MAX {
        interval_secs as int
    } else {
        interval_secs as int - 0x1_0000_0000_0000_0000
    }
}

/// A module is due when it never ran, or when at least its interval has
/// passed since its last run.
pub open spec fn is_due(last_run: Option<Timestamp>, now: Timestamp, interval_secs: u64) -> bool {
    match last_run {
        None => true,
        Some(last) => elapsed_secs(now, last) >= signed_interval(interval_secs),
    }
}

/// What the scheduler does with one module in a tick.
pub enum ActionKind {
    /// Nothing.
    Skip,
    /// Store the record again with status `paused`.
    Pause,
    /// Start a collection run.
    Start,
}

/// The decision for one module, given the ids of the runs in flight.
pub open spec fn planned(active: Seq<Seq<char>>, m: ModuleRecord, now: Timestamp) -> ActionKind {
    if !m.enabled {
        if m.status@ == "running"@ { ActionKind::Pause } else { ActionKind::Skip }
    } else if active.contains(m.id@) {
        ActionKind::Skip
    } else if is_due(m.last_run, now, m.interval_secs) {
        ActionKind::Start
    } else {
        ActionKind::Skip
    }
}

/// A decision together with the record it concerns.
pub enum ModuleAction {
    Skip(ModuleRecord),
    /// The record to store: the module's record with status `paused`.
    Pause(ModuleRecord),
    /// The record of the module whose run starts.
    Start(ModuleRecord),
}

impl ModuleAction {
    pub open spec fn kind(self) -> ActionKind {
        match self {
            ModuleAction::Skip(_) => ActionKind::Skip,
            ModuleAction::Pause(_) => ActionKind::Pause,
            ModuleAction::Start(_) => ActionKind::Start,
        }
    }

    pub open spec fn record(self) -> ModuleRecord {
        match self {
            ModuleAction::Skip(m) => m,
            ModuleAction::Pause(m) => m,
            ModuleAction::Start(m) => m,
        }
    }
}

/// The scheduler's memory: the ids of modules whose run has started and not
/// yet finished.
pub struct Scheduler {
    active_runs: Vec<String>,
}

impl Scheduler {
    /// The ids of the runs in flight, in the order they started.
    pub closed spec fn active(&self) -> Seq<Seq<char>> {
        self.active_runs@.map_values(|s: String| s@)
    }

    /// No id is in flight twice.
    #[verifier::type_invariant]
    closed spec fn runs_are_distinct(&self) -> bool {
        self.active().no_duplicates()
    }

    /// A scheduler with no run in flight.
    pub fn new() -> (s: Scheduler)
        ensures
            s.active().len() == 0,
    {
        let s = Scheduler { active_runs: Vec::new() };
        assert(s.active() =~= Seq::<Seq<char>>::empty());
        s
    }

    fn position(&self, id: &str) -> (r: Option<usize>)
        ensures
            r is None <==> !self.active().contains(id@),
            r matches Some(i) ==> i < self.active().len() && self.active()[i as int] == id@,
    {
        let n = self.active_runs.len();
        for i in 0..n
            invariant
                n == self.active_runs@.len(),
                forall|j: int| 0 <= j < i ==> self.active()[j] != id@,
        {
            if crate::text::same_text(self.active_runs[i].as_str(), id) {
                assert(self.active()[i as int] == id@);
                return Some(i);
            }
        }
        None
    }

    /// Whether a run of module `id` is in flight.
    pub fn is_running(&self, id: &str) -> (b: bool)
        ensures
            b == self.active().contains(id@),
    {
        self.position(id).is_some()
    }

    /// Decides what to do with one module in a tick taken at `now`, and
    /// records a started run as in flight.
    pub fn decide(&mut self, module: ModuleRecord, now: Timestamp) -> (a: ModuleAction)
        ensures
            a.kind() == planned(old(self).active(), module, now),
            a.kind() != ActionKind::Pause ==> a.record() == module,
            a.kind() == ActionKind::Pause ==> a.record().status@ == "paused"@ && same_but_status(a.record(), module),
            final(self).active() == if a.kind() == ActionKind::Start {
                old(self).active().push(module.id@)
            } else {
                old(self).active()
            },
    {
        proof {
            use_type_invariant(&*self);
        }
        if !module.enabled {
            if crate::text::same_text(module.status.as_str(), "running") {
                let paused = ModuleRecord { status: owned("paused"), ..module };
                return ModuleAction::Pause(paused);
            }
            return ModuleAction::Skip(module);
        }
        if self.is_running(module.id.as_str()) {
            return ModuleAction::Skip(module);
        }
        if !due(module.last_run, now, module.interval_secs) {
            return ModuleAction::Skip(module);
        }
        let id = owned(module.id.as_str());
        let ghost before = self.active();
        let mut runs: Vec<String> = Vec::new();
        std::mem::swap(&mut runs, &mut self.active_runs);
        runs.push(id);
        assert(runs@.map_values(|s: String| s@) =~= before.push(module.id@));
        self.active_runs = runs;
        ModuleAction::Start(module)
    }

    /// Forgets the run of module `id`: it has finished.
    pub fn finish_run(&mut self, id: &str)
        ensures
            !final(self).active().contains(id@),
            forall|x: Seq<char>| x != id@ ==> (final(self).active().contains(x) == old(self).active().contains(x)),
    {
        proof {
            use_type_invariant(&*self);
        }
        match self.position(id) {
            None => {},
            Some(i) => {
                let ghost before = self.active();
                let mut runs: Vec<String> = Vec::new();
                std::mem::swap(&mut runs, &mut self.active_runs);
                runs.remove(i);
                assert(runs@.map_values(|s: String| s@) =~= before.remove(i as int));
                self.active_runs = runs;
                assert forall|x: Seq<char>| x != id@ implies (self.active().contains(x) == before.contains(x)) by {
                    if before.contains(x) {
                        let k = choose|k: int| 0 <= k < before.len() && before[k] == x;
                        if k < i {
                            assert(self.active()[k] == x);
                        } else {
                            assert(k != i);
                            assert(self.active()[k - 1] == x);
                        }
                    }
                    if self.active().contains(x) {
                        let k = choose|k: int| 0 <= k < self.active().len() && self.active()[k] == x;
                        if k < i {
                            assert(before[k] == x);
                        } else {
                            assert(before[k + 1] == x);
                        }
                    }
                }
                assert(!self.active().contains(id@)) by {
                    if self.active().contains(id@) {
                        let k = choose|k: int| 0 <= k < self.active().len() && self.active()[k] == id@;
                        if k < i {
                            assert(before[k] == id@);
                        } else {
                            assert(before[k + 1] == id@);
                        }
                    }
                }
            },
        }
    }
}

/// A tick collects only when a backend is configured; without one it does
/// nothing at all.
pub fn can_collect(settings: &Option<DbBackend>) -> (b: bool)
    ensures
        b == settings is Some,
{
    settings.is_some()
}

/// Whether the module is due at `now` (see `is_due`).
pub fn due(last_run: Option<Timestamp>, now: Timestamp, interval_secs: u64) -> (b: bool)
    ensures
        b == is_due(last_run, now, interval_secs),
{
    match last_run {
        None => true,
        Some(last) => {
            let d: i128 = (now.secs as i128 - last.secs as i128) * 1_000_000_000 + (now.nanos as i128 - last.nanos as i128);
            assert(d == total_nanos(now) - total_nanos(last)) by (nonlinear_arith)
                requires
                    d == (now.secs as i128 - last.secs as i128) * 1_000_000_000 + (now.nanos as i128 - last.nanos as i128),
            ;
            let elapsed: i128 = if d >= 0 {
                d / 1_000_000_000
            } else {
                0 - ((0 - d) / 1_000_000_000)
            };
            let limit: i128 = if interval_secs <= 9_223_372_036_854_775_807u64 {
                interval_secs as i128
            } else {
                interval_secs as i128 - 0x1_0000_0000_0000_0000i128
            };
            elapsed >= limit
        },
    }
}

/// What a finished run leaves behind: the record to store, if any, and the
/// log line to add.
pub struct RunReport {
    pub record: Option<ModuleRecord>,
    pub level: String,
    pub message: String,
}

/// The log line written when a run starts.
pub fn start_message() -> (r: (String, String))
    ensures
        r.0@ == "info"@,
        r.1@ == "Starting metrics collection"@,
{
    (owned("info"), owned("Starting metrics collection"))
}

/// The error of a run whose module library could not be loaded.
pub fn load_failure(err: &str) -> (r: String)
    ensures
        r@ == "Failed to load dynamic library: "@ + err@,
{
    let mut s = owned("Failed to load dynamic library: ");
    append(&mut s, err);
    s
}

/// The record a finished run updates, given what the store holds for the
/// module now (`current`): the stored record when there is one; none when the
/// module was removed while it ran, so that the removal stands; the record the
/// run started from when the store could not be read.
pub open spec fn run_base(current: Result<Option<ModuleRecord>, String>, started: ModuleRecord) -> Option<ModuleRecord> {
    match current {
        Ok(Some(m)) => Some(m),
        Ok(None) => None,
        Err(_) => Some(started),
    }
}

/// `rec` is `base` after a run that finished at `finished_at` with `outcome`:
/// last run, status and last error updated, everything else kept.
pub open spec fn is_finished_record(rec: ModuleRecord, base: ModuleRecord, finished_at: Timestamp, outcome: Result<(), String>) -> bool {
    &&& same_identity(rec, base)
    &&& rec.config == base.config
    &&& rec.interval_secs == base.interval_secs
    &&& rec.enabled == base.enabled
    &&& rec.last_run == Some(finished_at)
    &&& match outcome {
        Ok(_) => rec.status@ == "running"@ && rec.last_error is None,
        Err(e) => rec.status@ == "error"@ && rec.last_error == Some(e),
    }
}

/// The record and log line after a run finished at `finished_at` with
/// `outcome`. The record is the run's base (see `run_base`) with its last
/// run, status and last error updated; there is none to store when the module
/// is gone.
pub fn complete_run(
    current: Result<Option<ModuleRecord>, String>,
    started: ModuleRecord,
    finished_at: Timestamp,
    outcome: Result<(), String>,
) -> (r: RunReport)
    ensures
        match run_base(current, started) {
            None => r.record is None,
            Some(base) => r.record matches Some(rec) && is_finished_record(rec, base, finished_at, outcome),
        },
        match outcome {
            Ok(_) => r.level@ == "info"@ && r.message@ == "Successfully collected metrics"@,
            Err(e) => r.level@ == "error"@ && r.message@ == "Collection failed: "@ + e@,
        },
{
    let base = match current {
        Ok(Some(m)) => Some(m),
        Ok(None) => None,
        Err(_) => Some(started),
    };
    match outcome {
        Ok(_) => {
            let record = match base {
                Some(b) => Some(ModuleRecord { last_run: Some(finished_at), status: owned("running"), last_error: None, ..b }),
                None => None,
            };
            RunReport { record, level: owned("info"), message: owned("Successfully collected metrics") }
        },
        Err(e) => {
            let mut message = owned("Collection failed: ");
            append(&mut message, e.as_str());
            let record = match base {
                Some(b) => Some(ModuleRecord { last_run: Some(finished_at), status: owned("error"), last_error: Some(e), ..b }),
                None => None,
            };
            RunReport { record, level: owned("error"), message }
        },
    }
}

// ---------------------------------------------------------------------------
// Laws.
// ---------------------------------------------------------------------------
/// A finished run writes over what the store holds when it ends: the newest
/// stored record is the one updated, and a module removed while the run was
/// in flight stays removed.
pub proof fn law_run_respects_newer_changes(current: ModuleRecord, started: ModuleRecord)
    ensures
        run_base(Ok::<Option<ModuleRecord>, String>(Some(current)), started) == Some(current),
        run_base(Ok::<Option<ModuleRecord>, String>(None), started) is None,
{
}

/// A disabled module is never started.
pub proof fn law_disabled_never_starts(active: Seq<Seq<char>>, m: ModuleRecord, now: Timestamp)
    requires
        !m.enabled,
    ensures
        planned(active, m, now) != ActionKind::Start,
{
}

/// A module whose run is in flight is not started again.
pub proof fn law_no_second_run(active: Seq<Seq<char>>, m: ModuleRecord, now: Timestamp)
    requires
        active.contains(m.id@),
    ensures
        planned(active, m, now) != ActionKind::Start,
{
}

/// Once a run starts, later ticks leave the module alone until the run
/// finishes, whatever the time.
pub proof fn law_started_run_blocks(active: Seq<Seq<char>>, m: ModuleRecord, now: Timestamp, later: Timestamp)
    requires
        planned(active, m, now) == ActionKind::Start,
    ensures
        planned(active.push(m.id@), m, later) == ActionKind::Skip,
{
    assert(active.push(m.id@)[active.len() as int] == m.id@);
}

/// An enabled module that is due starts in any tick in which no run of it is
/// in flight (a module that never ran is always due).
pub proof fn law_idle_due_module_starts(active: Seq<Seq<char>>, m: ModuleRecord, now: Timestamp)
    requires
        m.enabled,
        is_due(m.last_run, now, m.interval_secs),
        !active.contains(m.id@),
    ensures
        planned(active, m, now) == ActionKind::Start,
{
}

/// A module that was switched off (disabled, status `paused`) is neither
/// started nor stored again by the scheduler; one switched off while its
/// status still reads `running` is stored as `paused` once.
pub proof fn law_switched_off_module_rests(active: Seq<Seq<char>>, m: ModuleRecord, now: Timestamp)
    requires
        !m.enabled,
    ensures
        m.status@ == "paused"@ ==> planned(active, m, now) == ActionKind::Skip,
        m.status@ == "running"@ ==> planned(active, m, now) == ActionKind::Pause,
{
    reveal_strlit("paused");
    reveal_strlit("running");
    if m.status@ == "paused"@ {
        assert(m.status@[0] == 'p');
        assert("running"@[0] == 'r');
    }
}

/// Once a module is due it stays due as time goes on, until it runs.
pub proof fn law_due_stays_due(last_run: Option<Timestamp>, now: Timestamp, later: Timestamp, interval_secs: u64)
    requires
        is_due(last_run, now, interval_secs),
        total_nanos(now) <= total_nanos(later),
    ensures
        is_due(last_run, later, interval_secs),
{
    if let Some(last) = last_run {
        let d1 = total_nanos(now) - total_nanos(last);
        let d2 = total_nanos(later) - total_nanos(last);
        assert(d1 <= d2);
        if d1 >= 0 {
            vstd::arithmetic::div_mod::lemma_div_is_ordered(d1, d2, nanos_per_sec());
        } else if d2 >= 0 {
            assert(elapsed_secs(now, last) <= 0);
            vstd::arithmetic::div_mod::lemma_div_pos_is_pos(d2, nanos_per_sec());
        } else {
            vstd::arithmetic::div_mod::lemma_div_is_ordered(-d2, -d1, nanos_per_sec());
        }
    }
}


/// A module that ran before is due exactly when at least its interval has
/// passed since that run, counting nanoseconds: fewer seconds than the
/// interval never make it due. (An interval beyond `i64::MAX` reads as a
/// negative count, so the module is always due.)
pub proof fn law_due_exactly_after_interval(last: Timestamp, now: Timestamp, interval_secs: u64)
    requires
        last.nanos < 1_000_000_000,
        now.nanos < 1_000_000_000,
        (now.secs - last.secs) * 1_000_000_000 + (now.nanos - last.nanos) >= 0,
    ensures
        interval_secs <= i64::MAX ==> (is_due(Some(last), now, interval_secs)
            <==> (now.secs - last.secs) * 1_000_000_000 + (now.nanos - last.nanos) >= interval_secs * 1_000_000_000),
        interval_secs > i64::MAX ==> is_due(Some(last), now, interval_secs),
        is_due(None, now, interval_secs),
{
    let d = (now.secs - last.secs) * 1_000_000_000 + (now.nanos - last.nanos);
    assert(total_nanos(now) - total_nanos(last) == d) by (nonlinear_arith)
        requires
            d == (now.secs - last.secs) * 1_000_000_000 + (now.nanos - last.nanos),
            total_nanos(now) == now.secs as int * 1_000_000_000 + now.nanos as int,
            total_nanos(last) == last.secs as int * 1_000_000_000 + last.nanos as int,
    ;
    let k = interval_secs as int;
    assert(d / 1_000_000_000 >= k <==> d >= k * 1_000_000_000) by (nonlinear_arith)
        requires
            d >= 0,
            k >= 0,
    ;
}

} // verus!
