//! The scheduler manager: the set of live cron jobs and what a job does when
//! it fires.
//!
//! The manager decides; its caller owns the clock, the store and the trigger
//! queue. A job that the manager registers is a descriptor, and the caller
//! keeps one timer per descriptor. When a timer goes off the caller asks
//! [`SchedulerManager::fire`] what to do and carries out the [`FirePlan`].

use crate::agent::AgentTask;
use crate::agent::AgentTaskView;
use crate::db::scheduler_model::CreateTaskRequest;
use crate::db::scheduler_model::ScheduledTask;
use crate::db::scheduler_model::ScheduledTaskView;
use crate::db::scheduler_model::TaskFrequency;
use crate::error::BotError;
use std::collections::HashMap;
use vstd::prelude::*;
use vstd::std_specs::hash::*;
use vstd::string::*;

verus! {

broadcast use vstd::std_specs::hash::group_hash_axioms;

/// The error of `tokio_cron_scheduler`, carried through unread.
#[verifier::external_type_specification]
#[verifier::external_body]
pub struct ExJobSchedulerError(tokio_cron_scheduler::JobSchedulerError);

/// Whether `tokio_cron_scheduler` takes `expr` as the schedule of a cron
/// job: a cron expression whose first field is the seconds.
pub uninterp spec fn cron_schedule_accepted(expr: Seq<char>) -> bool;

/// Calls `tokio_cron_scheduler::Job::new` with `expr` and a callback that
/// does nothing, and drops the job. The contract claims that the call
/// succeeds or fails by `expr` alone: the constructor parses `expr` and
/// fails with `ParseSchedule` where the parser refuses it, and has no other
/// way to fail.
#[verifier::external_body]
fn check_cron(expr: &str) -> (r: Result<(), tokio_cron_scheduler::JobSchedulerError>)
    ensures
        r is Ok <==> cron_schedule_accepted(expr@),
{
    tokio_cron_scheduler::Job::new(expr, |_id, _scheduler| {}).map(|_job| ())
}

/// Whether `expr` can be the schedule of a job.
pub fn is_valid_cron(expr: &str) -> (ok: bool)
    ensures
        ok == cron_schedule_accepted(expr@),
{
    match check_cron(expr) {
        Ok(()) => true,
        Err(_) => false,
    }
}

/// Whether `req` can be stored and scheduled: its schedule is one that the
/// scheduler takes. A request that fails here is to be turned down before
/// anything is stored, so that no row without a job is left behind.
pub fn check_request(req: &CreateTaskRequest) -> (r: Result<(), BotError>)
    ensures
        cron_schedule_accepted(req@.cron_expr) ==> r is Ok,
        !cron_schedule_accepted(req@.cron_expr) ==> (r matches Err(BotError::InvalidCron(e)) && e@
            == req@.cron_expr),
{
    if is_valid_cron(req.cron_expr.as_str()) {
        Ok(())
    } else {
        Err(BotError::InvalidCron(req.cron_expr.clone()))
    }
}

/// A live job: the task it stands for, when it fires and what it sends.
#[derive(Debug, Clone)]
pub struct JobDescriptor {
    pub task_id: i64,
    pub cron_expr: String,
    pub frequency: TaskFrequency,
    pub target_user_id: i64,
    pub content: String,
}

/// What a [`JobDescriptor`] holds, as mathematical values.
pub struct JobView {
    pub task_id: i64,
    pub cron_expr: Seq<char>,
    pub frequency: TaskFrequency,
    pub target_user_id: i64,
    pub content: Seq<char>,
}

impl View for JobDescriptor {
    type V = JobView;

    open spec fn view(&self) -> JobView {
        JobView {
            task_id: self.task_id,
            cron_expr: self.cron_expr@,
            frequency: self.frequency,
            target_user_id: self.target_user_id,
            content: self.content@,
        }
    }
}

/// The job that stands for a row of the store.
pub open spec fn job_of(task: ScheduledTaskView) -> JobView {
    JobView {
        task_id: task.id,
        cron_expr: task.cron_expr,
        frequency: task.frequency,
        target_user_id: task.target_user_id,
        content: task.content,
    }
}

/// What one firing of a job asks of the caller, in this order: put
/// `agent_task` on the trigger queue; record in the store that the task
/// `task_id` ran now; and, where `retire` is set, disable the task in the
/// store and stop its timer. Each step is tried whether or not the one
/// before it failed.
#[derive(Debug, Clone)]
pub struct FirePlan {
    pub task_id: i64,
    pub agent_task: AgentTask,
    pub retire: bool,
}

/// What a [`FirePlan`] holds, as mathematical values.
pub struct FirePlanView {
    pub task_id: i64,
    pub agent_task: AgentTaskView,
    pub retire: bool,
}

impl View for FirePlan {
    type V = FirePlanView;

    open spec fn view(&self) -> FirePlanView {
        FirePlanView { task_id: self.task_id, agent_task: self.agent_task@, retire: self.retire }
    }
}

/// The scheduler as mathematical values.
pub struct SchedulerView {
    /// The live jobs, by the id of their task.
    pub jobs: Map<i64, JobView>,
    /// Whether the job that regenerates the ambient reminders is live.
    pub daily_update: bool,
    /// Whether the clock runs.
    pub running: bool,
}

impl SchedulerView {
    /// A scheduler without jobs whose clock stands still.
    pub open spec fn initial() -> SchedulerView {
        SchedulerView { jobs: Map::empty(), daily_update: false, running: false }
    }

    /// Registers `job`, in place of any job of the same task; nothing
    /// changes where the schedule of `job` is refused.
    pub open spec fn schedule(self, job: JobView) -> SchedulerView {
        if cron_schedule_accepted(job.cron_expr) {
            SchedulerView { jobs: self.jobs.insert(job.task_id, job), ..self }
        } else {
            self
        }
    }

    /// Registers a job for each enabled row of `tasks` whose schedule is
    /// taken, in order.
    pub open spec fn load(self, tasks: Seq<ScheduledTask>) -> SchedulerView
        decreases tasks.len(),
    {
        if tasks.len() == 0 {
            self
        } else if tasks.last().enabled {
            self.load(tasks.drop_last()).schedule(job_of(tasks.last()@))
        } else {
            self.load(tasks.drop_last())
        }
    }

    /// What the job of task `task_id` asks for when its timer goes off:
    /// nothing where the clock stands still or no such job is live.
    pub open spec fn fire_plan(self, task_id: i64) -> Option<FirePlanView> {
        if self.running && self.jobs.contains_key(task_id) {
            let job = self.jobs[task_id];
            Some(
                FirePlanView {
                    task_id,
                    agent_task: AgentTaskView {
                        target_user_id: job.target_user_id,
                        content: job.content,
                    },
                    retire: job.frequency == TaskFrequency::Once,
                },
            )
        } else {
            None
        }
    }

    /// The scheduler after that firing: a one-shot job is gone, any other
    /// stays.
    pub open spec fn fire(self, task_id: i64) -> SchedulerView {
        match self.fire_plan(task_id) {
            Some(plan) => if plan.retire {
                SchedulerView { jobs: self.jobs.remove(task_id), ..self }
            } else {
                self
            },
            None => self,
        }
    }

    /// The scheduler after the job of `task_id` fired `n` times in a row.
    pub open spec fn fire_times(self, task_id: i64, n: nat) -> SchedulerView
        decreases n,
    {
        if n == 0 {
            self
        } else {
            self.fire_times(task_id, (n - 1) as nat).fire(task_id)
        }
    }

    /// The scheduler once started with the enabled rows `tasks`.
    pub open spec fn start(self, tasks: Seq<ScheduledTask>) -> SchedulerView {
        SchedulerView { daily_update: true, running: true, ..self.load(tasks) }
    }
}

/// The ids of the enabled rows among `tasks` whose schedule is refused, in
/// order.
pub open spec fn load_failures(tasks: Seq<ScheduledTask>) -> Seq<i64>
    decreases tasks.len(),
{
    if tasks.len() == 0 {
        seq![]
    } else if tasks.last().enabled && !cron_schedule_accepted(tasks.last()@.cron_expr) {
        load_failures(tasks.drop_last()).push(tasks.last().id)
    } else {
        load_failures(tasks.drop_last())
    }
}

/// What the store shows of `row` after the steps of `plan` were carried out
/// at the time `now`: the row of the task has run at `now`, and is disabled
/// where the plan retires it. Other rows are as before.
pub open spec fn row_after_fire(
    row: ScheduledTaskView,
    plan: FirePlanView,
    now: Seq<char>,
) -> ScheduledTaskView {
    if row.id == plan.task_id {
        ScheduledTaskView {
            last_run_at: Some(now),
            enabled: row.enabled && !plan.retire,
            ..row
        }
    } else {
        row
    }
}

/// The owner of the live jobs.
pub struct SchedulerManager {
    jobs: HashMap<i64, JobDescriptor>,
    daily_update: bool,
    running: bool,
}

impl View for SchedulerManager {
    type V = SchedulerView;

    closed spec fn view(&self) -> SchedulerView {
        SchedulerView {
            jobs: self.jobs@.map_values(|j: JobDescriptor| j@),
            daily_update: self.daily_update,
            running: self.running,
        }
    }
}

impl SchedulerManager {
    /// A manager without jobs whose clock stands still.
    pub fn new() -> (m: SchedulerManager)
        ensures
            m@ == SchedulerView::initial(),
    {
        let m = SchedulerManager { jobs: HashMap::new(), daily_update: false, running: false };
        assert(m@.jobs =~= Map::empty());
        m
    }

    /// Brings the scheduler up: the daily regeneration of the ambient
    /// reminders is registered, a job is registered for each enabled row of
    /// `tasks`, and the clock starts. Hands back the ids of the rows whose
    /// schedule was refused; they stay without a job.
    pub fn start(&mut self, tasks: &Vec<ScheduledTask>) -> (failed: Vec<i64>)
        ensures
            final(self)@ == old(self)@.start(tasks@),
            failed@ == load_failures(tasks@),
    {
        let failed = self.load_tasks(tasks);
        self.daily_update = true;
        self.running = true;
        failed
    }

    /// Stops the clock and drops every job: nothing fires any more.
    pub fn shutdown(&mut self)
        ensures
            final(self)@ == SchedulerView::initial(),
    {
        self.jobs = HashMap::new();
        self.daily_update = false;
        self.running = false;
        assert(self@.jobs =~= Map::empty());
    }

    /// Registers a job for each enabled row of `tasks`. A row whose
    /// schedule is refused is passed over; the ids of those rows come back.
    pub fn load_tasks(&mut self, tasks: &Vec<ScheduledTask>) -> (failed: Vec<i64>)
        ensures
            final(self)@ == old(self)@.load(tasks@),
            failed@ == load_failures(tasks@),
    {
        let mut failed: Vec<i64> = Vec::new();
        let mut i: usize = 0;
        while i < tasks.len()
            invariant
                i <= tasks.len(),
                self@ == old(self)@.load(tasks@.take(i as int)),
                failed@ == load_failures(tasks@.take(i as int)),
            decreases tasks.len() - i,
        {
            proof {
                assert(tasks@.take(i + 1).drop_last() =~= tasks@.take(i as int));
            }
            let task = &tasks[i];
            if task.enabled {
                let r = self.schedule_task(
                    task.id,
                    task.cron_expr.as_str(),
                    task.frequency,
                    task.target_user_id,
                    task.content.clone(),
                );
                if r.is_err() {
                    failed.push(task.id);
                }
            }
            i = i + 1;
        }
        proof {
            assert(tasks@.take(tasks.len() as int) =~= tasks@);
        }
        failed
    }

    /// Registers the job of task `task_id`, in place of any job that the
    /// task had. Fails, and changes nothing, where `cron_expr` is no
    /// schedule.
    pub fn schedule_task(
        &mut self,
        task_id: i64,
        cron_expr: &str,
        frequency: TaskFrequency,
        target_user_id: i64,
        content: String,
    ) -> (r: Result<(), BotError>)
        ensures
            final(self)@ == old(self)@.schedule(
                JobView {
                    task_id,
                    cron_expr: cron_expr@,
                    frequency,
                    target_user_id,
                    content: content@,
                },
            ),
            cron_schedule_accepted(cron_expr@) ==> r is Ok,
            !cron_schedule_accepted(cron_expr@) ==> (r matches Err(BotError::InvalidCron(e)) && e@
                == cron_expr@),
    {
        if !is_valid_cron(cron_expr) {
            return Err(BotError::InvalidCron(cron_expr.to_owned()));
        }
        let job = JobDescriptor {
            task_id,
            cron_expr: cron_expr.to_owned(),
            frequency,
            target_user_id,
            content,
        };
        let ghost before = self.jobs@;
        self.jobs.insert(task_id, job);
        assert(self.jobs@.map_values(|j: JobDescriptor| j@) =~= before.map_values(
            |j: JobDescriptor| j@,
        ).insert(task_id, job@));
        Ok(())
    }

    /// Registers the job of a row that the store has just created, and
    /// hands the row back. Fails where the row's schedule is refused: the
    /// row then has no job, now or after a reload.
    pub fn add_task(&mut self, task: ScheduledTask) -> (r: Result<ScheduledTask, BotError>)
        ensures
            final(self)@ == old(self)@.schedule(job_of(task@)),
            cron_schedule_accepted(task@.cron_expr) ==> r == Ok::<ScheduledTask, BotError>(task),
            !cron_schedule_accepted(task@.cron_expr) ==> (r matches Err(BotError::InvalidCron(e))
                && e@ == task@.cron_expr),
    {
        let scheduled = self.schedule_task(
            task.id,
            task.cron_expr.as_str(),
            task.frequency,
            task.target_user_id,
            task.content.clone(),
        );
        match scheduled {
            Ok(()) => Ok(task),
            Err(e) => Err(e),
        }
    }

    /// What to do now that the timer of task `task_id` went off. A one-shot
    /// job is taken from the live jobs with this firing.
    pub fn fire(&mut self, task_id: i64) -> (plan: Option<FirePlan>)
        ensures
            final(self)@ == old(self)@.fire(task_id),
            match plan {
                Some(p) => old(self)@.fire_plan(task_id) == Some(p@),
                None => old(self)@.fire_plan(task_id) is None,
            },
    {
        if !self.running {
            return None;
        }
        let ghost before = self.jobs@;
        let found = match self.jobs.get(&task_id) {
            Some(job) => Some(
                FirePlan {
                    task_id,
                    agent_task: AgentTask {
                        target_user_id: job.target_user_id,
                        content: job.content.clone(),
                    },
                    retire: job.frequency == TaskFrequency::Once,
                },
            ),
            None => None,
        };
        match found {
            Some(plan) => {
                if plan.retire {
                    self.jobs.remove(&task_id);
                    assert(self.jobs@.map_values(|j: JobDescriptor| j@) =~= before.map_values(
                        |j: JobDescriptor| j@,
                    ).remove(task_id));
                }
                Some(plan)
            },
            None => None,
        }
    }

    /// Takes the job of task `task_id` from the live jobs, as when its row
    /// was deleted. Says whether there was one.
    pub fn remove_task(&mut self, task_id: i64) -> (was_live: bool)
        ensures
            was_live == old(self)@.jobs.contains_key(task_id),
            final(self)@ == (SchedulerView {
                jobs: old(self)@.jobs.remove(task_id),
                ..old(self)@
            }),
    {
        let ghost before = self.jobs@;
        let removed = self.jobs.remove(&task_id);
        assert(self.jobs@.map_values(|j: JobDescriptor| j@) =~= before.map_values(
            |j: JobDescriptor| j@,
        ).remove(task_id));
        removed.is_some()
    }

    /// Whether task `task_id` has a live job.
    pub fn is_scheduled(&self, task_id: i64) -> (b: bool)
        ensures
            b == self@.jobs.contains_key(task_id),
    {
        self.jobs.contains_key(&task_id)
    }

    /// The number of live jobs.
    pub fn job_count(&self) -> (n: usize)
        ensures
            n == self@.jobs.len(),
    {
        proof {
            assert(self@.jobs.dom() =~= self.jobs@.dom());
        }
        self.jobs.len()
    }

    /// Whether the clock runs.
    pub fn is_running(&self) -> (b: bool)
        ensures
            b == self@.running,
    {
        self.running
    }

    /// Whether the daily regeneration of the ambient reminders is
    /// registered.
    pub fn has_daily_update(&self) -> (b: bool)
        ensures
            b == self@.daily_update,
    {
        self.daily_update
    }
}

/// Whether a reload passes over `row`: it is disabled, or its schedule is
/// refused.
pub open spec fn is_inert(row: ScheduledTask) -> bool {
    !row.enabled || !cron_schedule_accepted(row@.cron_expr)
}

/// A reload gives a job to no task whose rows are all inert: if the task
/// had no job before, it has none after.
pub proof fn lemma_load_skips_inert_rows(
    s: SchedulerView,
    tasks: Seq<ScheduledTask>,
    task_id: i64,
)
    requires
        !s.jobs.contains_key(task_id),
        forall|i: int|
            0 <= i < tasks.len() && (#[trigger] tasks[i]).id == task_id ==> is_inert(tasks[i]),
    ensures
        !s.load(tasks).jobs.contains_key(task_id),
    decreases tasks.len(),
{
    if tasks.len() > 0 {
        let rest = tasks.drop_last();
        assert forall|i: int|
            0 <= i < rest.len() && (#[trigger] rest[i]).id == task_id implies is_inert(rest[i]) by {
            assert(rest[i] == tasks[i]);
        }
        lemma_load_skips_inert_rows(s, rest, task_id);
    }
}

/// A reload keeps the jobs that were live and takes none away.
pub proof fn lemma_load_keeps_jobs(s: SchedulerView, tasks: Seq<ScheduledTask>, task_id: i64)
    requires
        s.jobs.contains_key(task_id),
    ensures
        s.load(tasks).jobs.contains_key(task_id),
        s.load(tasks).running == s.running,
        s.load(tasks).daily_update == s.daily_update,
    decreases tasks.len(),
{
    if tasks.len() > 0 {
        lemma_load_keeps_jobs(s, tasks.drop_last(), task_id);
    }
}

/// A one-shot task fires once: with its firing the job is gone and the plan
/// disables the row, so that loading the enabled rows again, from a store
/// that took the plan's steps, does not bring the job back.
pub proof fn lemma_once_task_is_not_reloaded(
    s: SchedulerView,
    task_id: i64,
    rows: Seq<ScheduledTask>,
    later: Seq<ScheduledTask>,
    now: Seq<char>,
)
    requires
        s.running,
        s.jobs.contains_key(task_id),
        s.jobs[task_id].frequency == TaskFrequency::Once,
        later.len() == rows.len(),
        forall|i: int|
            0 <= i < rows.len() ==> (#[trigger] later[i])@ == row_after_fire(
                rows[i]@,
                s.fire_plan(task_id).unwrap(),
                now,
            ),
    ensures
        s.fire_plan(task_id) is Some,
        s.fire_plan(task_id).unwrap().retire,
        !s.fire(task_id).jobs.contains_key(task_id),
        s.fire(task_id).fire_plan(task_id) is None,
        !s.fire(task_id).load(later).jobs.contains_key(task_id),
        forall|i: int|
            0 <= i < later.len() && (#[trigger] later[i]).id == task_id ==> !later[i].enabled
                && later[i]@.last_run_at == Some(now),
{
    let plan = s.fire_plan(task_id).unwrap();
    assert forall|i: int|
        0 <= i < later.len() && (#[trigger] later[i]).id == task_id implies is_inert(later[i])
            && !later[i].enabled && later[i]@.last_run_at == Some(now) by {
        assert(later[i]@ == row_after_fire(rows[i]@, plan, now));
    }
    lemma_load_skips_inert_rows(s.fire(task_id), later, task_id);
}

/// A daily task fires on every period: a firing changes neither the live
/// jobs nor the `enabled` mark of its row, so after any number of firings
/// the job is still live and fires again with the same directive.
pub proof fn lemma_daily_task_keeps_firing(
    s: SchedulerView,
    task_id: i64,
    n: nat,
    row: ScheduledTaskView,
    now: Seq<char>,
)
    requires
        s.running,
        s.jobs.contains_key(task_id),
        s.jobs[task_id].frequency == TaskFrequency::Daily,
    ensures
        s.fire_plan(task_id) is Some,
        !s.fire_plan(task_id).unwrap().retire,
        s.fire(task_id) == s,
        s.fire_times(task_id, n) == s,
        s.fire_times(task_id, n).fire_plan(task_id) == s.fire_plan(task_id),
        row_after_fire(row, s.fire_plan(task_id).unwrap(), now).enabled == row.enabled,
    decreases n,
{
    if n > 0 {
        lemma_daily_task_keeps_firing(s, task_id, (n - 1) as nat, row, now);
    }
}

/// A schedule that is refused never comes to fire: the job is not
/// registered, and no reload of rows that carry the schedule registers it.
pub proof fn lemma_refused_schedule_is_never_live(
    s: SchedulerView,
    job: JobView,
    tasks: Seq<ScheduledTask>,
)
    requires
        !cron_schedule_accepted(job.cron_expr),
        !s.jobs.contains_key(job.task_id),
        forall|i: int|
            0 <= i < tasks.len() && (#[trigger] tasks[i]).id == job.task_id ==> tasks[i]@.cron_expr
                == job.cron_expr,
    ensures
        s.schedule(job) == s,
        s.schedule(job).fire_plan(job.task_id) is None,
        !s.schedule(job).load(tasks).jobs.contains_key(job.task_id),
{
    lemma_load_skips_inert_rows(s, tasks, job.task_id);
}

/// A task has at most one live job: to register it again puts the new job
/// in the place of the old one, and the number of live jobs stays.
pub proof fn lemma_one_job_per_task(s: SchedulerView, first: JobView, second: JobView)
    requires
        first.task_id == second.task_id,
        cron_schedule_accepted(first.cron_expr),
        cron_schedule_accepted(second.cron_expr),
        s.jobs.dom().finite(),
    ensures
        s.schedule(first).schedule(second) == s.schedule(second),
        s.schedule(first).schedule(second).jobs.len() == s.schedule(first).jobs.len(),
        s.schedule(first).schedule(second).jobs[first.task_id] == second,
{
    assert(s.jobs.insert(first.task_id, first).insert(second.task_id, second) =~= s.jobs.insert(
        second.task_id,
        second,
    ));
}

/// The jobs after a reload are the jobs before it, with the jobs of the
/// rows in the place of those that the same tasks had.
pub proof fn lemma_load_overrides(s: SchedulerView, tasks: Seq<ScheduledTask>)
    ensures
        s.load(tasks).jobs == s.jobs.union_prefer_right(SchedulerView::initial().load(tasks).jobs),
        s.load(tasks).running == s.running,
        s.load(tasks).daily_update == s.daily_update,
    decreases tasks.len(),
{
    if tasks.len() > 0 {
        lemma_load_overrides(s, tasks.drop_last());
    }
}

/// To start a scheduler that is started changes nothing, as long as the
/// store shows the same rows.
pub proof fn lemma_start_is_idempotent(s: SchedulerView, tasks: Seq<ScheduledTask>)
    ensures
        s.start(tasks).start(tasks) == s.start(tasks),
{
    let once = s.start(tasks);
    lemma_load_overrides(s, tasks);
    lemma_load_overrides(once, tasks);
    let fresh = SchedulerView::initial().load(tasks).jobs;
    assert(s.jobs.union_prefer_right(fresh).union_prefer_right(fresh) =~= s.jobs.union_prefer_right(
        fresh,
    ));
}

/// A request that passed the check gets its job once the store has made a
/// row of it: the row carries the schedule of the request.
pub proof fn lemma_checked_request_is_scheduled(
    s: SchedulerView,
    req: CreateTaskRequest,
    stored: ScheduledTask,
)
    requires
        cron_schedule_accepted(req@.cron_expr),
        stored@.cron_expr == req@.cron_expr,
    ensures
        s.schedule(job_of(stored@)).jobs.contains_key(stored.id),
        s.schedule(job_of(stored@)).jobs[stored.id] == job_of(stored@),
{
}

} // verus!
