//! The ambient reminders: the archetypes they are made from, the hour that
//! is drawn for each, who gets them, and when they are made anew.

use crate::db::model::User;
use crate::db::model::UserRelation;
use crate::db::scheduler_model::CreateTaskRequest;
use crate::db::scheduler_model::CreateTaskRequestView;
use crate::db::scheduler_model::ScheduledTask;
use crate::db::scheduler_model::TaskCreator;
use crate::db::scheduler_model::TaskFrequency;
use crate::text::decimal;
use crate::text::decimal_string;
use rand::Rng;
use vstd::prelude::*;
use vstd::string::*;

verus! {

/// The day of the timestamp `text`, counted from 0001-01-01 as day 1, where
/// `chrono` reads `text` as `%Y-%m-%d %H:%M:%S`; `None` where it does not.
pub uninterp spec fn timestamp_day(text: Seq<char>) -> Option<i32>;

/// Calls `chrono::NaiveDateTime::parse_from_str` with the store's timestamp
/// format and hands out the date of the result as its day number
/// (`num_days_from_ce`). The contract claims that the outcome is fixed by
/// `text`.
#[verifier::external_body]
fn parse_timestamp_day(text: &str) -> (day: Option<i32>)
    ensures
        day == timestamp_day(text@),
{
    match chrono::NaiveDateTime::parse_from_str(text, "%Y-%m-%d %H:%M:%S") {
        Ok(at) => Some(chrono::Datelike::num_days_from_ce(&at.date())),
        Err(_) => None,
    }
}

/// Calls `chrono::Local::now` and hands out the local date as its day
/// number (`num_days_from_ce`). Nothing is claimed of the result: it is
/// whatever the clock and the time zone of the machine say.
#[verifier::external_body]
fn local_today() -> (day: i32) {
    chrono::Datelike::num_days_from_ce(&chrono::Local::now().date_naive())
}

/// Calls `rand::Rng::random_range` on the thread's generator with the range
/// `lo..=hi`. The contract claims that the number drawn lies in the range;
/// an empty range, on which the call panics, is left out.
#[verifier::external_body]
fn random_between(lo: u32, hi: u32) -> (n: u32)
    requires
        lo <= hi,
    ensures
        lo <= n <= hi,
{
    rand::rng().random_range(lo..=hi)
}

/// The day on which a row of the store was created, if its timestamp can be
/// read.
pub fn created_day(task: &ScheduledTask) -> (day: Option<i32>)
    ensures
        day == timestamp_day(task@.created_at),
{
    parse_timestamp_day(task.created_at.as_str())
}

/// An archetype of ambient reminders: what the agent is asked to say, and
/// the hours of the day, first and last, between which it is said.
#[derive(Debug, Clone, Copy)]
pub struct RandomTask {
    pub content: &'static str,
    pub hour_range: (u32, u32),
}

/// The number of archetypes.
pub const RANDOM_TASK_COUNT: usize = 5;

/// The schedule of the job that regenerates the ambient reminders: one
/// o'clock at night, every day.
pub const DAILY_UPDATE_CRON: &'static str = "0 0 1 * * *";

/// The instruction of the archetype `i`.
pub open spec fn random_task_content(i: int) -> Seq<char> {
    if i == 0 {
        "现在是早上，请给用户发送一条温馨的早安问候，可以包含今日天气、励志语句等。"@
    } else if i == 1 {
        "现在是中午，请给用户发送一条午间问候，提醒用户注意休息和用餐。"@
    } else if i == 2 {
        "现在是晚上，请给用户发送一条晚安问候，祝用户有个好梦。"@
    } else if i == 3 {
        "请用可爱、关心的语气提醒用户喝水，保持身体健康。"@
    } else {
        "请用关心的语气提醒用户起来活动一下，避免久坐对身体的伤害。"@
    }
}

/// The hours of the archetype `i`, first and last.
pub open spec fn random_task_hours(i: int) -> (u32, u32) {
    if i == 0 {
        (7u32, 9u32)
    } else if i == 1 {
        (11u32, 13u32)
    } else if i == 2 {
        (21u32, 23u32)
    } else if i == 3 {
        (9u32, 18u32)
    } else {
        (10u32, 17u32)
    }
}

/// The archetype `i`.
pub fn random_task(i: usize) -> (t: RandomTask)
    requires
        i < RANDOM_TASK_COUNT,
    ensures
        t.content@ == random_task_content(i as int),
        t.hour_range == random_task_hours(i as int),
        t.hour_range.0 <= t.hour_range.1 <= 23,
{
    if i == 0 {
        RandomTask {
            content: "现在是早上，请给用户发送一条温馨的早安问候，可以包含今日天气、励志语句等。",
            hour_range: (7, 9),
        }
    } else if i == 1 {
        RandomTask {
            content: "现在是中午，请给用户发送一条午间问候，提醒用户注意休息和用餐。",
            hour_range: (11, 13),
        }
    } else if i == 2 {
        RandomTask {
            content: "现在是晚上，请给用户发送一条晚安问候，祝用户有个好梦。",
            hour_range: (21, 23),
        }
    } else if i == 3 {
        RandomTask {
            content: "请用可爱、关心的语气提醒用户喝水，保持身体健康。",
            hour_range: (9, 18),
        }
    } else {
        RandomTask {
            content: "请用关心的语气提醒用户起来活动一下，避免久坐对身体的伤害。",
            hour_range: (10, 17),
        }
    }
}

/// The cron expression that fires at second 0 of `minute` past `hour`, on
/// every day.
pub open spec fn cron_at(minute: nat, hour: nat) -> Seq<char> {
    "0 "@ + decimal(minute) + " "@ + decimal(hour) + " * * *"@
}

/// Writes the cron expression for `minute` past `hour`.
pub fn cron_expr_at(minute: u32, hour: u32) -> (expr: String)
    ensures
        expr@ == cron_at(minute as nat, hour as nat),
{
    let mut expr = String::from_str("0 ");
    let m = decimal_string(minute as u128);
    expr.append(m.as_str());
    expr.append(" ");
    let h = decimal_string(hour as u128);
    expr.append(h.as_str());
    expr.append(" * * *");
    expr
}

/// Whether `expr` fires once a day, at some minute of an hour within
/// `hours`.
pub open spec fn cron_within(expr: Seq<char>, hours: (u32, u32)) -> bool {
    exists|minute: nat, hour: nat|
        minute < 60 && hours.0 <= hour <= hours.1 && expr == #[trigger] cron_at(minute, hour)
}

/// Draws a minute of the hour and an hour within `hour_range`, both
/// uniformly, and writes the cron expression for them.
pub fn generate_random_cron(hour_range: (u32, u32)) -> (expr: String)
    requires
        hour_range.0 <= hour_range.1,
    ensures
        cron_within(expr@, hour_range),
{
    let hour = random_between(hour_range.0, hour_range.1);
    let minute = random_between(0, 59);
    let expr = cron_expr_at(minute, hour);
    expr
}

/// Whether `req` is the reminder of archetype `i` for `user_id`, due at
/// `minute` past `hour`.
pub open spec fn is_ambient_request(
    req: CreateTaskRequestView,
    user_id: i64,
    i: int,
    minute: nat,
    hour: nat,
) -> bool {
    &&& req.target_user_id == user_id
    &&& req.frequency == TaskFrequency::Once
    &&& req.created_by == TaskCreator::System
    &&& req.content == random_task_content(i)
    &&& req.cron_expr == cron_at(minute, hour)
}

/// The reminder of archetype `i` for `user_id`, due at `minute` past
/// `hour`.
pub fn ambient_request(user_id: i64, i: usize, minute: u32, hour: u32) -> (req: CreateTaskRequest)
    requires
        i < RANDOM_TASK_COUNT,
    ensures
        is_ambient_request(req@, user_id, i as int, minute as nat, hour as nat),
{
    let template = random_task(i);
    CreateTaskRequest {
        target_user_id: user_id,
        frequency: TaskFrequency::Once,
        cron_expr: cron_expr_at(minute, hour),
        content: String::from_str(template.content),
        created_by: TaskCreator::System,
    }
}

/// Whether `batch` is a full set of ambient reminders for `user_id`: one
/// for each archetype, in order, each a one-shot of the system at some
/// minute of an hour within the archetype's hours.
pub open spec fn is_ambient_batch(batch: Seq<CreateTaskRequest>, user_id: i64) -> bool {
    &&& batch.len() == RANDOM_TASK_COUNT
    &&& forall|i: int|
        0 <= i < batch.len() ==> {
            &&& (#[trigger] batch[i])@.target_user_id == user_id
            &&& batch[i]@.frequency == TaskFrequency::Once
            &&& batch[i]@.created_by == TaskCreator::System
            &&& batch[i]@.content == random_task_content(i)
            &&& cron_within(batch[i]@.cron_expr, random_task_hours(i))
        }
}

/// The ambient reminders to create for `user_id`: one for each archetype,
/// each at a minute and an hour drawn now.
pub fn create_random_tasks(user_id: i64) -> (batch: Vec<CreateTaskRequest>)
    ensures
        is_ambient_batch(batch@, user_id),
{
    let mut batch: Vec<CreateTaskRequest> = Vec::new();
    let mut i: usize = 0;
    while i < RANDOM_TASK_COUNT
        invariant
            i <= RANDOM_TASK_COUNT,
            batch.len() == i,
            forall|k: int|
                0 <= k < i ==> {
                    &&& (#[trigger] batch@[k])@.target_user_id == user_id
                    &&& batch@[k]@.frequency == TaskFrequency::Once
                    &&& batch@[k]@.created_by == TaskCreator::System
                    &&& batch@[k]@.content == random_task_content(k)
                    &&& cron_within(batch@[k]@.cron_expr, random_task_hours(k))
                },
        decreases RANDOM_TASK_COUNT - i,
    {
        let template = random_task(i);
        let hour = random_between(template.hour_range.0, template.hour_range.1);
        let minute = random_between(0, 59);
        let req = ambient_request(user_id, i, minute, hour);
        batch.push(req);
        i = i + 1;
    }
    batch
}

/// Whether a user gets ambient reminders: everyone but a stranger.
pub open spec fn is_eligible(relation: UserRelation) -> bool {
    relation != UserRelation::Stranger
}

/// The ids of the users among `users` who get ambient reminders, in order.
pub open spec fn eligible_ids(users: Seq<User>) -> Seq<i64>
    decreases users.len(),
{
    if users.len() == 0 {
        seq![]
    } else if is_eligible(users.last().relation) {
        eligible_ids(users.drop_last()).push(users.last().id)
    } else {
        eligible_ids(users.drop_last())
    }
}

/// The users for whom ambient reminders are kept: all of `users` but the
/// strangers.
pub fn eligible_users(users: &Vec<User>) -> (ids: Vec<i64>)
    ensures
        ids@ == eligible_ids(users@),
{
    let mut ids: Vec<i64> = Vec::new();
    let mut i: usize = 0;
    while i < users.len()
        invariant
            i <= users.len(),
            ids@ == eligible_ids(users@.take(i as int)),
        decreases users.len() - i,
    {
        proof {
            assert(users@.take(i + 1).drop_last() =~= users@.take(i as int));
        }
        if users[i].relation != UserRelation::Stranger {
            ids.push(users[i].id);
        }
        i = i + 1;
    }
    proof {
        assert(users@.take(users.len() as int) =~= users@);
    }
    ids
}

/// Whether one of `existing` was created before `today`, or at a time that
/// cannot be read.
pub open spec fn has_stale(existing: Seq<ScheduledTask>, today: i32) -> bool {
    exists|i: int|
        0 <= i < existing.len() && is_stale(
            timestamp_day((#[trigger] existing[i])@.created_at),
            today,
        )
}

/// Whether a row created on `day` is out of date on `today`.
pub open spec fn is_stale(day: Option<i32>, today: i32) -> bool {
    match day {
        Some(d) => d < today,
        None => true,
    }
}

/// Whether a user's ambient reminders have to be made anew on `today`:
/// there are none, or one of them does not stem from today.
pub open spec fn batch_outdated(existing: Seq<ScheduledTask>, today: i32) -> bool {
    existing.len() == 0 || has_stale(existing, today)
}

/// Whether the ambient reminders `existing` of a user with `relation` are
/// to be deleted and made anew on `today`: the user is no stranger, and the
/// reminders are out of date.
pub open spec fn recreate_on(
    relation: UserRelation,
    existing: Seq<ScheduledTask>,
    today: i32,
) -> bool {
    is_eligible(relation) && batch_outdated(existing, today)
}

/// Whether the ambient reminders `existing` of a user have to be made anew
/// on `today`.
pub fn is_outdated(existing: &Vec<ScheduledTask>, today: i32) -> (b: bool)
    ensures
        b == batch_outdated(existing@, today),
{
    if existing.len() == 0 {
        return true;
    }
    let mut i: usize = 0;
    while i < existing.len()
        invariant
            i <= existing.len(),
            forall|k: int|
                0 <= k < i ==> !is_stale(
                    timestamp_day((#[trigger] existing@[k])@.created_at),
                    today,
                ),
        decreases existing.len() - i,
    {
        let stale = match created_day(&existing[i]) {
            Some(day) => day < today,
            None => true,
        };
        if stale {
            return true;
        }
        i = i + 1;
    }
    false
}

/// Whether the ambient reminders `existing` of a user with `relation` are
/// to be deleted and made anew on `today`. Never for a stranger.
pub fn should_recreate(relation: UserRelation, existing: &Vec<ScheduledTask>, today: i32) -> (b:
    bool)
    ensures
        b == recreate_on(relation, existing@, today),
{
    relation != UserRelation::Stranger && is_outdated(existing, today)
}

/// Strangers get no ambient reminders: the users chosen for them are the
/// users who are no strangers, each of them and no one else.
pub proof fn lemma_eligible_users_are_no_strangers(users: Seq<User>)
    ensures
        forall|k: int|
            #![trigger eligible_ids(users)[k]]
            0 <= k < eligible_ids(users).len() ==> exists|i: int|
                0 <= i < users.len() && (#[trigger] users[i]).id == eligible_ids(users)[k]
                    && users[i].relation != UserRelation::Stranger,
        forall|i: int|
            0 <= i < users.len() && (#[trigger] users[i]).relation != UserRelation::Stranger
                ==> eligible_ids(users).contains(users[i].id),
        eligible_ids(users).len() <= users.len(),
    decreases users.len(),
{
    if users.len() > 0 {
        let rest = users.drop_last();
        lemma_eligible_users_are_no_strangers(rest);
        let ids = eligible_ids(users);
        assert forall|k: int| 0 <= k < ids.len() implies exists|i: int|
            0 <= i < users.len() && (#[trigger] users[i]).id == #[trigger] ids[k]
                && users[i].relation != UserRelation::Stranger by {
            if k < eligible_ids(rest).len() {
                let i = choose|i: int|
                    0 <= i < rest.len() && (#[trigger] rest[i]).id == eligible_ids(rest)[k]
                        && rest[i].relation != UserRelation::Stranger;
                assert(users[i] == rest[i]);
            } else {
                assert(users[users.len() - 1] == users.last());
            }
        }
        assert forall|i: int|
            0 <= i < users.len() && (#[trigger] users[i]).relation
                != UserRelation::Stranger implies ids.contains(users[i].id) by {
            if i < rest.len() {
                let k = choose|k: int|
                    0 <= k < eligible_ids(rest).len() && eligible_ids(rest)[k] == rest[i].id;
                assert(ids[k] == rest[i].id);
            } else {
                assert(ids[ids.len() - 1] == users[i].id);
            }
        }
    }
}

/// A stranger's reminders are never made anew, whatever the store holds
/// and whatever the day.
pub proof fn lemma_stranger_is_never_regenerated(existing: Seq<ScheduledTask>, today: i32)
    ensures
        !recreate_on(UserRelation::Stranger, existing, today),
{
}

// ---------------------------------------------------------------------
// The first run after a start
// ---------------------------------------------------------------------

/// Where the bootstrap of the ambient reminders stands.
#[derive(Debug, Clone, Copy, PartialEq, Eq, Structural)]
pub enum BootstrapPhase {
    /// The reminders that the store holds for the user are being read.
    Inspecting,
    /// The user's reminders are out of date and are being deleted.
    Deleting,
    /// The user's new reminders are being created and scheduled.
    Creating,
    /// Every user has had their turn.
    Done,
    /// A step failed; the bootstrap ended there.
    Aborted,
}

/// What the bootstrap asks of the caller next.
#[derive(Debug, Clone)]
pub enum BootstrapStep {
    /// Read the ambient reminders that the store holds for this user.
    Inspect { user_id: i64 },
    /// Stop the jobs of this user's ambient reminders and delete them.
    Delete { user_id: i64 },
    /// Create these reminders for this user, and schedule each.
    Create { user_id: i64, requests: Vec<CreateTaskRequest> },
    /// Every user has had their turn.
    Done,
    /// A step failed: the start fails with it.
    Aborted,
}

/// How the step that was asked for ended.
#[derive(Debug, Clone)]
pub enum BootstrapOutcome {
    /// The store holds these ambient reminders for the user.
    Existing(Vec<ScheduledTask>),
    /// The reminders were deleted, or created and scheduled.
    Completed,
    /// The step failed.
    Failed,
}

/// The bootstrap as mathematical values.
pub struct BootstrapView {
    /// The users who get ambient reminders, in order.
    pub targets: Seq<i64>,
    /// How many of them have had their turn.
    pub at: nat,
    pub phase: BootstrapPhase,
}

impl BootstrapView {
    /// What holds of every state that the bootstrap reaches.
    pub open spec fn wf(self) -> bool {
        &&& self.at <= self.targets.len()
        &&& self.phase == BootstrapPhase::Done <==> self.at == self.targets.len()
    }

    /// The state before anything was asked: the first user is inspected.
    pub open spec fn initial(targets: Seq<i64>) -> BootstrapView {
        BootstrapView { targets, at: 0, phase: BootstrapPhase::Inspecting }.settled()
    }

    /// With the last user served, the bootstrap is done.
    pub open spec fn settled(self) -> BootstrapView {
        if self.at >= self.targets.len() {
            BootstrapView { phase: BootstrapPhase::Done, ..self }
        } else {
            self
        }
    }

    /// The state with the next user's turn begun.
    pub open spec fn advanced(self) -> BootstrapView {
        BootstrapView { at: self.at + 1, phase: BootstrapPhase::Inspecting, ..self }.settled()
    }

    /// The state after the step that was asked for ended with `outcome`, on
    /// the day `today`. Reminders that are up to date are left alone; others
    /// are deleted and made anew; the first failure ends the bootstrap. An
    /// outcome that does not answer the step changes nothing.
    pub open spec fn after(self, outcome: BootstrapOutcome, today: i32) -> BootstrapView {
        match (self.phase, outcome) {
            (BootstrapPhase::Inspecting, BootstrapOutcome::Existing(tasks)) => if batch_outdated(
                tasks@,
                today,
            ) {
                BootstrapView { phase: BootstrapPhase::Deleting, ..self }
            } else {
                self.advanced()
            },
            (BootstrapPhase::Deleting, BootstrapOutcome::Completed) => BootstrapView {
                phase: BootstrapPhase::Creating,
                ..self
            },
            (BootstrapPhase::Creating, BootstrapOutcome::Completed) => self.advanced(),
            (BootstrapPhase::Inspecting, BootstrapOutcome::Failed)
            | (BootstrapPhase::Deleting, BootstrapOutcome::Failed)
            | (BootstrapPhase::Creating, BootstrapOutcome::Failed) => BootstrapView {
                phase: BootstrapPhase::Aborted,
                ..self
            },
            _ => self,
        }
    }
}

/// The first run of the ambient reminders after a start: user by user, the
/// reminders that the store holds are read, and made anew where they are
/// missing or do not stem from today.
#[derive(Debug)]
pub struct AmbientBootstrap {
    targets: Vec<i64>,
    at: usize,
    phase: BootstrapPhase,
}

impl View for AmbientBootstrap {
    type V = BootstrapView;

    closed spec fn view(&self) -> BootstrapView {
        BootstrapView { targets: self.targets@, at: self.at as nat, phase: self.phase }
    }
}

impl AmbientBootstrap {
    #[verifier::type_invariant]
    closed spec fn inv(self) -> bool {
        self@.wf()
    }

    /// A bootstrap for those of `users` who are no strangers.
    pub fn new(users: &Vec<User>) -> (r: AmbientBootstrap)
        ensures
            r@ == BootstrapView::initial(eligible_ids(users@)),
    {
        let targets = eligible_users(users);
        let phase = if targets.len() == 0 {
            BootstrapPhase::Done
        } else {
            BootstrapPhase::Inspecting
        };
        AmbientBootstrap { targets, at: 0, phase }
    }

    /// Where the bootstrap stands.
    pub fn phase(&self) -> (p: BootstrapPhase)
        ensures
            p == self@.phase,
            self@.wf(),
    {
        proof {
            use_type_invariant(self);
        }
        self.phase
    }

    /// What to do next. The reminders to create are drawn now.
    pub fn step(&self) -> (step: BootstrapStep)
        ensures
            self@.wf(),
            match self@.phase {
                BootstrapPhase::Inspecting => step matches BootstrapStep::Inspect { user_id }
                    && user_id == self@.targets[self@.at as int],
                BootstrapPhase::Deleting => step matches BootstrapStep::Delete { user_id }
                    && user_id == self@.targets[self@.at as int],
                BootstrapPhase::Creating => step matches BootstrapStep::Create {
                    user_id,
                    requests,
                } && user_id == self@.targets[self@.at as int] && is_ambient_batch(
                    requests@,
                    user_id,
                ),
                BootstrapPhase::Done => step is Done,
                BootstrapPhase::Aborted => step is Aborted,
            },
    {
        proof {
            use_type_invariant(self);
        }
        match self.phase {
            BootstrapPhase::Inspecting => BootstrapStep::Inspect { user_id: self.targets[self.at] },
            BootstrapPhase::Deleting => BootstrapStep::Delete { user_id: self.targets[self.at] },
            BootstrapPhase::Creating => {
                let user_id = self.targets[self.at];
                BootstrapStep::Create { user_id, requests: create_random_tasks(user_id) }
            },
            BootstrapPhase::Done => BootstrapStep::Done,
            BootstrapPhase::Aborted => BootstrapStep::Aborted,
        }
    }

    /// Takes in how the step that was asked for ended, on the day `today`.
    pub fn record_on(&mut self, outcome: BootstrapOutcome, today: i32)
        ensures
            final(self)@ == old(self)@.after(outcome, today),
            final(self)@.wf(),
    {
        proof {
            use_type_invariant(&*self);
        }
        let mut state = AmbientBootstrap {
            targets: Vec::new(),
            at: 0,
            phase: BootstrapPhase::Done,
        };
        core::mem::swap(self, &mut state);
        let AmbientBootstrap { targets, at, phase } = state;
        let served = at < targets.len() && at + 1 == targets.len();
        let mut next = match (phase, outcome) {
            (BootstrapPhase::Inspecting, BootstrapOutcome::Existing(tasks)) => {
                if is_outdated(&tasks, today) {
                    AmbientBootstrap { targets, at, phase: BootstrapPhase::Deleting }
                } else if served {
                    AmbientBootstrap { targets, at: at + 1, phase: BootstrapPhase::Done }
                } else {
                    AmbientBootstrap { targets, at: at + 1, phase: BootstrapPhase::Inspecting }
                }
            },
            (BootstrapPhase::Deleting, BootstrapOutcome::Completed) => AmbientBootstrap {
                targets,
                at,
                phase: BootstrapPhase::Creating,
            },
            (BootstrapPhase::Creating, BootstrapOutcome::Completed) => {
                if served {
                    AmbientBootstrap { targets, at: at + 1, phase: BootstrapPhase::Done }
                } else {
                    AmbientBootstrap { targets, at: at + 1, phase: BootstrapPhase::Inspecting }
                }
            },
            (BootstrapPhase::Inspecting, BootstrapOutcome::Failed)
            | (BootstrapPhase::Deleting, BootstrapOutcome::Failed)
            | (BootstrapPhase::Creating, BootstrapOutcome::Failed) => AmbientBootstrap {
                targets,
                at,
                phase: BootstrapPhase::Aborted,
            },
            (phase, _) => AmbientBootstrap { targets, at, phase },
        };
        core::mem::swap(self, &mut next);
    }

    /// Takes in how the step that was asked for ended, going by the local
    /// date of this moment.
    pub fn record(&mut self, outcome: BootstrapOutcome)
        ensures
            exists|today: i32| final(self)@ == #[trigger] old(self)@.after(outcome, today),
            final(self)@.wf(),
    {
        let today = local_today();
        self.record_on(outcome, today);
    }
}

/// The first failure ends the bootstrap, and nothing is asked after it.
pub proof fn lemma_bootstrap_stops_at_failure(
    s: BootstrapView,
    outcome: BootstrapOutcome,
    today: i32,
)
    requires
        s.wf(),
    ensures
        s.after(outcome, today).wf(),
        s.after(outcome, today).targets == s.targets,
        s.phase != BootstrapPhase::Done && s.phase != BootstrapPhase::Aborted ==> s.after(
            BootstrapOutcome::Failed,
            today,
        ).phase == BootstrapPhase::Aborted,
        s.phase == BootstrapPhase::Aborted ==> s.after(outcome, today) == s,
{
}

/// Reminders that stem from today are left alone: their user is passed
/// over, and nothing of theirs is deleted or created.
pub proof fn lemma_fresh_batch_is_kept(s: BootstrapView, tasks: Vec<ScheduledTask>, today: i32)
    requires
        s.wf(),
        s.phase == BootstrapPhase::Inspecting,
        !batch_outdated(tasks@, today),
    ensures
        s.after(BootstrapOutcome::Existing(tasks), today) == s.advanced(),
        s.after(BootstrapOutcome::Existing(tasks), today).phase != BootstrapPhase::Deleting,
        s.after(BootstrapOutcome::Existing(tasks), today).phase != BootstrapPhase::Creating,
        s.after(BootstrapOutcome::Existing(tasks), today).at == s.at + 1,
{
}

// ---------------------------------------------------------------------
// The daily regeneration
// ---------------------------------------------------------------------

/// What the daily regeneration asks of the store next.
#[derive(Debug, Clone)]
pub enum RegenerationStep {
    /// Stop the jobs of this user's ambient reminders and delete them.
    Delete { user_id: i64 },
    /// Create these reminders for this user.
    Create { user_id: i64, requests: Vec<CreateTaskRequest> },
    /// Every user has had their turn.
    Done,
}

/// The daily regeneration as mathematical values.
pub struct RegenerationView {
    /// The users whose reminders are made anew, in order.
    pub targets: Seq<i64>,
    /// How many of them have had their turn.
    pub at: nat,
    /// Whether the reminders of the user at `at` are deleted and their new
    /// ones are to be created.
    pub creating: bool,
}

impl RegenerationView {
    /// What holds of every state that the regeneration reaches.
    pub open spec fn wf(self) -> bool {
        self.at <= self.targets.len() && (self.creating ==> self.at < self.targets.len())
    }

    /// The place of the first user whose reminders are still to be
    /// deleted.
    pub open spec fn waiting_from(self) -> int {
        if self.creating {
            self.at as int + 1
        } else {
            self.at as int
        }
    }

    /// Whether every user has had their turn.
    pub open spec fn is_done(self) -> bool {
        self.at >= self.targets.len()
    }

    /// The state after the step that was asked for ended, with or without a
    /// failure. Reminders are created only where the old ones could be
    /// deleted; either way the next user follows.
    pub open spec fn after(self, failed: bool) -> RegenerationView {
        if self.is_done() {
            self
        } else if self.creating || failed {
            RegenerationView { at: self.at + 1, creating: false, ..self }
        } else {
            RegenerationView { creating: true, ..self }
        }
    }

    /// The state after one step for each of `outcomes`, in order.
    pub open spec fn run(self, outcomes: Seq<bool>) -> RegenerationView
        decreases outcomes.len(),
    {
        if outcomes.len() == 0 {
            self
        } else {
            self.after(outcomes[0]).run(outcomes.drop_first())
        }
    }

    /// The users whose reminders the steps for `outcomes` asked to delete,
    /// in order.
    pub open spec fn deleted(self, outcomes: Seq<bool>) -> Seq<i64>
        decreases outcomes.len(),
    {
        if outcomes.len() == 0 {
            Seq::empty()
        } else if !self.is_done() && !self.creating {
            seq![self.targets[self.at as int]] + self.after(outcomes[0]).deleted(
                outcomes.drop_first(),
            )
        } else {
            self.after(outcomes[0]).deleted(outcomes.drop_first())
        }
    }
}

/// One run of the daily regeneration: user by user, the ambient reminders
/// are deleted and made anew.
#[derive(Debug)]
pub struct DailyRegeneration {
    targets: Vec<i64>,
    at: usize,
    creating: bool,
}

impl View for DailyRegeneration {
    type V = RegenerationView;

    closed spec fn view(&self) -> RegenerationView {
        RegenerationView { targets: self.targets@, at: self.at as nat, creating: self.creating }
    }
}

impl DailyRegeneration {
    #[verifier::type_invariant]
    closed spec fn inv(self) -> bool {
        self@.wf()
    }

    /// A regeneration for those of `users` who are no strangers.
    pub fn new(users: &Vec<User>) -> (r: DailyRegeneration)
        ensures
            r@ == (RegenerationView { targets: eligible_ids(users@), at: 0, creating: false }),
    {
        DailyRegeneration { targets: eligible_users(users), at: 0, creating: false }
    }

    /// What to ask of the store next. The reminders to create are drawn
    /// now.
    pub fn step(&self) -> (step: RegenerationStep)
        ensures
            self@.wf(),
            self@.is_done() <==> step is Done,
            !self@.is_done() && !self@.creating ==> (step matches RegenerationStep::Delete {
                user_id,
            } && user_id == self@.targets[self@.at as int]),
            !self@.is_done() && self@.creating ==> (step matches RegenerationStep::Create {
                user_id,
                requests,
            } && user_id == self@.targets[self@.at as int] && is_ambient_batch(
                requests@,
                user_id,
            )),
    {
        proof {
            use_type_invariant(self);
        }
        if self.at >= self.targets.len() {
            RegenerationStep::Done
        } else if self.creating {
            let user_id = self.targets[self.at];
            RegenerationStep::Create { user_id, requests: create_random_tasks(user_id) }
        } else {
            RegenerationStep::Delete { user_id: self.targets[self.at] }
        }
    }

    /// Takes in how the step that was asked for ended.
    pub fn record(&mut self, failed: bool)
        ensures
            final(self)@ == old(self)@.after(failed),
            final(self)@.wf(),
    {
        proof {
            use_type_invariant(&*self);
        }
        if self.at < self.targets.len() {
            if self.creating || failed {
                self.creating = false;
                self.at = self.at + 1;
            } else {
                self.creating = true;
            }
        }
    }
}

/// Steps keep the regeneration in order, and never go back.
pub proof fn lemma_regeneration_goes_on(s: RegenerationView, failed: bool)
    requires
        s.wf(),
    ensures
        s.after(failed).wf(),
        s.after(failed).targets == s.targets,
        s.after(failed).at >= s.at,
{
}

/// The failure of one user costs that user alone: however the steps end,
/// once the regeneration is done the reminders of every user in turn were
/// asked to be deleted, each once and in order.
pub proof fn lemma_every_user_has_a_turn(s: RegenerationView, outcomes: Seq<bool>)
    requires
        s.wf(),
        s.run(outcomes).is_done(),
    ensures
        s.deleted(outcomes) == s.targets.subrange(s.waiting_from(), s.targets.len() as int),
    decreases outcomes.len(),
{
    if outcomes.len() > 0 {
        lemma_every_user_has_a_turn(s.after(outcomes[0]), outcomes.drop_first());
    }
}

/// Two steps for each user are enough to be done, however they end.
pub proof fn lemma_regeneration_ends(s: RegenerationView, outcomes: Seq<bool>)
    requires
        s.wf(),
        outcomes.len() >= 2 * (s.targets.len() - s.at),
    ensures
        s.run(outcomes).is_done(),
        s.run(outcomes).wf(),
    decreases outcomes.len(),
{
    if outcomes.len() > 0 {
        let next = s.after(outcomes[0]);
        if s.is_done() {
            lemma_regeneration_ends(next, outcomes.drop_first());
        } else if s.creating || outcomes[0] {
            lemma_regeneration_ends(next, outcomes.drop_first());
        } else {
            // The reminders are deleted: the step that creates the new ones
            // follows, and with it the user's turn ends.
            let rest = outcomes.drop_first();
            let after_create = next.after(rest[0]);
            lemma_regeneration_ends(after_create, rest.drop_first());
        }
    }
}

} // verus!
