use chrono::Datelike;
use millkrs::db::model::{User, UserRelation};
use millkrs::db::scheduler_model::{ScheduledTask, TaskCreator, TaskFrequency};
use millkrs::error::BotError;
use millkrs::db::scheduler_model::CreateTaskRequest;
use millkrs::scheduler::ambient::{
    ambient_request, create_random_tasks, created_day, cron_expr_at, eligible_users,
    generate_random_cron, is_outdated, random_task, should_recreate,
    AmbientBootstrap, BootstrapOutcome, BootstrapPhase, BootstrapStep, DailyRegeneration,
    RegenerationStep, DAILY_UPDATE_CRON, RANDOM_TASK_COUNT,
};
use millkrs::scheduler::manager::{check_request, is_valid_cron, SchedulerManager};

fn row(id: i64, frequency: TaskFrequency, cron: &str, user: i64, enabled: bool) -> ScheduledTask {
    ScheduledTask {
        id,
        frequency,
        cron_expr: cron.to_string(),
        target_user_id: user,
        content: format!("remind {}", id),
        created_by: TaskCreator::User,
        enabled,
        last_run_at: None,
        next_run_at: None,
        created_at: "2024-05-01 08:00:00".to_string(),
        updated_at: "2024-05-01 08:00:00".to_string(),
    }
}

#[test]
fn cron_expression_is_written_exactly() {
    assert_eq!(cron_expr_at(5, 7), "0 5 7 * * *");
    assert_eq!(cron_expr_at(59, 23), "0 59 23 * * *");
    assert_eq!(cron_expr_at(0, 0), "0 0 0 * * *");
}

#[test]
fn cron_validation_follows_the_scheduler() {
    assert!(is_valid_cron("0 0 1 * * *"));
    assert!(is_valid_cron("0 30 18 2 2 *"));
    assert!(!is_valid_cron("not-a-cron"));
    assert!(!is_valid_cron(""));
}

#[test]
fn random_cron_lies_in_the_window() {
    for _ in 0..200 {
        let expr = generate_random_cron((7, 9));
        let parts: Vec<&str> = expr.split(' ').collect();
        assert_eq!(parts.len(), 6);
        assert_eq!(parts[0], "0");
        let minute: u32 = parts[1].parse().unwrap();
        let hour: u32 = parts[2].parse().unwrap();
        assert!(minute < 60);
        assert!((7..=9).contains(&hour));
        assert_eq!(&parts[3..], ["*", "*", "*"]);
        assert!(is_valid_cron(&expr));
    }
}

#[test]
fn ambient_batch_has_one_row_per_archetype() {
    let batch = create_random_tasks(42);
    assert_eq!(batch.len(), RANDOM_TASK_COUNT);
    for (i, req) in batch.iter().enumerate() {
        let template = random_task(i);
        assert_eq!(req.target_user_id, 42);
        assert_eq!(req.frequency, TaskFrequency::Once);
        assert_eq!(req.created_by, TaskCreator::System);
        assert_eq!(req.content, template.content);
        let parts: Vec<&str> = req.cron_expr.split(' ').collect();
        let hour: u32 = parts[2].parse().unwrap();
        assert!(template.hour_range.0 <= hour && hour <= template.hour_range.1);
    }
}

#[test]
fn malformed_cron_is_refused_and_never_scheduled() {
    let mut manager = SchedulerManager::new();
    manager.start(&Vec::new());
    let r = manager.add_task(row(7, TaskFrequency::Once, "not-a-cron", 42, true));
    match r {
        Err(BotError::InvalidCron(expr)) => assert_eq!(expr, "not-a-cron"),
        other => panic!("unexpected: {:?}", other),
    }
    assert!(!manager.is_scheduled(7));
    assert!(manager.fire(7).is_none());
    let failed = manager.load_tasks(&vec![row(7, TaskFrequency::Once, "not-a-cron", 42, true)]);
    assert_eq!(failed, vec![7]);
    assert!(!manager.is_scheduled(7));
}

#[test]
fn once_task_fires_once_and_is_not_reloaded() {
    let mut manager = SchedulerManager::new();
    manager.start(&Vec::new());
    let stored = manager.add_task(row(1, TaskFrequency::Once, "0 0 8 * * *", 42, true)).unwrap();
    assert_eq!(stored.id, 1);
    assert!(manager.is_scheduled(1));
    let plan = manager.fire(1).unwrap();
    assert_eq!(plan.task_id, 1);
    assert_eq!(plan.agent_task.target_user_id, 42);
    assert_eq!(plan.agent_task.content, "remind 1");
    assert!(plan.retire);
    assert!(!manager.is_scheduled(1));
    assert!(manager.fire(1).is_none());
    // The store now shows the row disabled: a reload passes it over.
    let failed = manager.load_tasks(&vec![row(1, TaskFrequency::Once, "0 0 8 * * *", 42, false)]);
    assert!(failed.is_empty());
    assert!(!manager.is_scheduled(1));
}

#[test]
fn daily_task_fires_on_every_period() {
    let mut manager = SchedulerManager::new();
    manager.start(&vec![row(2, TaskFrequency::Daily, "0 0 8 * * *", 9, true)]);
    for _ in 0..5 {
        let plan = manager.fire(2).unwrap();
        assert!(!plan.retire);
        assert_eq!(plan.agent_task.target_user_id, 9);
        assert!(manager.is_scheduled(2));
    }
    assert_eq!(manager.job_count(), 1);
}

#[test]
fn nothing_fires_before_start_or_after_shutdown() {
    let mut manager = SchedulerManager::new();
    manager.schedule_task(3, "0 0 8 * * *", TaskFrequency::Daily, 9, "x".to_string()).unwrap();
    assert!(manager.fire(3).is_none());
    manager.start(&Vec::new());
    assert!(manager.is_running());
    assert!(manager.has_daily_update());
    assert!(manager.fire(3).is_some());
    manager.shutdown();
    assert!(!manager.is_running());
    assert!(manager.fire(3).is_none());
    assert_eq!(manager.job_count(), 0);
}

#[test]
fn a_task_has_one_job() {
    let mut manager = SchedulerManager::new();
    manager.schedule_task(3, "0 0 8 * * *", TaskFrequency::Daily, 9, "x".to_string()).unwrap();
    manager.schedule_task(3, "0 0 9 * * *", TaskFrequency::Once, 9, "y".to_string()).unwrap();
    assert_eq!(manager.job_count(), 1);
    manager.start(&Vec::new());
    let plan = manager.fire(3).unwrap();
    assert_eq!(plan.agent_task.content, "y");
    assert!(plan.retire);
    assert!(!manager.remove_task(3));
}

#[test]
fn strangers_get_no_ambient_reminders() {
    let users = vec![
        user(1, UserRelation::Master),
        user(2, UserRelation::Stranger),
        user(3, UserRelation::Friend),
        user(4, UserRelation::Stranger),
    ];
    assert_eq!(eligible_users(&users), vec![1, 3]);
    assert!(eligible_users(&Vec::new()).is_empty());
    assert!(!should_recreate(UserRelation::Stranger, &Vec::new(), 1));
    assert!(should_recreate(UserRelation::Friend, &Vec::new(), 1));
}

#[test]
fn batch_is_renewed_when_it_is_not_of_today() {
    let day = |y: i32, m: u32, d: u32| chrono::NaiveDate::from_ymd_opt(y, m, d).unwrap().num_days_from_ce();
    let mut a = row(1, TaskFrequency::Once, "0 1 8 * * *", 42, true);
    a.created_at = "2024-05-01 23:59:59".to_string();
    let mut b = row(2, TaskFrequency::Once, "0 1 9 * * *", 42, false);
    b.created_at = "2024-05-01 00:00:00".to_string();
    assert_eq!(created_day(&a), Some(day(2024, 5, 1)));
    assert_eq!(created_day(&a), Some(739007));
    let batch = vec![a, b];
    // Made today: kept. Made yesterday: renewed. The clock set back: kept.
    assert!(!should_recreate(UserRelation::Friend, &batch, day(2024, 5, 1)));
    assert!(should_recreate(UserRelation::Friend, &batch, day(2024, 5, 2)));
    assert!(!should_recreate(UserRelation::Friend, &batch, day(2024, 4, 30)));
    assert!(should_recreate(UserRelation::Master, &Vec::new(), day(2024, 5, 1)));
    assert!(!should_recreate(UserRelation::Stranger, &batch, day(2024, 5, 2)));
    // A time that cannot be read makes the batch stale.
    let mut c = row(3, TaskFrequency::Once, "0 1 9 * * *", 42, true);
    c.created_at = "yesterday".to_string();
    assert_eq!(created_day(&c), None);
    let mut d = row(4, TaskFrequency::Once, "0 1 9 * * *", 42, true);
    d.created_at = "2024-05-01 08:00:00".to_string();
    assert!(should_recreate(UserRelation::Friend, &vec![d, c], day(2024, 5, 1)));
}

#[test]
fn disabled_rows_are_not_loaded() {
    let mut manager = SchedulerManager::new();
    let failed = manager.start(&vec![
        row(1, TaskFrequency::Daily, "0 0 8 * * *", 42, true),
        row(2, TaskFrequency::Daily, "0 0 8 * * *", 42, false),
        row(3, TaskFrequency::Once, "bad", 42, true),
        row(4, TaskFrequency::Once, "bad", 42, false),
        row(5, TaskFrequency::Once, "0 30 9 * * *", 43, true),
    ]);
    assert_eq!(failed, vec![3]);
    assert!(manager.is_scheduled(1));
    assert!(!manager.is_scheduled(2));
    assert!(!manager.is_scheduled(3));
    assert!(!manager.is_scheduled(4));
    assert!(manager.is_scheduled(5));
    assert_eq!(manager.job_count(), 2);
    assert!(manager.remove_task(5));
    assert!(!manager.is_scheduled(5));
    assert_eq!(manager.job_count(), 1);
}

#[test]
fn daily_update_runs_at_one_at_night() {
    assert_eq!(DAILY_UPDATE_CRON, "0 0 1 * * *");
    assert!(is_valid_cron(DAILY_UPDATE_CRON));
}

fn user(id: i64, relation: UserRelation) -> User {
    User {
        id,
        name: String::new(),
        relation,
        custom_prompt: None,
        created_at: String::new(),
        updated_at: String::new(),
    }
}

#[test]
fn one_failing_user_does_not_stop_the_regeneration() {
    let users = vec![
        user(1, UserRelation::Friend),
        user(2, UserRelation::Stranger),
        user(3, UserRelation::Master),
        user(4, UserRelation::Friend),
    ];
    let mut run = DailyRegeneration::new(&users);
    let mut deleted = Vec::new();
    let mut created = Vec::new();
    loop {
        match run.step() {
            RegenerationStep::Delete { user_id } => {
                deleted.push(user_id);
                // The store fails for user 3.
                run.record(user_id == 3);
            }
            RegenerationStep::Create { user_id, requests } => {
                assert_eq!(requests.len(), RANDOM_TASK_COUNT);
                assert!(requests.iter().all(|r| r.target_user_id == user_id));
                created.push(user_id);
                // Creating fails for user 1; user 4 is served all the same.
                run.record(user_id == 1);
            }
            RegenerationStep::Done => break,
        }
    }
    assert_eq!(deleted, vec![1, 3, 4]);
    assert_eq!(created, vec![1, 4]);
    run.record(false);
    assert!(matches!(run.step(), RegenerationStep::Done));
    assert!(matches!(DailyRegeneration::new(&Vec::new()).step(), RegenerationStep::Done));
}

#[test]
fn request_is_turned_down_before_it_is_stored() {
    let mut req = CreateTaskRequest {
        target_user_id: 42,
        frequency: TaskFrequency::Once,
        cron_expr: "not-a-cron".to_string(),
        content: "x".to_string(),
        created_by: TaskCreator::User,
    };
    match check_request(&req) {
        Err(BotError::InvalidCron(expr)) => assert_eq!(expr, "not-a-cron"),
        other => panic!("unexpected: {:?}", other),
    }
    req.cron_expr = "0 15 6 * * *".to_string();
    assert!(check_request(&req).is_ok());
    // Five fields, without seconds, are no schedule.
    req.cron_expr = "15 6 * * *".to_string();
    assert!(check_request(&req).is_err());
}

#[test]
fn ambient_request_is_exact() {
    let req = ambient_request(42, 1, 5, 12);
    assert_eq!(req.target_user_id, 42);
    assert_eq!(req.frequency, TaskFrequency::Once);
    assert_eq!(req.created_by, TaskCreator::System);
    assert_eq!(req.cron_expr, "0 5 12 * * *");
    assert_eq!(req.content, "现在是中午，请给用户发送一条午间问候，提醒用户注意休息和用餐。");
    assert_eq!(random_task(0).hour_range, (7, 9));
    assert_eq!(random_task(1).hour_range, (11, 13));
    assert_eq!(random_task(2).hour_range, (21, 23));
    assert_eq!(random_task(3).hour_range, (9, 18));
    assert_eq!(random_task(4).hour_range, (10, 17));
}

#[test]
fn starting_twice_changes_nothing() {
    let rows = vec![
        row(1, TaskFrequency::Daily, "0 0 8 * * *", 42, true),
        row(2, TaskFrequency::Once, "0 0 9 * * *", 42, true),
    ];
    let mut manager = SchedulerManager::new();
    assert!(manager.start(&rows).is_empty());
    assert!(manager.start(&rows).is_empty());
    assert_eq!(manager.job_count(), 2);
    assert!(manager.is_running());
    assert!(manager.fire(2).unwrap().retire);
    assert_eq!(manager.job_count(), 1);
}

fn today() -> i32 {
    chrono::Local::now().date_naive().num_days_from_ce()
}

fn system_row(id: i64, user: i64, created_at: &str) -> ScheduledTask {
    let mut task = row(id, TaskFrequency::Once, "0 1 8 * * *", user, true);
    task.created_by = TaskCreator::System;
    task.created_at = created_at.to_string();
    task
}

#[test]
fn bootstrap_renews_what_is_missing_or_old() {
    let users = vec![
        user(1, UserRelation::Friend),
        user(2, UserRelation::Stranger),
        user(3, UserRelation::Master),
        user(4, UserRelation::Friend),
    ];
    let day = chrono::NaiveDate::from_ymd_opt(2024, 5, 2).unwrap().num_days_from_ce();
    let mut run = AmbientBootstrap::new(&users);
    let mut asked = Vec::new();
    loop {
        let outcome = match run.step() {
            BootstrapStep::Inspect { user_id } => {
                asked.push(format!("inspect {}", user_id));
                match user_id {
                    // Nothing stored; reminders of yesterday; reminders of today.
                    1 => BootstrapOutcome::Existing(Vec::new()),
                    3 => BootstrapOutcome::Existing(vec![system_row(7, 3, "2024-05-01 01:00:00")]),
                    _ => BootstrapOutcome::Existing(vec![system_row(8, 4, "2024-05-02 01:00:00")]),
                }
            }
            BootstrapStep::Delete { user_id } => {
                asked.push(format!("delete {}", user_id));
                BootstrapOutcome::Completed
            }
            BootstrapStep::Create { user_id, requests } => {
                assert_eq!(requests.len(), RANDOM_TASK_COUNT);
                asked.push(format!("create {}", user_id));
                BootstrapOutcome::Completed
            }
            BootstrapStep::Done => break,
            BootstrapStep::Aborted => panic!("nothing failed"),
        };
        run.record_on(outcome, day);
    }
    assert_eq!(
        asked,
        vec!["inspect 1", "delete 1", "create 1", "inspect 3", "delete 3", "create 3", "inspect 4"]
    );
    assert_eq!(run.phase(), BootstrapPhase::Done);
}

#[test]
fn bootstrap_ends_at_the_first_failure() {
    let users = vec![user(1, UserRelation::Friend), user(3, UserRelation::Master)];
    let mut run = AmbientBootstrap::new(&users);
    assert!(matches!(run.step(), BootstrapStep::Inspect { user_id: 1 }));
    // An answer that fits no step changes nothing.
    run.record(BootstrapOutcome::Completed);
    assert_eq!(run.phase(), BootstrapPhase::Inspecting);
    run.record(BootstrapOutcome::Existing(Vec::new()));
    assert!(matches!(run.step(), BootstrapStep::Delete { user_id: 1 }));
    run.record(BootstrapOutcome::Failed);
    assert!(matches!(run.step(), BootstrapStep::Aborted));
    run.record(BootstrapOutcome::Completed);
    assert_eq!(run.phase(), BootstrapPhase::Aborted);

    let strangers = vec![user(2, UserRelation::Stranger)];
    assert!(matches!(AmbientBootstrap::new(&strangers).step(), BootstrapStep::Done));

    assert!(is_outdated(&Vec::new(), today()));
    assert!(!is_outdated(&vec![system_row(8, 4, "2024-05-02 01:00:00")], 0));
}

#[test]
fn bootstrap_goes_by_the_local_date() {
    let users = vec![user(1, UserRelation::Friend), user(3, UserRelation::Master)];
    let now = chrono::Local::now().format("%Y-%m-%d %H:%M:%S").to_string();
    let mut run = AmbientBootstrap::new(&users);
    // Reminders of this very moment are of today, unless midnight passes
    // between the two readings of the clock.
    let before = today();
    run.record(BootstrapOutcome::Existing(vec![system_row(7, 1, &now)]));
    if before == today() {
        assert!(matches!(run.step(), BootstrapStep::Inspect { user_id: 3 }));
        run.record(BootstrapOutcome::Existing(vec![system_row(8, 3, "2000-01-01 00:00:00")]));
        assert!(matches!(run.step(), BootstrapStep::Delete { user_id: 3 }));
    }
}
