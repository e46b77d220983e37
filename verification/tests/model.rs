use millkrs::db::model::UserRelation;
use millkrs::db::scheduler_model::{TaskCreator, TaskFrequency};
use millkrs::db::scheduler_service::{created_task, map_row_to_task, map_rows_to_tasks, TaskRow};
use millkrs::db::service::{
    check_no_master, check_operator, check_prompt_updated, expect_user, is_master,
    map_row_to_user, UserRow,
};
use millkrs::error::BotError;

#[test]
fn frequency_text_round_trip() {
    assert_eq!(TaskFrequency::Once.as_str(), "once");
    assert_eq!(TaskFrequency::Daily.as_str(), "daily");
    assert_eq!(TaskFrequency::from_str("once").unwrap(), TaskFrequency::Once);
    assert_eq!(TaskFrequency::from_str("daily").unwrap(), TaskFrequency::Daily);
    match TaskFrequency::from_str("weekly") {
        Err(BotError::InvalidFrequency(s)) => assert_eq!(s, "weekly"),
        other => panic!("unexpected: {:?}", other),
    }
    assert!(TaskFrequency::from_str("Once").is_err());
    assert!(TaskFrequency::from_str("").is_err());
}

#[test]
fn creator_text_round_trip() {
    assert_eq!(TaskCreator::System.as_str(), "system");
    assert_eq!(TaskCreator::User.as_str(), "user");
    assert_eq!(TaskCreator::from_str("system").unwrap(), TaskCreator::System);
    assert_eq!(TaskCreator::from_str("user").unwrap(), TaskCreator::User);
    match TaskCreator::from_str("robot") {
        Err(BotError::InvalidCreator(s)) => assert_eq!(s, "robot"),
        other => panic!("unexpected: {:?}", other),
    }
}

#[test]
fn relation_text_round_trip() {
    for rel in [UserRelation::Master, UserRelation::Friend, UserRelation::Stranger] {
        assert_eq!(UserRelation::from_str(rel.as_str()).unwrap(), rel);
    }
    assert_eq!(UserRelation::Master.as_str(), "master");
    assert_eq!(UserRelation::Friend.as_str(), "friend");
    assert_eq!(UserRelation::Stranger.as_str(), "stranger");
    match UserRelation::from_str("guest") {
        Err(BotError::InvalidRelation(s)) => assert_eq!(s, "guest"),
        other => panic!("unexpected: {:?}", other),
    }
}

#[test]
fn error_messages_are_exact() {
    assert_eq!(BotError::InvalidRelation("x".to_string()).message(), "无效的用户关系类型: x");
    assert_eq!(BotError::InvalidFrequency("x".to_string()).message(), "无效的任务频率: x");
    assert_eq!(BotError::InvalidCreator("x".to_string()).message(), "无效的创建者类型: x");
    assert_eq!(BotError::InvalidCron("x".to_string()).message(), "ParseSchedule");
    assert_eq!(BotError::TaskMissingAfterCreate.message(), "创建任务后无法查询到任务");
    assert_eq!(BotError::UserMissingAfterCreate.message(), "创建用户后无法查询到用户");
    assert_eq!(BotError::MasterExists.message(), "已存在 master 用户，无法创建新的 master");
    assert_eq!(
        BotError::UserMissingAfterPromotion.message(),
        "更新用户为 master 后无法查询到用户"
    );
    assert_eq!(BotError::NotMaster.message(), "只有 master 用户才能修改用户关系");
    assert_eq!(BotError::UserMissingAfterUpdate.message(), "更新用户后无法查询到用户");
    assert_eq!(BotError::UserNotFound(-17).message(), "用户 ID -17 不存在");
    assert_eq!(BotError::UserMissingAfterPrompt.message(), "更新自定义提示词后无法查询到用户");
}

fn task_row(id: i64, frequency: &str, created_by: &str) -> TaskRow {
    TaskRow {
        id,
        frequency: frequency.to_string(),
        cron_expr: "0 0 8 * * *".to_string(),
        target_user_id: 42,
        content: "hello".to_string(),
        created_by: created_by.to_string(),
        enabled: true,
        last_run_at: Some("2024-05-01 08:00:00".to_string()),
        next_run_at: None,
        created_at: "2024-04-30 10:00:00".to_string(),
        updated_at: "2024-05-01 08:00:00".to_string(),
    }
}

#[test]
fn row_becomes_task() {
    let task = map_row_to_task(Some(task_row(3, "daily", "system"))).unwrap().unwrap();
    assert_eq!(task.id, 3);
    assert_eq!(task.frequency, TaskFrequency::Daily);
    assert_eq!(task.cron_expr, "0 0 8 * * *");
    assert_eq!(task.target_user_id, 42);
    assert_eq!(task.content, "hello");
    assert_eq!(task.created_by, TaskCreator::System);
    assert!(task.enabled);
    assert_eq!(task.last_run_at.as_deref(), Some("2024-05-01 08:00:00"));
    assert_eq!(task.next_run_at, None);
    assert_eq!(task.created_at, "2024-04-30 10:00:00");
    assert_eq!(task.updated_at, "2024-05-01 08:00:00");
    assert!(map_row_to_task(None).unwrap().is_none());
}

#[test]
fn bad_row_is_an_error() {
    assert!(matches!(
        map_row_to_task(Some(task_row(3, "hourly", "system"))),
        Err(BotError::InvalidFrequency(_))
    ));
    assert!(matches!(
        map_row_to_task(Some(task_row(3, "once", "nobody"))),
        Err(BotError::InvalidCreator(_))
    ));
    // The frequency is looked at first.
    assert!(matches!(
        map_row_to_task(Some(task_row(3, "hourly", "nobody"))),
        Err(BotError::InvalidFrequency(_))
    ));
}

#[test]
fn rows_become_tasks_in_order() {
    let tasks = map_rows_to_tasks(vec![
        task_row(1, "once", "user"),
        task_row(2, "daily", "system"),
        task_row(3, "once", "system"),
    ])
    .unwrap();
    assert_eq!(tasks.iter().map(|t| t.id).collect::<Vec<_>>(), vec![1, 2, 3]);
    assert!(map_rows_to_tasks(Vec::new()).unwrap().is_empty());
    match map_rows_to_tasks(vec![
        task_row(1, "once", "user"),
        task_row(2, "daily", "alien"),
        task_row(3, "yearly", "system"),
    ]) {
        Err(BotError::InvalidCreator(s)) => assert_eq!(s, "alien"),
        other => panic!("unexpected: {:?}", other),
    }
}

#[test]
fn created_task_must_be_found() {
    let task = map_row_to_task(Some(task_row(3, "daily", "system"))).unwrap();
    assert_eq!(created_task(task).unwrap().id, 3);
    assert!(matches!(created_task(None), Err(BotError::TaskMissingAfterCreate)));
}

fn user_row(id: i64, relation: &str) -> UserRow {
    UserRow {
        id,
        name: "Ann".to_string(),
        relation: relation.to_string(),
        custom_prompt: Some("be brief".to_string()),
        created_at: "2024-04-30 10:00:00".to_string(),
        updated_at: "2024-05-01 08:00:00".to_string(),
    }
}

#[test]
fn row_becomes_user() {
    let user = map_row_to_user(Some(user_row(7, "master"))).unwrap().unwrap();
    assert_eq!(user.id, 7);
    assert_eq!(user.name, "Ann");
    assert_eq!(user.relation, UserRelation::Master);
    assert_eq!(user.custom_prompt.as_deref(), Some("be brief"));
    assert_eq!(user.created_at, "2024-04-30 10:00:00");
    assert_eq!(user.updated_at, "2024-05-01 08:00:00");
    assert!(map_row_to_user(None).unwrap().is_none());
    match map_row_to_user(Some(user_row(7, "guest"))) {
        Err(BotError::InvalidRelation(s)) => assert_eq!(s, "guest"),
        other => panic!("unexpected: {:?}", other),
    }
}

#[test]
fn only_the_master_changes_relations() {
    let master = map_row_to_user(Some(user_row(7, "master"))).unwrap();
    let friend = map_row_to_user(Some(user_row(8, "friend"))).unwrap();
    assert!(is_master(&master));
    assert!(!is_master(&friend));
    assert!(!is_master(&None));
    assert!(check_operator(&master).is_ok());
    assert!(matches!(check_operator(&friend), Err(BotError::NotMaster)));
    assert!(matches!(check_operator(&None), Err(BotError::NotMaster)));
}

#[test]
fn guards_of_the_user_directory() {
    assert!(check_no_master(false).is_ok());
    assert!(matches!(check_no_master(true), Err(BotError::MasterExists)));
    assert!(check_prompt_updated(1, 9).is_ok());
    assert!(matches!(check_prompt_updated(0, 9), Err(BotError::UserNotFound(9))));
    let friend = map_row_to_user(Some(user_row(8, "friend"))).unwrap();
    assert_eq!(expect_user(friend, BotError::UserMissingAfterUpdate).unwrap().id, 8);
    assert!(matches!(
        expect_user(None, BotError::UserMissingAfterPrompt),
        Err(BotError::UserMissingAfterPrompt)
    ));
}
