use millkrs::agent::tools::create_scheduled_task::{
    build_request, created, refused, CreateScheduledTaskArgs, CreateScheduledTaskError,
};
use millkrs::agent::tools::get_current_time::{
    time_result, GetCurrentTime, GetCurrentTimeArgs, TimeError,
};
use millkrs::agent::tools::send_message::{send_step, SendMessageError, SendStep};
use millkrs::agent::tools::web_search::WebSearchError;
use millkrs::agent::{chat_failure_reply, deal_prompt};
use millkrs::db::model::{User, UserRelation};
use millkrs::db::scheduler_model::{TaskCreator, TaskFrequency};
use millkrs::error::BotError;

fn user(custom_prompt: Option<&str>) -> User {
    User {
        id: 42,
        name: "Ann".to_string(),
        relation: UserRelation::Friend,
        custom_prompt: custom_prompt.map(|p| p.to_string()),
        created_at: "2024-05-01 08:00:00".to_string(),
        updated_at: "2024-05-01 08:00:00".to_string(),
    }
}

#[test]
fn prompt_is_exact() {
    assert_eq!(
        deal_prompt(&user(None), "hi"),
        "User Info:\n- User ID: 42\n- Name: Ann\n- Relation: friend\n\nUser Message: hi\n\n请使用 send_message 工具回复用户的消息"
    );
    assert_eq!(
        deal_prompt(&user(Some("be brief")), "hi"),
        "User Info:\n- User ID: 42\n- Name: Ann\n- Relation: friend\n- Custom Prompt: be brief\n\nUser Message: hi\n\n请使用 send_message 工具回复用户的消息"
    );
    assert_eq!(chat_failure_reply("timeout"), "AI处理消息失败: timeout");
}

fn args(frequency: &str) -> CreateScheduledTaskArgs {
    CreateScheduledTaskArgs {
        user_id: 42,
        content: "remind me".to_string(),
        cron_expr: "0 0 8 * * *".to_string(),
        frequency: frequency.to_string(),
    }
}

#[test]
fn tool_builds_a_user_task() {
    let req = build_request(&args("daily")).unwrap();
    assert_eq!(req.target_user_id, 42);
    assert_eq!(req.frequency, TaskFrequency::Daily);
    assert_eq!(req.cron_expr, "0 0 8 * * *");
    assert_eq!(req.content, "remind me");
    assert_eq!(req.created_by, TaskCreator::User);
    let e = build_request(&args("hourly")).unwrap_err();
    assert_eq!(e.0, "无效的任务频率: hourly");
    assert_eq!(e.message(), "Create scheduled task error: 无效的任务频率: hourly");
}

#[test]
fn tool_answers() {
    let r = created(17, TaskFrequency::Once);
    assert!(r.success);
    assert_eq!(r.task_id, 17);
    assert_eq!(r.message, "已创建定时任务，频率：Once");
    assert_eq!(created(1, TaskFrequency::Daily).message, "已创建定时任务，频率：Daily");
    let e = refused(&BotError::InvalidCron("x".to_string()));
    assert_eq!(e.0, "ParseSchedule");
    assert_eq!(CreateScheduledTaskError("x".to_string()).message(), "Create scheduled task error: x");
    assert_eq!(SendMessageError("x".to_string()).message(), "Send message error: x");
    assert_eq!(WebSearchError("x".to_string()).message(), "Web search error: x");
    assert_eq!(TimeError.message(), "Time error");
}

#[test]
fn messages_are_sent_until_one_fails() {
    assert!(matches!(send_step(3, 0, Ok(())), SendStep::Send(0)));
    assert!(matches!(send_step(3, 2, Ok(())), SendStep::Send(2)));
    match send_step(3, 3, Ok(())) {
        SendStep::Done(r) => {
            assert!(r.success);
            assert_eq!(r.sent_count, 3);
        }
        other => panic!("unexpected: {:?}", other),
    }
    match send_step(0, 0, Ok(())) {
        SendStep::Done(r) => assert_eq!(r.sent_count, 0),
        other => panic!("unexpected: {:?}", other),
    }
    match send_step(3, 1, Err("offline".to_string())) {
        SendStep::Failed(e) => assert_eq!(e.0, "发送第2条消息失败: offline"),
        other => panic!("unexpected: {:?}", other),
    }
}

#[test]
fn clock_is_read() {
    let r = GetCurrentTime.call(GetCurrentTimeArgs {}).unwrap();
    assert_eq!(r.current_time.len(), 19);
    assert!(r.timestamp > 1_600_000_000);
    let parsed =
        chrono::NaiveDateTime::parse_from_str(&r.current_time, "%Y-%m-%d %H:%M:%S").unwrap();
    assert_eq!(parsed.format("%Y-%m-%d %H:%M:%S").to_string(), r.current_time);
}

#[test]
fn reading_of_the_clock_is_handed_on() {
    let r = time_result("2024-05-01 08:30:00".to_string(), 1714552200);
    assert_eq!(r.current_time, "2024-05-01 08:30:00");
    assert_eq!(r.timestamp, 1714552200);
    let before = chrono::Local::now().timestamp();
    let read = GetCurrentTime.call(GetCurrentTimeArgs {}).unwrap();
    let after = chrono::Local::now().timestamp();
    assert!(before <= read.timestamp && read.timestamp <= after);
}
