use millkrs::bot::friend_command::{
    cmd_all, cmd_unknown, failure_reply, is_command, process_command, success_reply, Command,
    CommandPlan,
};
use millkrs::db::model::UserRelation;
use millkrs::error::BotError;

#[test]
fn commands_are_read() {
    assert_eq!(Command::parse("/create_master"), Command::CreateMaster);
    assert_eq!(Command::parse("/create_master now"), Command::CreateMaster);
    assert_eq!(
        Command::parse("/create_custom_prompt be kind to me"),
        Command::CreateCustomPrompt("be kind to me".to_string())
    );
    assert_eq!(
        Command::parse("/create_custom_prompt"),
        Command::Unknown("/create_custom_prompt".to_string())
    );
    assert_eq!(
        Command::parse("/create_custom_prompt "),
        Command::CreateCustomPrompt(String::new())
    );
    assert_eq!(
        Command::parse("/update_user 12 friend"),
        Command::UpdateUser(12, "friend".to_string())
    );
    assert_eq!(
        Command::parse("/update_user -3 a b"),
        Command::UpdateUser(-3, "a b".to_string())
    );
    assert_eq!(Command::parse("/update_user 12"), Command::Unknown("/update_user".to_string()));
    assert_eq!(Command::parse("/update_user"), Command::Unknown("/update_user".to_string()));
    assert_eq!(
        Command::parse("/update_user x friend"),
        Command::Unknown("/update_user".to_string())
    );
    assert_eq!(
        Command::parse("/update_user  12 friend"),
        Command::Unknown("/update_user".to_string())
    );
    assert_eq!(Command::parse("/all"), Command::All);
    assert_eq!(Command::parse("/all of it"), Command::All);
    assert_eq!(Command::parse("/allx"), Command::Unknown("/allx".to_string()));
    assert_eq!(Command::parse("hello there"), Command::Unknown("hello".to_string()));
    assert_eq!(Command::parse(""), Command::Unknown(String::new()));
}

#[test]
fn commands_become_plans() {
    match process_command(5, "/create_master").unwrap() {
        CommandPlan::CreateMaster(req) => {
            assert_eq!(req.id, 5);
            assert_eq!(req.name, "");
        }
        other => panic!("unexpected: {:?}", other),
    }
    match process_command(5, "/create_custom_prompt be kind").unwrap() {
        CommandPlan::CreateCustomPrompt(req) => {
            assert_eq!(req.id, 5);
            assert_eq!(req.custom_prompt, "be kind");
        }
        other => panic!("unexpected: {:?}", other),
    }
    match process_command(5, "/update_user 9 stranger").unwrap() {
        CommandPlan::UpdateUser(req) => {
            assert_eq!(req.operator_id, 5);
            assert_eq!(req.user_id, 9);
            assert_eq!(req.relation, UserRelation::Stranger);
        }
        other => panic!("unexpected: {:?}", other),
    }
    match process_command(5, "/update_user 9 enemy") {
        Err(BotError::InvalidRelation(s)) => assert_eq!(s, "enemy"),
        other => panic!("unexpected: {:?}", other),
    }
    match process_command(5, "/all").unwrap() {
        CommandPlan::Reply(text) => assert_eq!(text, cmd_all()),
        other => panic!("unexpected: {:?}", other),
    }
    match process_command(5, "/dance").unwrap() {
        CommandPlan::Reply(text) => assert_eq!(text, "未知命令: /dance，使用 /all 查看所有命令"),
        other => panic!("unexpected: {:?}", other),
    }
    match process_command(5, "/update_user 9").unwrap() {
        CommandPlan::Reply(text) => assert_eq!(text, "用法: /update_user [user_id] [relation]"),
        other => panic!("unexpected: {:?}", other),
    }
}

#[test]
fn replies_are_exact() {
    assert_eq!(
        cmd_all(),
        [
            "可用命令列表:",
            "1. /create_master - 创建 master 用户（仅限首次）",
            "2. /create_custom_prompt [prompt] - 设置自定义提示词",
            "3. /update_user [user_id] [relation] - 修改用户关系（仅 master）",
            "4. /all - 查看所有命令",
        ]
        .join("\n")
    );
    assert_eq!(cmd_unknown("/create_custom_prompt"), "用法: /create_custom_prompt [prompt]");
    assert_eq!(cmd_unknown("/create_custom_prompts"), "用法: /create_custom_prompt [prompt]");
    assert_eq!(cmd_unknown("/update_user"), "用法: /update_user [user_id] [relation]");
    assert_eq!(cmd_unknown("/x"), "未知命令: /x，使用 /all 查看所有命令");
    assert_eq!(failure_reply("boom"), "命令执行失败: boom");
    assert_eq!(
        success_reply(&process_command(5, "/create_master").unwrap()),
        "成功创建 master 用户"
    );
    assert_eq!(
        success_reply(&process_command(5, "/create_custom_prompt p").unwrap()),
        "自定义提示词设置成功"
    );
    assert_eq!(
        success_reply(&process_command(5, "/update_user 9 friend").unwrap()),
        "成功更新用户 9 的关系为 friend"
    );
}

#[test]
fn a_command_begins_with_a_slash() {
    assert!(is_command("/all"));
    assert!(is_command("/"));
    assert!(!is_command(""));
    assert!(!is_command("hello /all"));
    assert!(!is_command(" /all"));
}
