//! Slash commands that a friend can send: how a message is read as a
//! command, what the command asks of the user directory, and what is said
//! in reply.

use crate::db::model::relation_named;
use crate::db::model::CreateCustomPromptRequest;
use crate::db::model::CreateMasterRequest;
use crate::db::model::UpdateUserRequest;
use crate::db::model::UserRelation;
use crate::error::BotError;
use crate::text::after_space;
use crate::text::before_space;
use crate::text::parse_i64;
use crate::text::parsed_i64;
use crate::text::signed_decimal;
use crate::text::signed_decimal_string;
use crate::text::split_at_space;
use crate::text::starts_with;
use crate::text::str_eq;
use vstd::prelude::*;
use vstd::string::*;

verus! {

/// A command, as read from a message.
#[derive(Debug, Clone, PartialEq)]
pub enum Command {
    CreateMaster,
    CreateCustomPrompt(String),
    UpdateUser(i64, String),
    All,
    /// A word that is no command, or a command without what it needs.
    Unknown(String),
}

/// A [`Command`] as mathematical values.
pub enum CommandView {
    CreateMaster,
    CreateCustomPrompt(Seq<char>),
    UpdateUser(i64, Seq<char>),
    All,
    Unknown(Seq<char>),
}

impl View for Command {
    type V = CommandView;

    open spec fn view(&self) -> CommandView {
        match *self {
            Command::CreateMaster => CommandView::CreateMaster,
            Command::CreateCustomPrompt(prompt) => CommandView::CreateCustomPrompt(prompt@),
            Command::UpdateUser(id, relation) => CommandView::UpdateUser(id, relation@),
            Command::All => CommandView::All,
            Command::Unknown(word) => CommandView::Unknown(word@),
        }
    }
}

/// The command that `input` writes. The first word names it; what follows
/// the first space is its argument. `/update_user` takes a user id, a space
/// and a relation.
pub open spec fn parsed_command(input: Seq<char>) -> CommandView {
    let word = before_space(input);
    let args = after_space(input);
    if word == "/create_master"@ {
        CommandView::CreateMaster
    } else if word == "/create_custom_prompt"@ {
        match args {
            Some(prompt) => CommandView::CreateCustomPrompt(prompt),
            None => CommandView::Unknown(word),
        }
    } else if word == "/update_user"@ {
        match args {
            Some(rest) => match (parsed_i64(before_space(rest)), after_space(rest)) {
                (Some(id), Some(relation)) => CommandView::UpdateUser(id, relation),
                _ => CommandView::Unknown(word),
            },
            None => CommandView::Unknown(word),
        }
    } else if word == "/all"@ {
        CommandView::All
    } else {
        CommandView::Unknown(word)
    }
}

impl Command {
    /// Reads `input` as a command.
    pub fn parse(input: &str) -> (cmd: Command)
        ensures
            cmd@ == parsed_command(input@),
    {
        let (word, args) = split_at_space(input);
        if str_eq(word, "/create_master") {
            Command::CreateMaster
        } else if str_eq(word, "/create_custom_prompt") {
            match args {
                Some(prompt) => Command::CreateCustomPrompt(prompt.to_owned()),
                None => Command::Unknown(word.to_owned()),
            }
        } else if str_eq(word, "/update_user") {
            match args {
                Some(rest) => {
                    let (id_text, relation) = split_at_space(rest);
                    match relation {
                        Some(relation) => match parse_i64(id_text) {
                            Some(id) => Command::UpdateUser(id, relation.to_owned()),
                            None => Command::Unknown(word.to_owned()),
                        },
                        None => Command::Unknown(word.to_owned()),
                    }
                },
                None => Command::Unknown(word.to_owned()),
            }
        } else if str_eq(word, "/all") {
            Command::All
        } else {
            Command::Unknown(word.to_owned())
        }
    }
}

/// What a command asks for: a change in the user directory, to be answered
/// with [`success_reply`] once it is made, or a reply alone.
#[derive(Debug, Clone)]
pub enum CommandPlan {
    CreateMaster(CreateMasterRequest),
    CreateCustomPrompt(CreateCustomPromptRequest),
    UpdateUser(UpdateUserRequest),
    Reply(String),
}

/// A [`CommandPlan`] as mathematical values.
pub enum CommandPlanView {
    CreateMaster { id: i64, name: Seq<char> },
    CreateCustomPrompt { id: i64, custom_prompt: Seq<char> },
    UpdateUser { operator_id: i64, user_id: i64, relation: UserRelation },
    Reply(Seq<char>),
}

impl View for CommandPlan {
    type V = CommandPlanView;

    open spec fn view(&self) -> CommandPlanView {
        match *self {
            CommandPlan::CreateMaster(req) => CommandPlanView::CreateMaster {
                id: req.id,
                name: req.name@,
            },
            CommandPlan::CreateCustomPrompt(req) => CommandPlanView::CreateCustomPrompt {
                id: req.id,
                custom_prompt: req.custom_prompt@,
            },
            CommandPlan::UpdateUser(req) => CommandPlanView::UpdateUser {
                operator_id: req.operator_id,
                user_id: req.user_id,
                relation: req.relation,
            },
            CommandPlan::Reply(text) => CommandPlanView::Reply(text@),
        }
    }
}

/// The list of commands, as `/all` shows it.
pub open spec fn help_text() -> Seq<char> {
    "可用命令列表:"@ + "\n"@ + "1. /create_master - 创建 master 用户（仅限首次）"@ + "\n"@
        + "2. /create_custom_prompt [prompt] - 设置自定义提示词"@ + "\n"@
        + "3. /update_user [user_id] [relation] - 修改用户关系（仅 master）"@ + "\n"@
        + "4. /all - 查看所有命令"@
}

/// What is said to a word that is no command: how to use the command it
/// begins with, or that it is unknown.
pub open spec fn unknown_reply(word: Seq<char>) -> Seq<char> {
    if "/create_custom_prompt"@.is_prefix_of(word) {
        "用法: /create_custom_prompt [prompt]"@
    } else if "/update_user"@.is_prefix_of(word) {
        "用法: /update_user [user_id] [relation]"@
    } else {
        "未知命令: "@ + word + "，使用 /all 查看所有命令"@
    }
}

/// What `cmd`, sent by `user_id`, asks for; `None` where it names a
/// relation that does not exist.
pub open spec fn planned(user_id: i64, cmd: CommandView) -> Option<CommandPlanView> {
    match cmd {
        CommandView::CreateMaster => Some(
            CommandPlanView::CreateMaster { id: user_id, name: Seq::empty() },
        ),
        CommandView::CreateCustomPrompt(prompt) => Some(
            CommandPlanView::CreateCustomPrompt { id: user_id, custom_prompt: prompt },
        ),
        CommandView::UpdateUser(target, relation) => match relation_named(relation) {
            Some(rel) => Some(
                CommandPlanView::UpdateUser {
                    operator_id: user_id,
                    user_id: target,
                    relation: rel,
                },
            ),
            None => None,
        },
        CommandView::All => Some(CommandPlanView::Reply(help_text())),
        CommandView::Unknown(word) => Some(CommandPlanView::Reply(unknown_reply(word))),
    }
}

/// The relation text of `cmd`, where it is `/update_user`.
pub open spec fn relation_text(cmd: CommandView) -> Seq<char> {
    match cmd {
        CommandView::UpdateUser(_, relation) => relation,
        _ => Seq::empty(),
    }
}

/// Writes the list of commands.
pub fn cmd_all() -> (text: String)
    ensures
        text@ == help_text(),
{
    let mut text = String::from_str("可用命令列表:");
    text.append("\n");
    text.append("1. /create_master - 创建 master 用户（仅限首次）");
    text.append("\n");
    text.append("2. /create_custom_prompt [prompt] - 设置自定义提示词");
    text.append("\n");
    text.append("3. /update_user [user_id] [relation] - 修改用户关系（仅 master）");
    text.append("\n");
    text.append("4. /all - 查看所有命令");
    text
}

/// Writes the reply to a word that is no command.
pub fn cmd_unknown(word: &str) -> (text: String)
    ensures
        text@ == unknown_reply(word@),
{
    if starts_with(word, "/create_custom_prompt") {
        String::from_str("用法: /create_custom_prompt [prompt]")
    } else if starts_with(word, "/update_user") {
        String::from_str("用法: /update_user [user_id] [relation]")
    } else {
        let mut text = String::from_str("未知命令: ");
        text.append(word);
        text.append("，使用 /all 查看所有命令");
        text
    }
}

/// Reads the message `command` of `user_id` and says what it asks for.
/// Fails where `/update_user` names a relation that does not exist.
pub fn process_command(user_id: i64, command: &str) -> (r: Result<CommandPlan, BotError>)
    ensures
        match planned(user_id, parsed_command(command@)) {
            Some(plan) => r matches Ok(p) && p@ == plan,
            None => r matches Err(BotError::InvalidRelation(t)) && t@ == relation_text(
                parsed_command(command@),
            ),
        },
{
    match Command::parse(command) {
        Command::CreateMaster => Ok(
            CommandPlan::CreateMaster(CreateMasterRequest { id: user_id, name: String::new() }),
        ),
        Command::CreateCustomPrompt(prompt) => Ok(
            CommandPlan::CreateCustomPrompt(
                CreateCustomPromptRequest { id: user_id, custom_prompt: prompt },
            ),
        ),
        Command::UpdateUser(target, relation) => match UserRelation::from_str(relation.as_str()) {
            Ok(rel) => Ok(
                CommandPlan::UpdateUser(
                    UpdateUserRequest { operator_id: user_id, user_id: target, relation: rel },
                ),
            ),
            Err(e) => Err(e),
        },
        Command::All => Ok(CommandPlan::Reply(cmd_all())),
        Command::Unknown(word) => Ok(CommandPlan::Reply(cmd_unknown(word.as_str()))),
    }
}

/// What is said once the change that `plan` asks for is made.
pub open spec fn success_text(plan: CommandPlanView) -> Seq<char> {
    match plan {
        CommandPlanView::CreateMaster { .. } => "成功创建 master 用户"@,
        CommandPlanView::CreateCustomPrompt { .. } => "自定义提示词设置成功"@,
        CommandPlanView::UpdateUser { user_id, relation, .. } => "成功更新用户 "@ + signed_decimal(
            user_id as int,
        ) + " 的关系为 "@ + relation.name(),
        CommandPlanView::Reply(text) => text,
    }
}

/// Writes what is said once the change that `plan` asks for is made.
pub fn success_reply(plan: &CommandPlan) -> (text: String)
    ensures
        text@ == success_text(plan@),
{
    match plan {
        CommandPlan::CreateMaster(_) => String::from_str("成功创建 master 用户"),
        CommandPlan::CreateCustomPrompt(_) => String::from_str("自定义提示词设置成功"),
        CommandPlan::UpdateUser(req) => {
            let mut text = String::from_str("成功更新用户 ");
            let id = signed_decimal_string(req.user_id);
            text.append(id.as_str());
            text.append(" 的关系为 ");
            text.append(req.relation.as_str());
            text
        },
        CommandPlan::Reply(reply) => reply.clone(),
    }
}

/// What is said when a command failed for the reason `reason`.
pub open spec fn failure_text(reason: Seq<char>) -> Seq<char> {
    "命令执行失败: "@ + reason
}

/// Writes what is said when a command failed for the reason `reason`.
pub fn failure_reply(reason: &str) -> (text: String)
    ensures
        text@ == failure_text(reason@),
{
    let mut text = String::from_str("命令执行失败: ");
    text.append(reason);
    text
}

/// Whether a message is a command: it begins with a slash.
pub fn is_command(message: &str) -> (b: bool)
    ensures
        b == (message@.len() > 0 && message@[0] == '/'),
{
    proof {
        reveal_strlit("/");
    }
    let b = starts_with(message, "/");
    assert(b ==> message@[0] == "/"@[0]);
    b
}

} // verus!
