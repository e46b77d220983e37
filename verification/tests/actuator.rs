use millkrs::agent::AgentTask;
use millkrs::db::model::{User, UserRelation};
use millkrs::db::scheduler_model::{ScheduledTask, TaskCreator, TaskFrequency};
use millkrs::scheduler::actuator::{Actuator, ActuatorAction, ActuatorEvent, ActuatorPhase};
use millkrs::scheduler::manager::SchedulerManager;

fn user(id: i64) -> User {
    User {
        id,
        name: "Ann".to_string(),
        relation: UserRelation::Friend,
        custom_prompt: None,
        created_at: "2024-05-01 08:00:00".to_string(),
        updated_at: "2024-05-01 08:00:00".to_string(),
    }
}

fn trigger(id: i64, content: &str) -> ActuatorEvent {
    ActuatorEvent::Trigger(AgentTask { target_user_id: id, content: content.to_string() })
}

#[test]
fn back_to_back_triggers_do_not_overlap() {
    let mut a = Actuator::new(8);
    assert_eq!(a.channel_capacity(), 8);
    match a.step(trigger(1, "first")) {
        ActuatorAction::Resolve { user_id } => assert_eq!(user_id, 1),
        other => panic!("unexpected action {:?}", other),
    }
    match a.step(ActuatorEvent::UserFound(user(1))) {
        ActuatorAction::Invoke { user, content } => {
            assert_eq!(user.id, 1);
            assert_eq!(content, "first");
        }
        other => panic!("unexpected action {:?}", other),
    }
    assert!(a.is_invoking());
    // The second trigger is not taken while the agent works.
    assert!(matches!(a.step(trigger(2, "second")), ActuatorAction::Ignored));
    assert!(a.is_invoking());
    assert!(matches!(a.step(ActuatorEvent::UserFound(user(2))), ActuatorAction::Ignored));
    assert!(matches!(a.step(ActuatorEvent::DealDone { failed: false }), ActuatorAction::Receive));
    assert!(!a.is_invoking());
    assert!(matches!(a.step(trigger(2, "second")), ActuatorAction::Resolve { user_id: 2 }));
}

#[test]
fn missing_user_drops_the_directive() {
    let mut a = Actuator::new(1);
    a.step(trigger(5, "x"));
    assert!(matches!(a.step(ActuatorEvent::UserMissing), ActuatorAction::Receive));
    assert_eq!(a.phase(), ActuatorPhase::Idle);
    a.step(trigger(6, "y"));
    assert!(matches!(a.step(ActuatorEvent::LookupFailed), ActuatorAction::Receive));
    assert_eq!(a.phase(), ActuatorPhase::Idle);
    // Nothing of the dropped directives is left.
    assert!(matches!(a.step(ActuatorEvent::UserFound(user(5))), ActuatorAction::Ignored));
}

#[test]
fn agent_failure_does_not_stop_the_loop() {
    let mut a = Actuator::new(1);
    a.step(trigger(5, "x"));
    a.step(ActuatorEvent::UserFound(user(5)));
    assert!(matches!(a.step(ActuatorEvent::DealDone { failed: true }), ActuatorAction::Receive));
    assert_eq!(a.phase(), ActuatorPhase::Idle);
    assert!(matches!(a.step(ActuatorEvent::Closed), ActuatorAction::Stop));
    assert_eq!(a.phase(), ActuatorPhase::Stopped);
    assert!(matches!(a.step(trigger(5, "x")), ActuatorAction::Ignored));
}

#[test]
fn once_task_for_user_42_reaches_the_agent_once() {
    let mut manager = SchedulerManager::new();
    manager.start(&Vec::new());
    let stored = ScheduledTask {
        id: 11,
        frequency: TaskFrequency::Once,
        cron_expr: "1 * * * * *".to_string(),
        target_user_id: 42,
        content: "say hello".to_string(),
        created_by: TaskCreator::User,
        enabled: true,
        last_run_at: None,
        next_run_at: None,
        created_at: "2024-05-01 08:00:00".to_string(),
        updated_at: "2024-05-01 08:00:00".to_string(),
    };
    manager.add_task(stored).unwrap();

    let mut actuator = Actuator::new(4);
    let mut observed = Vec::new();
    // The timer goes off twice; only the first firing yields a plan.
    for _ in 0..2 {
        if let Some(plan) = manager.fire(11) {
            // The plan asks to record the run and to disable the row.
            assert_eq!(plan.task_id, 11);
            assert!(plan.retire);
            match actuator.step(ActuatorEvent::Trigger(plan.agent_task)) {
                ActuatorAction::Resolve { user_id } => {
                    assert_eq!(user_id, 42);
                    match actuator.step(ActuatorEvent::UserFound(user(user_id))) {
                        ActuatorAction::Invoke { user, content } => observed.push((user.id, content)),
                        other => panic!("unexpected action {:?}", other),
                    }
                    actuator.step(ActuatorEvent::DealDone { failed: false });
                }
                other => panic!("unexpected action {:?}", other),
            }
        }
    }
    assert_eq!(observed, vec![(42, "say hello".to_string())]);
    assert!(!manager.is_scheduled(11));
}
