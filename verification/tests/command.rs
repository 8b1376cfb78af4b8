use mofa_apps::dora_integration::command::COMMAND_QUEUE_CAPACITY;
use mofa_apps::dora_integration::event::EVENT_QUEUE_CAPACITY;
use mofa_apps::dora_integration::{DoraCommand, DoraEvent};
use std::path::PathBuf;

#[test]
fn queue_capacities() {
    assert_eq!(COMMAND_QUEUE_CAPACITY, 100);
    assert_eq!(EVENT_QUEUE_CAPACITY, 100);
}

#[test]
fn start_builder_sets_no_environment() {
    match DoraCommand::start(PathBuf::from("apps/mofa-tts/dataflow/tts.yml")) {
        DoraCommand::StartDataflow { dataflow_path, env_vars } => {
            assert_eq!(dataflow_path, PathBuf::from("apps/mofa-tts/dataflow/tts.yml"));
            assert!(env_vars.is_empty());
        }
        other => panic!("expected a start command, got {:?}", other),
    }
}

#[test]
fn prompt_builder_carries_the_message() {
    match DoraCommand::prompt("VOICE:zm_yunjian|hello".to_string()) {
        DoraCommand::SendPrompt { message } => assert_eq!(message, "VOICE:zm_yunjian|hello"),
        other => panic!("expected a prompt command, got {:?}", other),
    }
}

#[test]
fn commands_and_events_can_be_cloned() {
    let cmd = DoraCommand::prompt("hi".to_string());
    assert!(matches!(cmd.clone(), DoraCommand::SendPrompt { message } if message == "hi"));
    let event = DoraEvent::Error { message: "boom".to_string() };
    assert!(matches!(event.clone(), DoraEvent::Error { message } if message == "boom"));
}

#[test]
fn cloned_start_command_keeps_path_and_environment() {
    let mut env = std::collections::HashMap::new();
    env.insert("LOG_LEVEL".to_string(), "INFO".to_string());
    let cmd = DoraCommand::StartDataflow { dataflow_path: PathBuf::from("flows/tts.yml"), env_vars: env.clone() };
    match cmd.clone() {
        DoraCommand::StartDataflow { dataflow_path, env_vars } => {
            assert_eq!(dataflow_path, PathBuf::from("flows/tts.yml"));
            assert_eq!(env_vars, env);
        }
        other => panic!("expected a start command, got {:?}", other),
    }
}
