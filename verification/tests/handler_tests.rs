use stoat::commands::Command;
use stoat::handler::{after_error_hook, after_routing, after_stage, begin, CommandHandler, ProcessStep, Resume, Stage};

fn handler() -> CommandHandler {
    CommandHandler::new()
        .register(vec![
            Command::new("ping".to_string(), 1).alias("p".to_string()).check(7),
            Command::new("pong".to_string(), 2).alias("p".to_string()),
        ])
        .check(3)
        .check(4)
}

#[test]
fn register_in_order_later_takes_alias() {
    let h = handler();
    assert_eq!(h.commands.get_command("ping").unwrap().handle(), 1);
    assert_eq!(h.commands.get_command("p").unwrap().handle(), 2);
    assert_eq!(h.checks, vec![3, 4]);
}

#[test]
fn checks_of_handler_then_command() {
    let h = handler();
    let ping = h.commands.get_command("ping");
    assert_eq!(h.checks_to_run(ping), vec![3, 4, 7]);
    assert_eq!(h.checks_to_run(None), vec![3, 4]);
}

#[test]
fn begin_skips_empty_and_bots() {
    assert!(matches!(begin::<String>(None, false), ProcessStep::Done(Ok(()))));
    assert!(matches!(begin::<String>(Some("!ping"), true), ProcessStep::Done(Ok(()))));
    assert!(matches!(begin::<String>(Some("!ping"), false), ProcessStep::GetPrefix));
}

#[test]
fn routing_decides_hook() {
    let h = handler();
    let prefixes = vec!["!".to_string()];
    let none = h.commands.route_message(&prefixes, "hello");
    assert!(matches!(after_routing::<String>(&none), ProcessStep::Done(Ok(()))));
    let unknown = h.commands.route_message(&prefixes, "!nothing");
    assert!(matches!(after_routing::<String>(&unknown), ProcessStep::NoCommand));
    let known = h.commands.route_message(&prefixes, "!ping");
    assert!(matches!(after_routing::<String>(&known), ProcessStep::Command));
}

#[test]
fn stages_and_errors() {
    assert!(matches!(after_stage::<String>(Stage::Command, Ok(())), ProcessStep::CanRun));
    assert!(matches!(after_stage::<String>(Stage::CanRun, Ok(())), ProcessStep::Handle));
    assert!(matches!(after_stage::<String>(Stage::Handle, Ok(())), ProcessStep::AfterCommand));
    assert!(matches!(after_stage::<String>(Stage::AfterCommand, Ok(())), ProcessStep::Done(Ok(()))));
    assert!(matches!(after_stage::<String>(Stage::NoCommand, Ok(())), ProcessStep::Done(Ok(()))));
    match after_stage(Stage::Command, Err("bad".to_string())) {
        ProcessStep::Error { error, then } => {
            assert_eq!(error, "bad");
            assert_eq!(then, Resume::CanRun);
        },
        _ => panic!("expected the error hook"),
    }
    match after_stage(Stage::Handle, Err("h".to_string())) {
        ProcessStep::Error { then, .. } => assert_eq!(then, Resume::AfterCommand),
        _ => panic!("expected the error hook"),
    }
    match after_stage(Stage::CanRun, Err("c".to_string())) {
        ProcessStep::Error { then, .. } => assert_eq!(then, Resume::Finish),
        _ => panic!("expected the error hook"),
    }
    assert!(matches!(after_error_hook::<String>(Resume::CanRun, Ok(())), ProcessStep::CanRun));
    assert!(matches!(after_error_hook::<String>(Resume::AfterCommand, Ok(())), ProcessStep::AfterCommand));
    assert!(matches!(after_error_hook::<String>(Resume::Finish, Ok(())), ProcessStep::Done(Ok(()))));
    match after_error_hook(Resume::CanRun, Err("again".to_string())) {
        ProcessStep::Done(Err(e)) => assert_eq!(e, "again"),
        _ => panic!("expected the hook's error"),
    }
}
