use stoat::commands::{Command, Commands};
use stoat::help::{command_help, global_help, group_help, help_target, no_command_found, DefaultHelpCommand, HelpTarget};
use stoat::words::Words;

fn registry() -> Commands {
    let mut commands = Commands::new();
    commands.register(Command::new("ping".to_string(), 1).description("Replies\nwith pong".to_string()).alias("p".to_string()));
    let group = Command::new("admin".to_string(), 2)
        .child(Command::new("ban".to_string(), 3).signature("<user>".to_string()).description("Bans a user".to_string()))
        .child(Command::new("kick".to_string(), 4));
    commands.register(group);
    commands
}

#[test]
fn register_then_find_by_name_and_alias() {
    let commands = registry();
    assert_eq!(commands.get_command("ping").unwrap().handle(), 1);
    assert_eq!(commands.get_command("p").unwrap().handle(), 1);
    assert_eq!(commands.get_command("admin").unwrap().handle(), 2);
    assert!(commands.get_command("ban").is_none());
    assert!(commands.get_command("pong").is_none());
}

#[test]
fn later_registration_takes_over_a_name() {
    let mut commands = registry();
    commands.register(Command::new("other".to_string(), 9).alias("p".to_string()));
    assert_eq!(commands.get_command("p").unwrap().handle(), 9);
    assert_eq!(commands.get_command("ping").unwrap().handle(), 1);
}

#[test]
fn children_know_their_parents() {
    let commands = registry();
    let admin = commands.get_command("admin").unwrap();
    assert!(admin.has_child_commands());
    let ban = admin.get_command("ban").unwrap();
    assert_eq!(ban.parents(), &vec!["admin".to_string()]);
    let parents = commands.get_command_parents(ban);
    assert_eq!(parents.len(), 1);
    assert_eq!(parents[0].name(), "admin");
    let names: Vec<&String> = admin.children().iter().map(|c| c.name()).collect();
    assert_eq!(names, vec!["ban", "kick"]);
}

#[test]
fn find_command_descends_into_children() {
    let commands = registry();
    let mut words = Words::new("admin ban someone");
    let found = commands.find_command_from_words(None, &mut words).unwrap();
    assert_eq!(found.handle(), 3);
    assert_eq!(words.current(), Some("someone".to_string()));
}

#[test]
fn find_command_stops_at_the_group() {
    let commands = registry();
    let mut words = Words::new("admin unknown");
    let found = commands.find_command_from_words(None, &mut words).unwrap();
    assert_eq!(found.handle(), 2);
    assert_eq!(words.current(), Some("admin".to_string()));
    let mut none = Words::new("nothing here");
    assert!(commands.find_command_from_words(None, &mut none).is_none());
    assert_eq!(none.current_position(), 0);
}

#[test]
fn command_from_slice() {
    let commands = registry();
    let words = vec!["admin".to_string(), "kick".to_string()];
    assert_eq!(commands.get_command_from_slice(&words).unwrap().handle(), 4);
    let words = vec!["ping".to_string(), "extra".to_string()];
    assert_eq!(commands.get_command_from_slice(&words).unwrap().handle(), 1);
}

#[test]
fn route_message_with_first_matching_prefix() {
    let commands = registry();
    let prefixes = vec!["!".to_string(), "!!".to_string()];
    let inv = commands.route_message(&prefixes, "!ping now").unwrap();
    assert_eq!(inv.prefix, "!");
    assert_eq!(inv.command.unwrap().handle(), 1);
    assert_eq!(inv.words.current(), Some("now".to_string()));
    let inv = commands.route_message(&prefixes, "!!ping").unwrap();
    assert_eq!(inv.prefix, "!");
    assert!(inv.command.is_none());
    assert!(commands.route_message(&prefixes, "ping").is_none());
}

#[test]
fn global_help_lists_commands() {
    let commands = registry();
    let all = commands.get_commands();
    let text = global_help(&all);
    assert_eq!(text, "```\nping - Replies\nadmin - No description\n```");
    assert_eq!(DefaultHelpCommand.create_global_help(&all), text);
}

#[test]
fn command_help_shows_usage_and_aliases() {
    let commands = registry();
    let ping = commands.get_command("ping").unwrap();
    assert_eq!(
        command_help("!", ping),
        "```\nping:\n    Usage: !ping \n    Aliases: p\n\nReplies\nwith pong\n```"
    );
    let ban = commands.get_command("admin").unwrap().get_command("ban").unwrap();
    assert_eq!(command_help("?", ban), "```\nban:\n    Usage: ?admin ban <user>\n\nBans a user\n```");
}

#[test]
fn group_help_lists_children() {
    let commands = registry();
    let admin = commands.get_command("admin").unwrap();
    let children = admin.children();
    assert_eq!(
        group_help("!", admin, &children),
        "```\nadmin:\n    Usage: !admin \nCommands:\n    ban - Bans a user\n    kick - No description\n```"
    );
}

#[test]
fn help_target_decides() {
    let commands = registry();
    assert!(matches!(help_target(&commands, &vec![]), HelpTarget::Global));
    assert!(matches!(help_target(&commands, &vec!["ping".to_string()]), HelpTarget::Command(c) if c.handle() == 1));
    assert!(matches!(help_target(&commands, &vec!["admin".to_string()]), HelpTarget::Group(c) if c.handle() == 2));
    assert!(matches!(help_target(&commands, &vec!["no".to_string(), "such".to_string()]), HelpTarget::NotFound(s) if s == "no such"));
    assert_eq!(no_command_found("x"), "Command `x` not found.");
}

#[test]
fn nested_command_listed_once_under_its_name() {
    let group = Command::new("g".to_string(), 1)
        .child(Command::new("a".to_string(), 2).alias("x".to_string()).alias("y".to_string()))
        .child(Command::new("b".to_string(), 3))
        .child(Command::new("a".to_string(), 4));
    let children = group.children();
    let names: Vec<&String> = children.iter().map(|c| c.name()).collect();
    assert_eq!(names.iter().filter(|n| n.as_str() == "a").count(), 1);
    assert_eq!(children.len(), 2);
    assert_eq!(group.get_command("a").unwrap().handle(), 4);
    assert_eq!(group.get_command("x").unwrap().handle(), 2);
}
