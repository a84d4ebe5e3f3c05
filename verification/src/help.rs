use vstd::prelude::*;

use crate::commands::{Command, Commands, derefs, derefs_opt, opt_view};
use crate::error::Error;
use crate::text::{concat2, concat3, first_line, first_line_of, join, join_strings, views};

verus! {

/// The one-line summary of a command: the first line of its description.
pub open spec fn summary(c: Command) -> Seq<char> {
    match c.description_view() {
        Some(d) => first_line(d),
        None => "No description"@,
    }
}

/// A help line naming a command and summing it up.
pub open spec fn entry_line(indent: Seq<char>, c: Command) -> Seq<char> {
    indent + c.name_view() + " - "@ + summary(c)
}

/// The lines of the help that lists commands.
pub open spec fn global_help_lines(cs: Seq<Command>) -> Seq<Seq<char>> {
    seq!["```"@] + cs.map_values(|c: Command| entry_line(Seq::empty(), c)) + seq!["```"@]
}

/// The usage line of a command's help.
pub open spec fn usage_line(prefix: Seq<char>, c: Command) -> Seq<char> {
    let sig = match c.signature_view() {
        Some(s) => s,
        None => Seq::<char>::empty(),
    };
    "    Usage: "@ + prefix + join(c.parents_view().push(c.name_view()).push(sig), " "@)
}

/// The lines that head a command's help: its name, usage and aliases.
pub open spec fn head_lines(prefix: Seq<char>, c: Command) -> Seq<Seq<char>> {
    let base = seq!["```"@, c.name_view() + ":"@, usage_line(prefix, c)];
    if c.aliases_view().len() > 0 {
        base.push("    Aliases: "@ + join(c.aliases_view(), ", "@))
    } else {
        base
    }
}

/// The lines of a command's help.
pub open spec fn command_help_lines(prefix: Seq<char>, c: Command) -> Seq<Seq<char>> {
    let h = head_lines(prefix, c);
    let d = match c.description_view() {
        Some(d) => h.push(Seq::empty()).push(d),
        None => h,
    };
    d.push("```"@)
}

/// The lines of the help of a command that has commands nested under it.
pub open spec fn group_help_lines(prefix: Seq<char>, c: Command, children: Seq<Command>) -> Seq<Seq<char>> {
    let h = head_lines(prefix, c);
    let d = match c.description_view() {
        Some(d) => h.push(Seq::empty()).push(d).push(Seq::empty()),
        None => h,
    };
    let t = if children.len() > 0 { d.push("Commands:"@) } else { d };
    (t + children.map_values(|x: Command| entry_line("    "@, x))).push("```"@)
}

fn push_line(lines: &mut Vec<String>, line: String)
    ensures
        views(final(lines)@) == views(old(lines)@).push(line@),
{
    let ghost before = lines@;
    lines.push(line);
    assert(views(lines@) =~= views(before).push(line@)) by {
        assert(lines@ =~= before.push(line));
    }
}

fn entry(indent: &str, c: &Command) -> (r: String)
    ensures
        r@ == entry_line(indent@, *c),
{
    let summary = match c.get_description() {
        Some(d) => first_line_of(d.as_str()),
        None => String::from_str("No description"),
    };
    let mut s = concat3(indent, c.name().as_str(), " - ");
    s.append(summary.as_str());
    s
}

fn push_entries(lines: &mut Vec<String>, indent: &str, cs: &Vec<&Command>)
    ensures
        views(final(lines)@) == views(old(lines)@) + derefs(cs@).map_values(|c: Command| entry_line(indent@, c)),
{
    let ghost start = views(lines@);
    let ghost all = derefs(cs@).map_values(|c: Command| entry_line(indent@, c));
    let mut i: usize = 0;
    assert(all.take(0) =~= Seq::<Seq<char>>::empty());
    assert(start + all.take(0) =~= start);
    while i < cs.len()
        invariant
            i <= cs@.len(),
            all == derefs(cs@).map_values(|c: Command| entry_line(indent@, c)),
            views(lines@) == start + all.take(i as int),
        decreases cs@.len() - i,
    {
        let line = entry(indent, cs[i]);
        push_line(lines, line);
        assert(start + all.take(i + 1) =~= (start + all.take(i as int)).push(line@));
        i = i + 1;
    }
    assert(all.take(cs@.len() as int) =~= all);
}

/// The help that lists `commands`, one line each.
pub fn global_help(commands: &Vec<&Command>) -> (r: String)
    ensures
        r@ == join(global_help_lines(derefs(commands@)), "\n"@),
{
    let mut lines: Vec<String> = Vec::new();
    push_line(&mut lines, String::from_str("```"));
    push_entries(&mut lines, "", commands);
    push_line(&mut lines, String::from_str("```"));
    proof {
        reveal_strlit("");
    }
    assert(views(lines@) =~= global_help_lines(derefs(commands@)));
    join_strings(&lines, "\n")
}

fn head(lines: &mut Vec<String>, prefix: &str, command: &Command)
    requires
        old(lines)@.len() == 0,
    ensures
        views(final(lines)@) == head_lines(prefix@, *command),
{
    push_line(lines, String::from_str("```"));
    push_line(lines, concat2(command.name().as_str(), ":"));
    let parents = command.parents();
    let mut usage = parents.clone();
    proof {
        let p = parents@;
        assert forall|i: int| 0 <= i < usage@.len() implies usage@[i] == p[i] by {
            assert(vstd::pervasive::cloned(p[i], usage@[i]));
        }
        assert(views(usage@) =~= command.parents_view());
    }
    push_line(&mut usage, command.name().clone());
    let sig = match command.get_signature() {
        Some(s) => s.clone(),
        None => String::new(),
    };
    push_line(&mut usage, sig);
    let joined = join_strings(&usage, " ");
    let mut line = String::from_str("    Usage: ");
    line.append(prefix);
    line.append(joined.as_str());
    push_line(lines, line);
    if command.aliases().len() > 0 {
        let a = join_strings(command.aliases(), ", ");
        push_line(lines, concat2("    Aliases: ", a.as_str()));
    }
    assert(views(lines@) =~= head_lines(prefix@, *command));
}

/// The help of a command: its name, usage, aliases and description.
pub fn command_help(prefix: &str, command: &Command) -> (r: String)
    ensures
        r@ == join(command_help_lines(prefix@, *command), "\n"@),
{
    let mut lines: Vec<String> = Vec::new();
    head(&mut lines, prefix, command);
    match command.get_description() {
        Some(d) => {
            push_line(&mut lines, String::new());
            push_line(&mut lines, d.clone());
        },
        None => {},
    }
    push_line(&mut lines, String::from_str("```"));
    assert(views(lines@) =~= command_help_lines(prefix@, *command));
    join_strings(&lines, "\n")
}

/// The help of a command with commands nested under it: its own help, then a
/// line for each of `children`.
pub fn group_help(prefix: &str, command: &Command, children: &Vec<&Command>) -> (r: String)
    ensures
        r@ == join(group_help_lines(prefix@, *command, derefs(children@)), "\n"@),
{
    let mut lines: Vec<String> = Vec::new();
    head(&mut lines, prefix, command);
    match command.get_description() {
        Some(d) => {
            push_line(&mut lines, String::new());
            push_line(&mut lines, d.clone());
            push_line(&mut lines, String::new());
        },
        None => {},
    }
    if children.len() > 0 {
        push_line(&mut lines, String::from_str("Commands:"));
    }
    push_entries(&mut lines, "    ", children);
    push_line(&mut lines, String::from_str("```"));
    assert(views(lines@) =~= group_help_lines(prefix@, *command, derefs(children@)));
    join_strings(&lines, "\n")
}

/// The help that the library gives when no other is set up.
#[derive(Debug, Clone, Copy)]
pub struct DefaultHelpCommand;

impl DefaultHelpCommand {
    /// The help that lists `commands`, one line each.
    pub fn create_global_help(&self, commands: &Vec<&Command>) -> (r: String)
        ensures
            r@ == join(global_help_lines(derefs(commands@)), "\n"@),
    {
        global_help(commands)
    }

    /// The help of a command, for the prefix `prefix`.
    pub fn create_command_help(&self, prefix: &str, command: &Command) -> (r: String)
        ensures
            r@ == join(command_help_lines(prefix@, *command), "\n"@),
    {
        command_help(prefix, command)
    }

    /// The help of a command with the commands `children` nested under it.
    pub fn create_group_help(&self, prefix: &str, command: &Command, children: &Vec<&Command>) -> (r: String)
        ensures
            r@ == join(group_help_lines(prefix@, *command, derefs(children@)), "\n"@),
    {
        group_help(prefix, command, children)
    }

    /// The answer when the command `name` does not exist.
    pub fn no_command_found(&self, name: &str) -> (r: String)
        ensures
            r@ == "Command `"@ + name@ + "` not found."@,
    {
        no_command_found(name)
    }
}

/// The answer when help is asked for a command that does not exist.
pub fn no_command_found(name: &str) -> (r: String)
    ensures
        r@ == "Command `"@ + name@ + "` not found."@,
{
    concat3("Command `", name, "` not found.")
}

/// What a help request asks for.
pub enum HelpTarget<'a> {
    /// The list of every command.
    Global,
    /// The help of a command with nothing nested under it.
    Command(&'a Command),
    /// The help of a command with commands nested under it.
    Group(&'a Command),
    /// Nothing: the words name no command; they are joined here.
    NotFound(String),
}

/// Decides what help the words `args` ask for.
pub fn help_target<'a>(commands: &'a Commands, args: &Vec<String>) -> (r: HelpTarget<'a>)
    ensures
        args@.len() == 0 ==> r is Global,
        args@.len() > 0 ==> match commands.walk(None, views(args@), 0) {
            Some(c) => if c.has_children() {
                r matches HelpTarget::Group(g) && *g == c
            } else {
                r matches HelpTarget::Command(g) && *g == c
            },
            None => r matches HelpTarget::NotFound(s) && s@ == join(views(args@), " "@),
        },
{
    if args.len() == 0 {
        return HelpTarget::Global;
    }
    match commands.get_command_from_slice(args.as_slice()) {
        Some(c) => {
            if c.has_child_commands() {
                HelpTarget::Group(c)
            } else {
                HelpTarget::Command(c)
            }
        },
        None => HelpTarget::NotFound(join_strings(args, " ")),
    }
}

/// The commands among `cs` that may be listed: those whose checks, run for the
/// person asking, answered yes (`outcomes` holds each command's answer).
pub open spec fn runnable(cs: Seq<Command>, outcomes: Seq<Result<bool, Error>>) -> Seq<Command>
    decreases cs.len(),
{
    if cs.len() == 0 {
        Seq::empty()
    } else {
        let rest = runnable(cs.drop_last(), outcomes.drop_last());
        if outcomes.last() == Ok::<bool, Error>(true) {
            rest.push(cs.last())
        } else {
            rest
        }
    }
}

/// Keeps the commands whose checks answered yes, in order; an error counts as no.
pub fn filter_commands<'a>(commands: &Vec<&'a Command>, outcomes: &Vec<Result<bool, Error>>) -> (r: Vec<&'a Command>)
    requires
        outcomes@.len() == commands@.len(),
    ensures
        derefs(r@) == runnable(derefs(commands@), outcomes@),
{
    let mut out: Vec<&'a Command> = Vec::new();
    let mut i: usize = 0;
    while i < commands.len()
        invariant
            i <= commands@.len(),
            outcomes@.len() == commands@.len(),
            derefs(out@) == runnable(derefs(commands@).take(i as int), outcomes@.take(i as int)),
        decreases commands@.len() - i,
    {
        let yes = match &outcomes[i] {
            Ok(b) => *b,
            Err(_) => false,
        };
        let ghost before = out@;
        if yes {
            out.push(commands[i]);
            assert(derefs(out@) =~= derefs(before).push(*commands@[i as int]));
        }
        assert(derefs(commands@).take(i + 1).drop_last() =~= derefs(commands@).take(i as int));
        assert(outcomes@.take(i + 1).drop_last() =~= outcomes@.take(i as int));
        i = i + 1;
    }
    assert(derefs(commands@).take(commands@.len() as int) =~= derefs(commands@));
    assert(outcomes@.take(outcomes@.len() as int) =~= outcomes@);
    out
}

} // verus!
