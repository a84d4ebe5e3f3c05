use vstd::prelude::*;

use crate::commands::{Command, Commands, Invocation};

verus! {

/// The command that `k` names after registering each of `cs`, in order, on a
/// registry in which `before` gave the command named by each key.
pub open spec fn named_after_all(before: Commands, cs: Seq<Command>, k: Seq<char>) -> Option<Command>
    decreases cs.len(),
{
    if cs.len() == 0 {
        before.command_named(k)
    } else {
        let c = cs.last();
        if k == c.name_view() || c.aliases_view().contains(k) {
            Some(c)
        } else {
            named_after_all(before, cs.drop_last(), k)
        }
    }
}

/// Reads messages as commands: the commands it knows, and the checks (by the
/// numbers the program gave them) that every command must pass first.
pub struct CommandHandler {
    pub commands: Commands,
    pub checks: Vec<usize>,
}

impl CommandHandler {
    /// A handler with no commands and no checks.
    pub fn new() -> (r: CommandHandler)
        ensures
            forall|k: Seq<char>| r.commands.command_named(k) is None,
            r.checks@.len() == 0,
    {
        CommandHandler { commands: Commands::new(), checks: Vec::new() }
    }

    /// Registers each of `commands` in turn, a later one taking over the names
    /// and aliases of an earlier one.
    pub fn register(self, commands: Vec<Command>) -> (r: CommandHandler)
        ensures
            forall|k: Seq<char>| #[trigger] r.commands.command_named(k) == named_after_all(self.commands, commands@, k),
            r.checks == self.checks,
    {
        let ghost all = commands@;
        let n = commands.len();
        let CommandHandler { commands: mut registry, checks } = self;
        let ghost start = registry;
        let mut rest = commands;
        let mut i: usize = 0;
        while rest.len() > 0
            invariant
                i <= all.len(),
                all.len() == n,
                rest@ == all.skip(i as int),
                forall|k: Seq<char>| #[trigger] registry.command_named(k) == named_after_all(start, all.take(i as int), k),
            decreases rest@.len(),
        {
            let c = rest.remove(0);
            registry.try_register(c);
            assert(all.take(i + 1).drop_last() =~= all.take(i as int));
            assert(all.take(i + 1).last() == c);
            assert(rest@ =~= all.skip(i + 1));
            i = i + 1;
        }
        assert(all.take(i as int) =~= all);
        CommandHandler { commands: registry, checks }
    }

    /// Adds the check numbered `check` after the handler's other checks.
    pub fn check(self, check: usize) -> (r: CommandHandler)
        ensures
            r.checks@ == self.checks@.push(check),
            r.commands == self.commands,
    {
        let CommandHandler { commands, mut checks } = self;
        checks.push(check);
        CommandHandler { commands, checks }
    }

    /// The checks to run before `command`, in order: the handler's own, then,
    /// where a command was found, the command's.
    pub fn checks_to_run(&self, command: Option<&Command>) -> (r: Vec<usize>)
        ensures
            r@ == match command {
                Some(c) => self.checks@ + c.checks_view(),
                None => self.checks@,
            },
    {
        let mut r: Vec<usize> = Vec::new();
        let mut i: usize = 0;
        while i < self.checks.len()
            invariant
                i <= self.checks@.len(),
                r@ == self.checks@.take(i as int),
            decreases self.checks@.len() - i,
        {
            r.push(self.checks[i]);
            assert(self.checks@.take(i + 1) =~= self.checks@.take(i as int).push(self.checks@[i as int]));
            i = i + 1;
        }
        assert(self.checks@.take(self.checks@.len() as int) =~= self.checks@);
        match command {
            Some(c) => {
                let more = c.checks();
                let ghost base = r@;
                let mut j: usize = 0;
                while j < more.len()
                    invariant
                        j <= more@.len(),
                        more@ == c.checks_view(),
                        r@ == base + more@.take(j as int),
                    decreases more@.len() - j,
                {
                    r.push(more[j]);
                    assert(base + more@.take(j + 1) =~= (base + more@.take(j as int)).push(more@[j as int]));
                    j = j + 1;
                }
                assert(more@.take(more@.len() as int) =~= more@);
                r
            },
            None => r,
        }
    }
}

/// Where processing goes on once the error hook has handled an error.
#[derive(Debug, Clone, Copy, PartialEq, Eq, Structural)]
pub enum Resume {
    /// To the command's checks.
    CanRun,
    /// To the after-command hook.
    AfterCommand,
    /// Nowhere: processing ends well.
    Finish,
}

/// What processing a message asks the program to do next.
#[derive(Debug)]
pub enum ProcessStep<E> {
    /// Ask the event handler for the prefixes.
    GetPrefix,
    /// Call the event handler's hook for a prefixed message that names no command.
    NoCommand,
    /// Call the event handler's hook for a message that names a command.
    Command,
    /// Run the checks of the handler and of the command.
    CanRun,
    /// Run the command.
    Handle,
    /// Call the event handler's hook for after a command ran.
    AfterCommand,
    /// Call the event handler's error hook with `error`; when that hook succeeds,
    /// go on as `then` says.
    Error { error: E, then: Resume },
    /// Processing is over, with this answer.
    Done(Result<(), E>),
}

/// The step a stage leads to when it went well.
#[derive(Debug, Clone, Copy, PartialEq, Eq, Structural)]
pub enum Stage {
    NoCommand,
    Command,
    CanRun,
    Handle,
    AfterCommand,
}

/// How processing a message starts: a message with no text, or from a bot, is
/// left alone; otherwise the prefixes are asked for.
pub fn begin<E>(content: Option<&str>, author_is_bot: bool) -> (r: ProcessStep<E>)
    ensures
        content is None ==> r matches ProcessStep::Done(Ok(())),
        content is Some && author_is_bot ==> r matches ProcessStep::Done(Ok(())),
        content is Some && !author_is_bot ==> r is GetPrefix,
{
    match content {
        None => ProcessStep::Done(Ok(())),
        Some(_) => {
            if author_is_bot {
                ProcessStep::Done(Ok(()))
            } else {
                ProcessStep::GetPrefix
            }
        },
    }
}

/// The step after the message was read against the prefixes: a message with
/// none of them is left alone; one that names no command goes to the
/// no-command hook, one that names a command to the command hook.
pub fn after_routing<E>(invocation: &Option<Invocation>) -> (r: ProcessStep<E>)
    ensures
        match invocation {
            None => r matches ProcessStep::Done(Ok(())),
            Some(inv) => match inv.command {
                None => r is NoCommand,
                Some(_) => r is Command,
            },
        },
{
    match invocation {
        None => ProcessStep::Done(Ok(())),
        Some(inv) => match inv.command {
            None => ProcessStep::NoCommand,
            Some(_) => ProcessStep::Command,
        },
    }
}

/// The step after `stage` answered `outcome`. An error goes to the error hook,
/// after which processing goes on to the checks when the command hook failed,
/// to the after-command hook when the command failed, and otherwise ends.
pub fn after_stage<E>(stage: Stage, outcome: Result<(), E>) -> (r: ProcessStep<E>)
    ensures
        match outcome {
            Ok(()) => match stage {
                Stage::NoCommand => r matches ProcessStep::Done(Ok(())),
                Stage::Command => r is CanRun,
                Stage::CanRun => r is Handle,
                Stage::Handle => r is AfterCommand,
                Stage::AfterCommand => r matches ProcessStep::Done(Ok(())),
            },
            Err(e) => r matches ProcessStep::Error { error, then } && error == e && then == (match stage {
                Stage::Command => Resume::CanRun,
                Stage::Handle => Resume::AfterCommand,
                _ => Resume::Finish,
            }),
        },
{
    match outcome {
        Ok(()) => match stage {
            Stage::NoCommand => ProcessStep::Done(Ok(())),
            Stage::Command => ProcessStep::CanRun,
            Stage::CanRun => ProcessStep::Handle,
            Stage::Handle => ProcessStep::AfterCommand,
            Stage::AfterCommand => ProcessStep::Done(Ok(())),
        },
        Err(e) => {
            let then = match stage {
                Stage::Command => Resume::CanRun,
                Stage::Handle => Resume::AfterCommand,
                _ => Resume::Finish,
            };
            ProcessStep::Error { error: e, then }
        },
    }
}

/// The step after the error hook answered `outcome`: its own error ends
/// processing with that error; otherwise processing goes on as `then` says.
pub fn after_error_hook<E>(then: Resume, outcome: Result<(), E>) -> (r: ProcessStep<E>)
    ensures
        match outcome {
            Err(e) => r matches ProcessStep::Done(Err(x)) && x == e,
            Ok(()) => match then {
                Resume::CanRun => r is CanRun,
                Resume::AfterCommand => r is AfterCommand,
                Resume::Finish => r matches ProcessStep::Done(Ok(())),
            },
        },
{
    match outcome {
        Err(e) => ProcessStep::Done(Err(e)),
        Ok(()) => match then {
            Resume::CanRun => ProcessStep::CanRun,
            Resume::AfterCommand => ProcessStep::AfterCommand,
            Resume::Finish => ProcessStep::Done(Ok(())),
        },
    }
}

} // verus!
