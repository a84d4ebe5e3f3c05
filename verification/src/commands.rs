use vstd::prelude::*;

use crate::store::{entries_map, keys_unique, lemma_map_contains, KeyedStore};
use crate::text::{views, chars_of, is_prefix, starts_with, suffix_from, split_spaces, spaceless, lemma_split_nonempty, lemma_split_word_then, lemma_split_spaceless};
use crate::words::{Words, step_forward, step_back};

verus! {

/// A command of the command framework, with the commands grouped under it.
///
/// The function a command runs and the checks it must pass belong to the
/// program around the library; a command refers to them by their numbers.
#[derive(Debug)]
pub struct Command {
    name: String,
    children: Vec<Command>,
    child_keys: KeyedStore<usize>,
    aliases: Vec<String>,
    description: Option<String>,
    signature: Option<String>,
    parents: Vec<String>,
    handle: usize,
    checks: Vec<usize>,
}

/// The text of an optional string.
pub open spec fn opt_view(o: Option<String>) -> Option<Seq<char>> {
    match o {
        Some(s) => Some(s@),
        None => None,
    }
}

impl Command {
    #[verifier::type_invariant]
    spec fn inv(self) -> bool {
        &&& forall|k: Seq<char>| #[trigger] self.child_keys.map().contains_key(k)
            ==> self.child_keys.map()[k] < self.children@.len()
        &&& (self.children@.len() == 0) == (self.child_keys.entries().len() == 0)
    }

    /// The name the command is called by.
    pub closed spec fn name_view(self) -> Seq<char> {
        self.name@
    }

    /// The other names the command is called by.
    pub closed spec fn aliases_view(self) -> Seq<Seq<char>> {
        views(self.aliases@)
    }

    /// The description shown in help.
    pub closed spec fn description_view(self) -> Option<Seq<char>> {
        opt_view(self.description)
    }

    /// The usage signature shown in help.
    pub closed spec fn signature_view(self) -> Option<Seq<char>> {
        opt_view(self.signature)
    }

    /// The names of the commands this one is nested under, outermost first.
    pub closed spec fn parents_view(self) -> Seq<Seq<char>> {
        views(self.parents@)
    }

    /// The number of the function the command runs.
    pub closed spec fn handle_view(self) -> usize {
        self.handle
    }

    /// The numbers of the checks the command must pass.
    pub closed spec fn checks_view(self) -> Seq<usize> {
        self.checks@
    }

    /// The command nested under this one by the name or alias `k`, if any.
    pub closed spec fn child_named(self, k: Seq<char>) -> Option<Command> {
        if self.child_keys.map().contains_key(k) {
            Some(self.children@[self.child_keys.map()[k] as int])
        } else {
            None
        }
    }

    /// The names and aliases under which commands are nested under this one.
    pub closed spec fn child_keys_view(self) -> Map<Seq<char>, usize> {
        self.child_keys.map()
    }

    /// Whether any command is nested under this one.
    pub closed spec fn has_children(self) -> bool {
        self.child_keys.entries().len() > 0
    }

    /// The keys under which nested commands were added, in order.
    pub closed spec fn child_entries(self) -> Seq<(String, usize)> {
        self.child_keys.entries()
    }

    /// The nested commands in the order they were added, each once.
    pub closed spec fn nested(self) -> Seq<Command> {
        self.children@
    }

    /// The nested commands as `children` lists them: each under its own name.
    pub open spec fn listed_children(self) -> Seq<Command> {
        own_entries(self.child_entries(), self.nested())
    }

    /// `self` is `other` with only the parents and nested commands changed.
    pub open spec fn same_head(self, other: Command) -> bool {
        &&& self.name_view() == other.name_view()
        &&& self.aliases_view() == other.aliases_view()
        &&& self.description_view() == other.description_view()
        &&& self.signature_view() == other.signature_view()
        &&& self.handle_view() == other.handle_view()
        &&& self.checks_view() == other.checks_view()
    }

    /// A command named `name` that runs the function numbered `handle`.
    pub fn new(name: String, handle: usize) -> (r: Command)
        ensures
            r.name_view() == name@,
            r.handle_view() == handle,
            r.aliases_view() == Seq::<Seq<char>>::empty(),
            r.description_view() is None,
            r.signature_view() is None,
            r.parents_view() == Seq::<Seq<char>>::empty(),
            r.checks_view() == Seq::<usize>::empty(),
            !r.has_children(),
            forall|k: Seq<char>| r.child_named(k) is None,
    {
        let r = Command {
            name,
            children: Vec::new(),
            child_keys: KeyedStore::new(),
            aliases: Vec::new(),
            description: None,
            signature: None,
            parents: Vec::new(),
            handle,
            checks: Vec::new(),
        };
        assert(views(r.aliases@) =~= Seq::<Seq<char>>::empty());
        assert(views(r.parents@) =~= Seq::<Seq<char>>::empty());
        r
    }

    /// The name the command is called by.
    pub fn name(&self) -> (r: &String)
        ensures
            r@ == self.name_view(),
    {
        &self.name
    }

    /// The other names the command is called by.
    pub fn aliases(&self) -> (r: &Vec<String>)
        ensures
            views(r@) == self.aliases_view(),
    {
        &self.aliases
    }

    /// The description shown in help.
    pub fn get_description(&self) -> (r: &Option<String>)
        ensures
            opt_view(*r) == self.description_view(),
    {
        &self.description
    }

    /// The usage signature shown in help.
    pub fn get_signature(&self) -> (r: &Option<String>)
        ensures
            opt_view(*r) == self.signature_view(),
    {
        &self.signature
    }

    /// The names of the commands this one is nested under, outermost first.
    pub fn parents(&self) -> (r: &Vec<String>)
        ensures
            views(r@) == self.parents_view(),
    {
        &self.parents
    }

    /// The number of the function the command runs.
    pub fn handle(&self) -> (r: usize)
        ensures
            r == self.handle_view(),
    {
        self.handle
    }

    /// The numbers of the checks the command must pass.
    pub fn checks(&self) -> (r: &Vec<usize>)
        ensures
            r@ == self.checks_view(),
    {
        &self.checks
    }

    /// Whether any command is nested under this one.
    pub fn has_child_commands(&self) -> (r: bool)
        ensures
            r == self.has_children(),
    {
        self.child_keys.len() > 0
    }

    /// Nests `command` under this one, reachable by its name and by each of its aliases.
    ///
    /// The nested command's parents become this command's parents followed by this
    /// command's name.
    pub fn child(self, command: Command) -> (r: Command)
        ensures
            r.same_head(self),
            r.parents_view() == self.parents_view(),
            r.nested() == self.nested().push(r.nested().last()),
            r.nested().last().same_head(command),
            r.nested().last().parents_view() == self.parents_view().push(self.name_view()),
            r.nested().last().nested() == command.nested(),
            r.nested().last().child_keys_view() == command.child_keys_view(),
            forall|k: Seq<char>| #[trigger] r.child_named(k) == (
                if k == command.name_view() || command.aliases_view().contains(k) {
                    Some(r.nested().last())
                } else {
                    self.child_named(k)
                }),
            r.listed_children().contains(r.nested().last()),
            forall|i: int, j: int| 0 <= i < j < r.listed_children().len()
                ==> (#[trigger] r.listed_children()[i]).name_view() != (#[trigger] r.listed_children()[j]).name_view(),
            forall|x: Command| #[trigger] r.listed_children().contains(x) && x.name_view() != command.name_view()
                ==> self.listed_children().contains(x),
    {
        proof {
            use_type_invariant(&self);
            use_type_invariant(&command);
            use_type_invariant(&self.child_keys);
            self.child_keys.lemma_keys_unique();
            lemma_own_entries_listed(self.child_entries(), self.nested());
            self.child_keys.lemma_map_of_entries();
        }
        let ghost old_children = self.children@;
        let Command { name, mut children, mut child_keys, aliases, description, signature, parents, handle, checks } = self;
        let Command {
            name: c_name,
            children: c_children,
            child_keys: c_child_keys,
            aliases: c_aliases,
            description: c_description,
            signature: c_signature,
            parents: _,
            handle: c_handle,
            checks: c_checks,
        } = command;
        let mut new_parents = parents.clone();
        let ghost pv = views(parents@);
        assert(views(new_parents@) =~= pv) by {
            assert forall|i: int| 0 <= i < new_parents@.len() implies new_parents@[i] == parents@[i] by {
                assert(vstd::pervasive::cloned(parents@[i], new_parents@[i]));
            }
        }
        let ghost before = new_parents@;
        new_parents.push(name.clone());
        assert(views(new_parents@) =~= pv.push(name@)) by {
            assert(new_parents@ =~= before.push(new_parents@.last()));
        }
        let keys_len = c_child_keys.len();
        let nested = Command {
            name: c_name,
            children: c_children,
            child_keys: c_child_keys,
            aliases: c_aliases,
            description: c_description,
            signature: c_signature,
            parents: new_parents,
            handle: c_handle,
            checks: c_checks,
        };
        let idx = children.len();
        let ghost old_keys = child_keys.map();
        let ghost old_keys_entries = child_keys.entries();
        let key0 = nested.name.clone();
        let alias_list = nested.aliases.clone();
        let ghost alias_views = views(nested.aliases@);
        assert(views(alias_list@) =~= alias_views) by {
            assert forall|i: int| 0 <= i < alias_list@.len() implies alias_list@[i] == nested.aliases@[i] by {
                assert(vstd::pervasive::cloned(nested.aliases@[i], alias_list@[i]));
            }
        }
        let ghost nm = nested.name@;
        children.push(nested);
        child_keys.insert(key0, idx);
        let mut j: usize = 0;
        while j < alias_list.len()
            invariant
                j <= alias_list@.len(),
                views(alias_list@) == alias_views,
                idx < children@.len(),
                forall|k: Seq<char>| #[trigger] child_keys.map().contains_key(k) ==> (
                    if k == nm || alias_views.take(j as int).contains(k) {
                        child_keys.map()[k] == idx
                    } else {
                        old_keys.contains_key(k) && child_keys.map()[k] == old_keys[k]
                    }),
                forall|k: Seq<char>| (k == nm || alias_views.take(j as int).contains(k) || old_keys.contains_key(k))
                    ==> #[trigger] child_keys.map().contains_key(k),
                child_keys.entries().len() > 0,
            decreases alias_list@.len() - j,
        {
            let a = alias_list[j].clone();
            assert(alias_views.take(j + 1) =~= alias_views.take(j as int).push(a@));
            let ghost prev = child_keys.map();
            let ghost av = a@;
            child_keys.insert(a, idx);
            assert forall|k: Seq<char>| #[trigger] child_keys.map().contains_key(k) implies (
                if k == nm || alias_views.take(j + 1).contains(k) {
                    child_keys.map()[k] == idx
                } else {
                    old_keys.contains_key(k) && child_keys.map()[k] == old_keys[k]
                }) by {
                assert(alias_views.take(j + 1)[j as int] == av);
                if k != av && alias_views.take(j + 1).contains(k) {
                    let i = choose|i: int| 0 <= i < j + 1 && #[trigger] alias_views.take(j + 1)[i] == k;
                    assert(alias_views.take(j as int)[i] == k);
                    assert(prev.contains_key(k));
                }
                if k != av && !alias_views.take(j + 1).contains(k) && k != nm {
                    assert(prev.contains_key(k));
                    if alias_views.take(j as int).contains(k) {
                        let i = choose|i: int| 0 <= i < j && #[trigger] alias_views.take(j as int)[i] == k;
                        assert(alias_views.take(j + 1)[i] == k);
                    }
                }
            }
            j = j + 1;
        }
        assert(alias_views.take(alias_list@.len() as int) =~= alias_views);
        proof {
            use_type_invariant(&child_keys);
            child_keys.lemma_keys_unique();
            lemma_own_entries_listed(child_keys.entries(), children@);
            child_keys.lemma_map_of_entries();
            assert(children@[idx as int].name_view() == nm);
            assert(child_keys.map().contains_key(nm));
            assert(child_keys.map()[nm] == idx);
            assert(own_entries(child_keys.entries(), children@).contains(children@[idx as int]));
            assert forall|x: Command| #[trigger] own_entries(child_keys.entries(), children@).contains(x)
                && x.name_view() != nm implies own_entries(old_keys_entries, old_children).contains(x) by {
                let k = x.name_view();
                assert(child_keys.map().contains_key(k));
                if child_keys.map()[k] == idx {
                    assert(children@[idx as int].name_view() == nm);
                }
                assert(old_keys.contains_key(k) && child_keys.map()[k] == old_keys[k]);
                assert(old_children[old_keys[k] as int] == x);
            }
        }
        let r = Command { name, children, child_keys, aliases, description, signature, parents, handle, checks };
        r
    }

    /// Sets the description shown in help.
    pub fn description(self, description: String) -> (r: Command)
        ensures
            r.description_view() == Some(description@),
            r.name_view() == self.name_view(),
            r.aliases_view() == self.aliases_view(),
            r.signature_view() == self.signature_view(),
            r.handle_view() == self.handle_view(),
            r.checks_view() == self.checks_view(),
            r.parents_view() == self.parents_view(),
            r.nested() == self.nested(),
            r.child_keys_view() == self.child_keys_view(),
    {
        proof {
            use_type_invariant(&self);
        }
        let Command { name, children, child_keys, aliases, description: _, signature, parents, handle, checks } = self;
        Command { name, children, child_keys, aliases, description: Some(description), signature, parents, handle, checks }
    }

    /// Sets the usage signature shown in help.
    pub fn signature(self, signature: String) -> (r: Command)
        ensures
            r.signature_view() == Some(signature@),
            r.name_view() == self.name_view(),
            r.aliases_view() == self.aliases_view(),
            r.description_view() == self.description_view(),
            r.handle_view() == self.handle_view(),
            r.checks_view() == self.checks_view(),
            r.parents_view() == self.parents_view(),
            r.nested() == self.nested(),
            r.child_keys_view() == self.child_keys_view(),
    {
        proof {
            use_type_invariant(&self);
        }
        let Command { name, children, child_keys, aliases, description, signature: _, parents, handle, checks } = self;
        Command { name, children, child_keys, aliases, description, signature: Some(signature), parents, handle, checks }
    }

    /// Adds the check numbered `check` to those the command must pass.
    pub fn check(self, check: usize) -> (r: Command)
        ensures
            r.checks_view() == self.checks_view().push(check),
            r.same_head_but_checks(self),
            r.parents_view() == self.parents_view(),
            r.nested() == self.nested(),
            r.child_keys_view() == self.child_keys_view(),
    {
        proof {
            use_type_invariant(&self);
        }
        let Command { name, children, child_keys, aliases, description, signature, parents, handle, mut checks } = self;
        checks.push(check);
        Command { name, children, child_keys, aliases, description, signature, parents, handle, checks }
    }

    /// Everything but the checks agrees.
    pub open spec fn same_head_but_checks(self, other: Command) -> bool {
        &&& self.name_view() == other.name_view()
        &&& self.aliases_view() == other.aliases_view()
        &&& self.description_view() == other.description_view()
        &&& self.signature_view() == other.signature_view()
        &&& self.handle_view() == other.handle_view()
    }

    /// Adds another name the command is called by.
    pub fn alias(self, alias: String) -> (r: Command)
        ensures
            r.aliases_view() == self.aliases_view().push(alias@),
            r.name_view() == self.name_view(),
            r.description_view() == self.description_view(),
            r.signature_view() == self.signature_view(),
            r.handle_view() == self.handle_view(),
            r.checks_view() == self.checks_view(),
            r.parents_view() == self.parents_view(),
            r.nested() == self.nested(),
            r.child_keys_view() == self.child_keys_view(),
    {
        proof {
            use_type_invariant(&self);
        }
        let Command { name, children, child_keys, mut aliases, description, signature, parents, handle, checks } = self;
        let ghost before = aliases@;
        aliases.push(alias);
        assert(views(aliases@) =~= views(before).push(aliases@.last()@)) by {
            assert(aliases@ =~= before.push(aliases@.last()));
        }
        Command { name, children, child_keys, aliases, description, signature, parents, handle, checks }
    }

    /// The command nested under this one by the name or alias `name`.
    pub fn get_command(&self, name: &str) -> (r: Option<&Command>)
        ensures
            r matches Some(c) ==> self.child_named(name@) == Some(*c),
            r is None <==> self.child_named(name@) is None,
    {
        proof {
            use_type_invariant(self);
        }
        match self.child_keys.get(name) {
            Some(i) => Some(&self.children[*i]),
            None => None,
        }
    }
}

/// The nested commands listed under their own names, in the order of `entries`.
pub open spec fn own_entries(entries: Seq<(String, usize)>, cmds: Seq<Command>) -> Seq<Command>
    decreases entries.len(),
{
    if entries.len() == 0 {
        Seq::empty()
    } else {
        let p = own_entries(entries.drop_last(), cmds);
        let e = entries.last();
        if 0 <= e.1 < cmds.len() && e.0@ == cmds[e.1 as int].name_view() {
            p.push(cmds[e.1 as int])
        } else {
            p
        }
    }
}

/// What the nested commands listed under their own names are, for entries with
/// distinct keys: a command is listed exactly when the entry of its own name
/// points at it, and no two listed commands share a name.
pub proof fn lemma_own_entries_listed(entries: Seq<(String, usize)>, cmds: Seq<Command>)
    requires
        keys_unique(entries),
    ensures
        forall|x: Command| #[trigger] own_entries(entries, cmds).contains(x) <==> (
            entries_map(entries).contains_key(x.name_view())
            && entries_map(entries)[x.name_view()] < cmds.len()
            && cmds[entries_map(entries)[x.name_view()] as int] == x),
        forall|i: int, j: int| 0 <= i < j < own_entries(entries, cmds).len()
            ==> (#[trigger] own_entries(entries, cmds)[i]).name_view() != (#[trigger] own_entries(entries, cmds)[j]).name_view(),
    decreases entries.len(),
{
    if entries.len() > 0 {
        let t = entries.drop_last();
        let e = entries.last();
        assert(keys_unique(t)) by {
            assert forall|i: int, j: int| 0 <= i < j < t.len() implies (#[trigger] t[i]).0@ != (#[trigger] t[j]).0@ by {
                assert(t[i] == entries[i] && t[j] == entries[j]);
            }
        }
        lemma_own_entries_listed(t, cmds);
        lemma_map_contains(t, e.0@);
        assert(!entries_map(t).contains_key(e.0@)) by {
            if entries_map(t).contains_key(e.0@) {
                let i = choose|i: int| 0 <= i < t.len() && (#[trigger] t[i]).0@ == e.0@;
                assert(entries[i].0@ != entries[entries.len() - 1].0@);
            }
        }
        let lp = own_entries(t, cmds);
        let l = own_entries(entries, cmds);
        assert forall|x: Command| #[trigger] l.contains(x) <==> (
            entries_map(entries).contains_key(x.name_view())
            && entries_map(entries)[x.name_view()] < cmds.len()
            && cmds[entries_map(entries)[x.name_view()] as int] == x) by {
            if lp.contains(x) {
                assert(entries_map(t).contains_key(x.name_view()));
                assert(x.name_view() != e.0@);
                let k = choose|k: int| 0 <= k < lp.len() && lp[k] == x;
                assert(l[k] == x);
            }
            if l.contains(x) && !lp.contains(x) {
                let k = choose|k: int| 0 <= k < l.len() && l[k] == x;
                if k < lp.len() {
                    assert(lp[k] == x);
                }
            }
            if x.name_view() == e.0@ && e.1 < cmds.len() && cmds[e.1 as int] == x {
                assert(l[l.len() - 1] == x);
            }
            if x.name_view() != e.0@ && entries_map(t).contains_key(x.name_view())
                && entries_map(t)[x.name_view()] < cmds.len() && cmds[entries_map(t)[x.name_view()] as int] == x {
                assert(lp.contains(x));
                let k = choose|k: int| 0 <= k < lp.len() && lp[k] == x;
                assert(l[k] == x);
            }
        }
        assert forall|i: int, j: int| 0 <= i < j < l.len() implies (#[trigger] l[i]).name_view() != (#[trigger] l[j]).name_view() by {
            if j < lp.len() {
                assert(l[i] == lp[i] && l[j] == lp[j]);
            } else {
                assert(l[i] == lp[i]);
                assert(lp.contains(lp[i]));
                assert(entries_map(t).contains_key(lp[i].name_view()));
            }
        }
    }
}

/// The values behind a sequence of references.
pub open spec fn derefs(s: Seq<&Command>) -> Seq<Command> {
    s.map_values(|c: &Command| *c)
}

fn own_entries_of<'a>(keys: &'a KeyedStore<usize>, cmds: &'a Vec<Command>) -> (r: Vec<&'a Command>)
    requires
        forall|k: Seq<char>| #[trigger] keys.map().contains_key(k) ==> keys.map()[k] < cmds@.len(),
    ensures
        derefs(r@) == own_entries(keys.entries(), cmds@),
{
    let mut out: Vec<&Command> = Vec::new();
    let n = keys.len();
    let mut i: usize = 0;
    while i < n
        invariant
            n == keys.entries().len(),
            i <= n,
            forall|k: Seq<char>| #[trigger] keys.map().contains_key(k) ==> keys.map()[k] < cmds@.len(),
            derefs(out@) == own_entries(keys.entries().take(i as int), cmds@),
        decreases n - i,
    {
        let (k, idx) = keys.entry_at(i);
        assert(keys.entries().take(i + 1).drop_last() =~= keys.entries().take(i as int));
        let c = &cmds[*idx];
        if crate::text::str_eq(k.as_str(), c.name().as_str()) {
            let ghost before = out@;
            out.push(c);
            assert(derefs(out@) =~= derefs(before).push(*c));
        }
        i = i + 1;
    }
    assert(keys.entries().take(n as int) =~= keys.entries());
    out
}

impl Command {
    /// The commands nested under this one, each once, under its own name.
    pub fn children(&self) -> (r: Vec<&Command>)
        ensures
            derefs(r@) == own_entries(self.child_entries(), self.nested()),
    {
        proof {
            use_type_invariant(self);
        }
        own_entries_of(&self.child_keys, &self.children)
    }
}

/// The registry of top-level commands, reachable by name and by alias.
#[derive(Debug)]
pub struct Commands {
    commands: Vec<Command>,
    mapping: KeyedStore<usize>,
}

impl Commands {
    #[verifier::type_invariant]
    spec fn inv(self) -> bool {
        forall|k: Seq<char>| #[trigger] self.mapping.map().contains_key(k)
            ==> self.mapping.map()[k] < self.commands@.len()
    }

    /// The command registered under the name or alias `k`, if any.
    pub closed spec fn command_named(self, k: Seq<char>) -> Option<Command> {
        if self.mapping.map().contains_key(k) {
            Some(self.commands@[self.mapping.map()[k] as int])
        } else {
            None
        }
    }

    /// The names and aliases in the order they were first registered.
    pub closed spec fn entries(self) -> Seq<(String, usize)> {
        self.mapping.entries()
    }

    /// Every command that was registered, in order.
    pub closed spec fn registered(self) -> Seq<Command> {
        self.commands@
    }

    /// The command that `w` calls after `cur` was called: one nested under
    /// `cur` if there is one by that name, else a top-level command.
    pub open spec fn resolve(self, cur: Option<Command>, w: Seq<char>) -> Option<Command> {
        match cur {
            Some(c) => match c.child_named(w) {
                Some(x) => Some(x),
                None => self.command_named(w),
            },
            None => self.command_named(w),
        }
    }

    /// The command that the words from position `pos` on call, descending into
    /// nested commands as far as the words name them, and the cursor position
    /// after the command's words.
    pub open spec fn find_from(self, cur: Option<Command>, ws: Seq<Seq<char>>, pos: int) -> (Option<Command>, int)
        decreases ws.len() - pos,
    {
        if 0 <= pos < ws.len() {
            match self.resolve(cur, ws[pos]) {
                None => (None, pos),
                Some(c) => if c.has_children() {
                    let sub = self.find_from(Some(c), ws, pos + 1);
                    match sub.0 {
                        Some(s) => sub,
                        None => (Some(c), pos),
                    }
                } else {
                    (Some(c), pos + 1)
                },
            }
        } else {
            (None, pos)
        }
    }

    /// The last command that the words from `i` on name, one after the other,
    /// starting after `cur`; the walk stops at the first word that names none.
    pub open spec fn walk(self, cur: Option<Command>, ws: Seq<Seq<char>>, i: int) -> Option<Command>
        decreases ws.len() - i,
    {
        if 0 <= i < ws.len() {
            match self.resolve(cur, ws[i]) {
                Some(c) => self.walk(Some(c), ws, i + 1),
                None => cur,
            }
        } else {
            cur
        }
    }

    /// The commands that a list of parent names leads to, each name looked up
    /// under the command before it; `None` when a name leads nowhere.
    pub open spec fn parent_chain(self, names: Seq<Seq<char>>) -> Option<Seq<Command>>
        decreases names.len(),
    {
        if names.len() == 0 {
            Some(Seq::empty())
        } else {
            match self.parent_chain(names.drop_last()) {
                None => None,
                Some(chain) => {
                    let next = if chain.len() > 0 {
                        chain.last().child_named(names.last())
                    } else {
                        self.command_named(names.last())
                    };
                    match next {
                        Some(c) => Some(chain.push(c)),
                        None => None,
                    }
                },
            }
        }
    }

    /// An empty registry.
    pub fn new() -> (r: Commands)
        ensures
            forall|k: Seq<char>| r.command_named(k) is None,
    {
        Commands { commands: Vec::new(), mapping: KeyedStore::new() }
    }

    /// Registers `command` under its name and each of its aliases.
    pub fn try_register(&mut self, command: Command)
        ensures
            forall|k: Seq<char>| #[trigger] final(self).command_named(k) == (
                if k == command.name_view() || command.aliases_view().contains(k) {
                    Some(command)
                } else {
                    old(self).command_named(k)
                }),
    {
        proof {
            use_type_invariant(&*self);
        }
        let mut taken = Commands::new();
        std::mem::swap(&mut taken, self);
        proof {
            use_type_invariant(&taken);
        }
        let Commands { mut commands, mut mapping } = taken;
        let ghost old_map = mapping.map();
        let ghost old_cmds = commands@;
        let idx = commands.len();
        let key0 = command.name.clone();
        let alias_list = command.aliases.clone();
        let ghost alias_views = command.aliases_view();
        assert(views(alias_list@) =~= alias_views) by {
            assert forall|i: int| 0 <= i < alias_list@.len() implies alias_list@[i] == command.aliases@[i] by {
                assert(vstd::pervasive::cloned(command.aliases@[i], alias_list@[i]));
            }
        }
        let ghost nm = command.name_view();
        let ghost cmd = command;
        commands.push(command);
        mapping.insert(key0, idx);
        let mut j: usize = 0;
        while j < alias_list.len()
            invariant
                j <= alias_list@.len(),
                views(alias_list@) == alias_views,
                commands@ == old_cmds.push(cmd),
                idx == old_cmds.len(),
                forall|k: Seq<char>| #[trigger] old_map.contains_key(k) ==> old_map[k] < old_cmds.len(),
                forall|k: Seq<char>| #[trigger] mapping.map().contains_key(k) ==> (
                    if k == nm || alias_views.take(j as int).contains(k) {
                        mapping.map()[k] == idx
                    } else {
                        old_map.contains_key(k) && mapping.map()[k] == old_map[k]
                    }),
                forall|k: Seq<char>| (k == nm || alias_views.take(j as int).contains(k) || old_map.contains_key(k))
                    ==> #[trigger] mapping.map().contains_key(k),
            decreases alias_list@.len() - j,
        {
            let a = alias_list[j].clone();
            let ghost prev = mapping.map();
            let ghost av = a@;
            mapping.insert(a, idx);
            assert forall|k: Seq<char>| #[trigger] mapping.map().contains_key(k) implies (
                if k == nm || alias_views.take(j + 1).contains(k) {
                    mapping.map()[k] == idx
                } else {
                    old_map.contains_key(k) && mapping.map()[k] == old_map[k]
                }) by {
                assert(alias_views.take(j + 1)[j as int] == av);
                if k != av && alias_views.take(j + 1).contains(k) {
                    let i = choose|i: int| 0 <= i < j + 1 && #[trigger] alias_views.take(j + 1)[i] == k;
                    assert(alias_views.take(j as int)[i] == k);
                    assert(prev.contains_key(k));
                }
                if k != av && !alias_views.take(j + 1).contains(k) && k != nm {
                    assert(prev.contains_key(k));
                    if alias_views.take(j as int).contains(k) {
                        let i = choose|i: int| 0 <= i < j && #[trigger] alias_views.take(j as int)[i] == k;
                        assert(alias_views.take(j + 1)[i] == k);
                    }
                }
            }
            assert forall|k: Seq<char>| (k == nm || alias_views.take(j + 1).contains(k) || old_map.contains_key(k))
                implies #[trigger] mapping.map().contains_key(k) by {
                if k != av && alias_views.take(j + 1).contains(k) {
                    let i = choose|i: int| 0 <= i < j + 1 && #[trigger] alias_views.take(j + 1)[i] == k;
                    assert(alias_views.take(j as int)[i] == k);
                }
            }
            j = j + 1;
        }
        assert(alias_views.take(alias_list@.len() as int) =~= alias_views);
        *self = Commands { commands, mapping };
    }

    /// Registers `command` under its name and each of its aliases.
    pub fn register(&mut self, command: Command)
        ensures
            forall|k: Seq<char>| #[trigger] final(self).command_named(k) == (
                if k == command.name_view() || command.aliases_view().contains(k) {
                    Some(command)
                } else {
                    old(self).command_named(k)
                }),
    {
        self.try_register(command)
    }

    /// The command registered under the name or alias `name`.
    pub fn get_command(&self, name: &str) -> (r: Option<&Command>)
        ensures
            r matches Some(c) ==> self.command_named(name@) == Some(*c),
            r is None <==> self.command_named(name@) is None,
    {
        proof {
            use_type_invariant(self);
        }
        match self.mapping.get(name) {
            Some(i) => Some(&self.commands[*i]),
            None => None,
        }
    }

    fn resolve_exec<'a>(&'a self, cur: Option<&'a Command>, w: &str) -> (r: Option<&'a Command>)
        ensures
            derefs_opt(r) == self.resolve(derefs_opt(cur), w@),
    {
        match cur {
            Some(c) => match c.get_command(w) {
                Some(x) => Some(x),
                None => self.get_command(w),
            },
            None => self.get_command(w),
        }
    }

    /// Finds the command that the words from the cursor on call, descending into
    /// nested commands; the cursor ends after the words of the command found.
    pub fn find_command_from_words<'a>(&'a self, current_command: Option<&'a Command>, words: &mut Words) -> (r: Option<&'a Command>)
        ensures
            final(words)@.0 == old(words)@.0,
            (derefs_opt(r), final(words)@.1 as int) == self.find_from(derefs_opt(current_command), old(words)@.0, old(words)@.1 as int),
        decreases old(words)@.0.len() - old(words)@.1,
    {
        let next_word = match words.current() {
            Some(w) => w,
            None => return None,
        };
        let cand = self.resolve_exec(current_command, next_word.as_str());
        proof {
            lemma_find_none(*self, derefs_opt(current_command), words@.0, words@.1 as int + 1);
            words.lemma_len_fits();
        }
        match cand {
            Some(command) => {
                words.advance();
                assert(words@.1 == old(words)@.1 + 1);
                if command.has_child_commands() {
                    let sub = self.find_command_from_words(Some(command), words);
                    match sub {
                        Some(s) => Some(s),
                        None => {
                            words.undo();
                            Some(command)
                        },
                    }
                } else {
                    Some(command)
                }
            },
            None => None,
        }
    }

    /// The command that `words` name one after the other, each under the one before.
    pub fn get_command_from_slice(&self, words: &[String]) -> (r: Option<&Command>)
        ensures
            derefs_opt(r) == self.walk(None, views(words@), 0),
    {
        let ghost ws = views(words@);
        let mut current: Option<&Command> = None;
        let mut i: usize = 0;
        while i < words.len()
            invariant
                i <= words@.len(),
                ws == views(words@),
                self.walk(derefs_opt(current), ws, i as int) == self.walk(None, ws, 0),
            decreases words@.len() - i,
        {
            match self.resolve_exec(current, words[i].as_str()) {
                Some(c) => {
                    current = Some(c);
                },
                None => {
                    return current;
                },
            }
            i = i + 1;
        }
        current
    }

    /// The registered commands, each once, under its own name.
    pub fn get_commands(&self) -> (r: Vec<&Command>)
        ensures
            derefs(r@) == own_entries(self.entries(), self.registered()),
    {
        proof {
            use_type_invariant(self);
        }
        own_entries_of(&self.mapping, &self.commands)
    }

    /// The commands that `command` is nested under, outermost first.
    pub fn get_command_parents(&self, command: &Command) -> (r: Vec<&Command>)
        requires
            self.parent_chain(command.parents_view()) is Some,
        ensures
            Some(derefs(r@)) == self.parent_chain(command.parents_view()),
    {
        let parents = command.parents();
        let ghost names = command.parents_view();
        let mut out: Vec<&Command> = Vec::new();
        let mut i: usize = 0;
        assert(names.take(0) =~= Seq::<Seq<char>>::empty());
        assert(derefs(out@) =~= Seq::<Command>::empty());
        while i < parents.len()
            invariant
                i <= parents@.len(),
                views(parents@) == names,
                self.parent_chain(names) is Some,
                self.parent_chain(names.take(i as int)) == Some(derefs(out@)),
            decreases parents@.len() - i,
        {
            assert(names.take(i + 1).drop_last() =~= names.take(i as int));
            proof {
                lemma_chain_prefix(*self, names, i + 1);
            }
            let next = if out.len() > 0 {
                out[out.len() - 1].get_command(parents[i].as_str())
            } else {
                self.get_command(parents[i].as_str())
            };
            let c = next.unwrap();
            let ghost before = out@;
            out.push(c);
            assert(derefs(out@) =~= derefs(before).push(*c));
            i = i + 1;
        }
        assert(names.take(parents@.len() as int) =~= names);
        out
    }
}

/// The position of the first of `prefixes` that `s` starts with.
pub open spec fn first_prefix(prefixes: Seq<Seq<char>>, s: Seq<char>) -> Option<int>
    decreases prefixes.len(),
{
    if prefixes.len() == 0 {
        None
    } else {
        match first_prefix(prefixes.drop_last(), s) {
            Some(i) => Some(i),
            None => if is_prefix(prefixes.last(), s) {
                Some(prefixes.len() - 1)
            } else {
                None
            },
        }
    }
}

/// A message that calls on the command framework: the prefix it starts with,
/// the words after the prefix with the cursor after the command's words, and
/// the command they call, if any.
pub struct Invocation<'a> {
    pub prefix: String,
    pub words: Words,
    pub command: Option<&'a Command>,
}

impl Commands {
    /// Reads a message's text: finds the first of `prefixes` that it starts with,
    /// splits the rest into words and finds the command they call.
    ///
    /// `None` when the text starts with none of the prefixes.
    pub fn route_message<'a>(&'a self, prefixes: &Vec<String>, content: &str) -> (r: Option<Invocation<'a>>)
        ensures
            r is None <==> first_prefix(views(prefixes@), content@) is None,
            r matches Some(inv) ==> {
                let i = first_prefix(views(prefixes@), content@)->0;
                let rest = content@.skip(prefixes@[i]@.len() as int);
                &&& inv.prefix@ == prefixes@[i]@
                &&& inv.words@.0 == split_spaces(rest)
                &&& (derefs_opt(inv.command), inv.words@.1 as int) == self.find_from(None, split_spaces(rest), 0)
            },
    {
        let ghost ps = views(prefixes@);
        let mut i: usize = 0;
        while i < prefixes.len()
            invariant
                i <= prefixes@.len(),
                ps == views(prefixes@),
                first_prefix(ps.take(i as int), content@) is None,
            decreases prefixes@.len() - i,
        {
            assert(ps.take(i + 1).drop_last() =~= ps.take(i as int));
            if starts_with(content, prefixes[i].as_str()) {
                proof {
                    lemma_first_prefix_extend(ps, content@, i as int + 1);
                }
                let prefix = prefixes[i].clone();
                let rest = suffix_from(content, prefixes[i].as_str().unicode_len());
                let mut words = Words::new(rest.as_str());
                let command = self.find_command_from_words(None, &mut words);
                return Some(Invocation { prefix, words, command });
            }
            i = i + 1;
        }
        assert(ps.take(prefixes@.len() as int) =~= ps);
        None
    }
}

/// A text that starts with the name of a registered command with nothing nested
/// under it calls that command, the cursor on the word after the name: the
/// arguments follow a space, or there are none. A first word that names no
/// command calls nothing and leaves the cursor on it.
pub proof fn lemma_leaf_command_found(reg: Commands, name: Seq<char>, args: Option<Seq<char>>)
    requires
        spaceless(name),
    ensures
        ({
            let text = match args {
                Some(t) => name + seq![' '] + t,
                None => name,
            };
            match reg.command_named(name) {
                Some(c) => !c.has_children() ==> reg.find_from(None, split_spaces(text), 0) == (Some(c), 1int),
                None => reg.find_from(None, split_spaces(text), 0) == (None::<Command>, 0int),
            }
        }),
{
    match args {
        Some(t) => {
            lemma_split_word_then(name, t);
            lemma_split_nonempty(t);
        },
        None => {
            lemma_split_spaceless(name);
        },
    }
}

proof fn lemma_first_prefix_extend(ps: Seq<Seq<char>>, s: Seq<char>, n: int)
    requires
        0 <= n <= ps.len(),
        first_prefix(ps.take(n), s) is Some,
    ensures
        first_prefix(ps, s) == first_prefix(ps.take(n), s),
    decreases ps.len() - n,
{
    if n < ps.len() {
        assert(ps.take(n + 1).drop_last() =~= ps.take(n));
        lemma_first_prefix_extend(ps, s, n + 1);
    } else {
        assert(ps.take(n) =~= ps);
    }
}

/// A search that finds nothing leaves the cursor where it was.
proof fn lemma_find_none(reg: Commands, cur: Option<Command>, ws: Seq<Seq<char>>, pos: int)
    ensures
        reg.find_from(cur, ws, pos).0 is None ==> reg.find_from(cur, ws, pos).1 == pos,
{
}

/// A chain that resolves also resolves for every prefix of its names.
proof fn lemma_chain_prefix(reg: Commands, names: Seq<Seq<char>>, n: int)
    requires
        0 <= n <= names.len(),
        reg.parent_chain(names) is Some,
    ensures
        reg.parent_chain(names.take(n)) is Some,
    decreases names.len(),
{
    if n < names.len() {
        assert(names.drop_last().take(n) =~= names.take(n));
        lemma_chain_prefix(reg, names.drop_last(), n);
    } else {
        assert(names.take(n) =~= names);
    }
}

/// The value behind an optional reference.
pub open spec fn derefs_opt(o: Option<&Command>) -> Option<Command> {
    match o {
        Some(c) => Some(*c),
        None => None,
    }
}

} // verus!
