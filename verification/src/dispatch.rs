//! Command resolution: which registered command, if any, a message invokes.

use std::collections::HashSet;
use vstd::prelude::*;
use crate::text::{chars_of, has_prefix};

verus! {

broadcast use vstd::std_specs::hash::group_hash_axioms;

/// A character that ends a command name inside a message.
pub open spec fn is_space(c: char) -> bool {
    c == ' ' || c == '\t' || c == '\n' || c == '\r'
}

/// `rest`, the text behind the prefix, invokes the command `name`: it begins
/// with the name, and the name ends at the end of the text or before white
/// space.
pub open spec fn invokes(name: Seq<char>, rest: Seq<char>) -> bool {
    name.is_prefix_of(rest) && (rest.len() == name.len() || is_space(rest[name.len() as int]))
}

/// A command group as plain values.
pub struct GroupView {
    pub name: Seq<char>,
    pub owners_only: bool,
    pub commands: Seq<Seq<char>>,
}

/// A dispatcher as plain values.
pub struct DispatcherView {
    pub prefix: Seq<char>,
    pub owners: Set<u64>,
    pub help: Seq<char>,
    pub groups: Seq<GroupView>,
}

/// What a message resolves to.
#[derive(Clone, Copy, Debug, PartialEq, Eq, Structural)]
pub enum Resolution {
    /// The message invokes nothing.
    Ignored,
    /// The message invokes the help command.
    Help,
    /// The message invokes the command at index `command` of the group at
    /// index `group`, and its author may run it.
    Command { group: usize, command: usize },
    /// The message invokes that command, which is for owners only, and its
    /// author is no owner.
    Rejected { group: usize, command: usize },
}

/// No command of `commands` before index `end` is invoked by `rest`.
pub open spec fn none_invoked_before(commands: Seq<Seq<char>>, rest: Seq<char>, end: int) -> bool {
    forall|c: int| 0 <= c < end && c < commands.len() ==> !invokes(#[trigger] commands[c], rest)
}

/// No command of a group before index `end` is invoked by `rest`.
pub open spec fn no_group_invoked_before(groups: Seq<GroupView>, rest: Seq<char>, end: int) -> bool {
    forall|g: int|
        0 <= g < end && g < groups.len() ==> none_invoked_before(
            (#[trigger] groups[g]).commands,
            rest,
            groups[g].commands.len() as int,
        )
}

/// Command `c` of group `g` is the first that `rest` invokes, in registration
/// order: groups first, then the commands of a group.
pub open spec fn is_first_match(groups: Seq<GroupView>, rest: Seq<char>, g: int, c: int) -> bool {
    &&& 0 <= g < groups.len()
    &&& 0 <= c < groups[g].commands.len()
    &&& invokes(groups[g].commands[c], rest)
    &&& none_invoked_before(groups[g].commands, rest, c)
    &&& no_group_invoked_before(groups, rest, g)
}

/// `resolution` is what `message`, written by `author`, resolves to.
///
/// A message that does not begin with the prefix is ignored. Behind the
/// prefix the help command is looked for first, then the first registered
/// command that the text invokes. A command of a group for owners only is
/// rejected for every other author.
pub open spec fn resolves(
    dispatcher: DispatcherView,
    message: Seq<char>,
    author: u64,
    resolution: Resolution,
) -> bool {
    let rest = message.skip(dispatcher.prefix.len() as int);
    if !dispatcher.prefix.is_prefix_of(message) {
        resolution == Resolution::Ignored
    } else if invokes(dispatcher.help, rest) {
        resolution == Resolution::Help
    } else {
        match resolution {
            Resolution::Ignored => no_group_invoked_before(
                dispatcher.groups,
                rest,
                dispatcher.groups.len() as int,
            ),
            Resolution::Help => false,
            Resolution::Command { group, command } => {
                &&& is_first_match(dispatcher.groups, rest, group as int, command as int)
                &&& dispatcher.groups[group as int].owners_only ==> dispatcher.owners.contains(
                    author,
                )
            },
            Resolution::Rejected { group, command } => {
                &&& is_first_match(dispatcher.groups, rest, group as int, command as int)
                &&& dispatcher.groups[group as int].owners_only
                &&& !dispatcher.owners.contains(author)
            },
        }
    }
}

/// Whether the text of `text` from index `from` on invokes the command `name`.
pub(crate) fn invoked_by(name: &Vec<char>, text: &Vec<char>, from: usize) -> (invoked: bool)
    requires
        from <= text.len(),
    ensures
        invoked == invokes(name@, text@.skip(from as int)),
{
    let ghost rest = text@.skip(from as int);
    if name.len() > text.len() - from {
        return false;
    }
    let mut i: usize = 0;
    while i < name.len()
        invariant
            from <= text.len(),
            i <= name.len() <= text.len() - from,
            rest == text@.skip(from as int),
            forall|j: int| 0 <= j < i ==> name@[j] == rest[j],
        decreases name.len() - i,
    {
        if name[i] != text[from + i] {
            assert(rest.subrange(0, name@.len() as int)[i as int] != name@[i as int]);
            return false;
        }
        i += 1;
    }
    assert(name@ =~= rest.subrange(0, name@.len() as int));
    if name.len() == text.len() - from {
        return true;
    }
    let next = text[from + name.len()];
    assert(next == rest[name@.len() as int]);
    next == ' ' || next == '\t' || next == '\n' || next == '\r'
}

/// A named bundle of commands that are registered together.
#[derive(Debug)]
pub struct CommandGroup {
    name: String,
    owners_only: bool,
    commands: Vec<Vec<char>>,
}

impl View for CommandGroup {
    type V = GroupView;

    closed spec fn view(&self) -> GroupView {
        GroupView {
            name: self.name@,
            owners_only: self.owners_only,
            commands: Seq::new(self.commands@.len(), |i: int| self.commands@[i]@),
        }
    }
}

impl CommandGroup {
    /// A group without commands. The commands of a group for owners only are
    /// rejected for every author who is no owner.
    pub fn new(name: &str, owners_only: bool) -> (group: CommandGroup)
        ensures
            group@ == (GroupView { name: name@, owners_only, commands: Seq::empty() }),
    {
        let group = CommandGroup {
            name: name.to_owned(),
            owners_only,
            commands: Vec::new(),
        };
        assert(group@.commands =~= Seq::empty());
        group
    }

    /// The group with one more command, registered behind those it has.
    pub fn command(self, name: &str) -> (group: CommandGroup)
        ensures
            group@ == (GroupView { commands: self@.commands.push(name@), ..self@ }),
    {
        let mut group = self;
        group.commands.push(chars_of(name));
        assert(group@.commands =~= self@.commands.push(name@));
        group
    }

    /// The name of the group.
    pub fn name(&self) -> (name: &str)
        ensures
            name@ == self@.name,
    {
        self.name.as_str()
    }

    /// Whether the commands of the group are for owners only.
    pub fn owners_only(&self) -> (flag: bool)
        ensures
            flag == self@.owners_only,
    {
        self.owners_only
    }

    /// The number of commands in the group.
    pub fn len(&self) -> (n: usize)
        ensures
            n == self@.commands.len(),
    {
        self.commands.len()
    }

    /// The index of the first command of the group that the text of `text`
    /// from index `from` on invokes.
    pub(crate) fn find(&self, text: &Vec<char>, from: usize) -> (found: Option<usize>)
        requires
            from <= text.len(),
        ensures
            match found {
                Some(c) => {
                    &&& c < self@.commands.len()
                    &&& invokes(self@.commands[c as int], text@.skip(from as int))
                    &&& none_invoked_before(self@.commands, text@.skip(from as int), c as int)
                },
                None => none_invoked_before(
                    self@.commands,
                    text@.skip(from as int),
                    self@.commands.len() as int,
                ),
            },
    {
        let mut c: usize = 0;
        while c < self.commands.len()
            invariant
                from <= text.len(),
                c <= self.commands.len(),
                none_invoked_before(self@.commands, text@.skip(from as int), c as int),
            decreases self.commands.len() - c,
        {
            if invoked_by(&self.commands[c], text, from) {
                return Some(c);
            }
            c += 1;
        }
        None
    }
}

/// The owner set that holds one owner.
pub fn owner_set(owner: u64) -> (owners: HashSet<u64>)
    ensures
        owners@ == Set::<u64>::empty().insert(owner),
{
    let mut owners: HashSet<u64> = HashSet::new();
    owners.insert(owner);
    owners
}

/// The registration table of a bot: its prefix, its owners, its help command
/// and its command groups in registration order.
pub struct Dispatcher {
    prefix: Vec<char>,
    owners: HashSet<u64>,
    help: Vec<char>,
    groups: Vec<CommandGroup>,
}

impl View for Dispatcher {
    type V = DispatcherView;

    closed spec fn view(&self) -> DispatcherView {
        DispatcherView {
            prefix: self.prefix@,
            owners: self.owners@,
            help: self.help@,
            groups: Seq::new(self.groups@.len(), |i: int| self.groups@[i]@),
        }
    }
}

impl Dispatcher {
    /// A dispatcher without command groups. `help` is the name of the help
    /// command.
    pub fn new(prefix: &str, owners: HashSet<u64>, help: &str) -> (dispatcher: Dispatcher)
        ensures
            dispatcher@ == (DispatcherView {
                prefix: prefix@,
                owners: owners@,
                help: help@,
                groups: Seq::empty(),
            }),
    {
        let dispatcher = Dispatcher {
            prefix: chars_of(prefix),
            owners,
            help: chars_of(help),
            groups: Vec::new(),
        };
        assert(dispatcher@.groups =~= Seq::empty());
        dispatcher
    }

    /// The dispatcher with one more group, registered behind those it has.
    pub fn group(self, group: CommandGroup) -> (dispatcher: Dispatcher)
        ensures
            dispatcher@ == (DispatcherView { groups: self@.groups.push(group@), ..self@ }),
    {
        let mut dispatcher = self;
        dispatcher.groups.push(group);
        assert(dispatcher@.groups =~= self@.groups.push(group@));
        dispatcher
    }

    /// Whether `user` is an owner.
    pub fn is_owner(&self, user: u64) -> (found: bool)
        ensures
            found == self@.owners.contains(user),
    {
        self.owners.contains(&user)
    }

    /// Resolves a message written by `author`.
    pub fn resolve(&self, message: &str, author: u64) -> (resolution: Resolution)
        ensures
            resolves(self@, message@, author, resolution),
    {
        let text = chars_of(message);
        if !has_prefix(&text, &self.prefix) {
            return Resolution::Ignored;
        }
        let from = self.prefix.len();
        let ghost rest = text@.skip(from as int);
        if invoked_by(&self.help, &text, from) {
            return Resolution::Help;
        }
        let mut g: usize = 0;
        while g < self.groups.len()
            invariant
                text@ == message@,
                from == self@.prefix.len(),
                self@.prefix.is_prefix_of(message@),
                g <= self.groups.len(),
                rest == text@.skip(from as int),
                !invokes(self@.help, rest),
                no_group_invoked_before(self@.groups, rest, g as int),
            decreases self.groups.len() - g,
        {
            let group = &self.groups[g];
            assert(self@.groups[g as int] == group@);
            match group.find(&text, from) {
                Some(c) => {
                    if group.owners_only() && !self.is_owner(author) {
                        return Resolution::Rejected { group: g, command: c };
                    }
                    return Resolution::Command { group: g, command: c };
                },
                None => {},
            }
            g += 1;
        }
        Resolution::Ignored
    }
}

/// Why a command failed.
#[derive(Debug)]
pub struct CommandError {
    pub detail: String,
}

/// What is logged of a command that failed.
#[derive(Debug)]
pub struct FailureReport {
    pub command: String,
    pub detail: String,
}

/// The hook that runs after every command. A command that failed gives a
/// report of its name and of the error; one that succeeded gives none. The
/// outcome itself is left as it is.
pub fn after_command(command: &str, outcome: &Result<(), CommandError>) -> (report: Option<
    FailureReport,
>)
    ensures
        match outcome {
            Ok(_) => report is None,
            Err(e) => report matches Some(r) && r.command@ == command@ && r.detail@ == e.detail@,
        },
{
    match outcome {
        Ok(_) => None,
        Err(e) => Some(FailureReport { command: command.to_owned(), detail: e.detail.clone() }),
    }
}

/// A message has at most one first match.
pub proof fn lemma_first_match_unique(
    groups: Seq<GroupView>,
    rest: Seq<char>,
    g1: int,
    c1: int,
    g2: int,
    c2: int,
)
    requires
        is_first_match(groups, rest, g1, c1),
        is_first_match(groups, rest, g2, c2),
    ensures
        g1 == g2,
        c1 == c2,
{
    if g1 < g2 {
        assert(none_invoked_before(groups[g1].commands, rest, groups[g1].commands.len() as int));
        assert(!invokes(groups[g1].commands[c1], rest));
    } else if g2 < g1 {
        assert(none_invoked_before(groups[g2].commands, rest, groups[g2].commands.len() as int));
        assert(!invokes(groups[g2].commands[c2], rest));
    } else if c1 < c2 {
        assert(!invokes(groups[g1].commands[c1], rest));
    } else if c2 < c1 {
        assert(!invokes(groups[g1].commands[c2], rest));
    }
}

/// A message resolves to one thing only: a message that invokes a registered
/// command is routed to exactly one.
pub proof fn lemma_resolution_unique(
    dispatcher: DispatcherView,
    message: Seq<char>,
    author: u64,
    first: Resolution,
    second: Resolution,
)
    requires
        resolves(dispatcher, message, author, first),
        resolves(dispatcher, message, author, second),
    ensures
        first == second,
{
    let rest = message.skip(dispatcher.prefix.len() as int);
    if dispatcher.prefix.is_prefix_of(message) && !invokes(dispatcher.help, rest) {
        let groups = dispatcher.groups;
        match (first, second) {
            (Resolution::Ignored, Resolution::Ignored) => {},
            (Resolution::Ignored, Resolution::Command { group, command })
            | (Resolution::Ignored, Resolution::Rejected { group, command })
            | (Resolution::Command { group, command }, Resolution::Ignored)
            | (Resolution::Rejected { group, command }, Resolution::Ignored) => {
                assert(none_invoked_before(
                    groups[group as int].commands,
                    rest,
                    groups[group as int].commands.len() as int,
                ));
                assert(!invokes(groups[group as int].commands[command as int], rest));
            },
            (Resolution::Command { group: g1, command: c1 }, Resolution::Command { group: g2, command: c2 })
            | (Resolution::Command { group: g1, command: c1 }, Resolution::Rejected { group: g2, command: c2 })
            | (Resolution::Rejected { group: g1, command: c1 }, Resolution::Command { group: g2, command: c2 })
            | (Resolution::Rejected { group: g1, command: c1 }, Resolution::Rejected { group: g2, command: c2 }) => {
                lemma_first_match_unique(groups, rest, g1 as int, c1 as int, g2 as int, c2 as int);
            },
            _ => {},
        }
    }
}

/// A message behind the prefix that invokes a registered command, and not
/// the help command, is routed to a command: to that one, or to one that was
/// registered before it and that the message invokes too.
pub proof fn lemma_first_registered_match_wins(
    dispatcher: DispatcherView,
    message: Seq<char>,
    author: u64,
    resolution: Resolution,
    group: int,
    command: int,
)
    requires
        dispatcher.prefix.is_prefix_of(message),
        !invokes(dispatcher.help, message.skip(dispatcher.prefix.len() as int)),
        0 <= group < dispatcher.groups.len(),
        0 <= command < dispatcher.groups[group].commands.len(),
        invokes(
            dispatcher.groups[group].commands[command],
            message.skip(dispatcher.prefix.len() as int),
        ),
        resolves(dispatcher, message, author, resolution),
    ensures
        match resolution {
            Resolution::Command { group: g, command: c }
            | Resolution::Rejected { group: g, command: c } => {
                &&& g < group || (g == group && c <= command)
                &&& invokes(
                    dispatcher.groups[g as int].commands[c as int],
                    message.skip(dispatcher.prefix.len() as int),
                )
            },
            _ => false,
        },
{
    let rest = message.skip(dispatcher.prefix.len() as int);
    let groups = dispatcher.groups;
    match resolution {
        Resolution::Ignored => {
            assert(none_invoked_before(
                groups[group].commands,
                rest,
                groups[group].commands.len() as int,
            ));
            assert(!invokes(groups[group].commands[command], rest));
        },
        Resolution::Help => {},
        Resolution::Command { group: g, command: c } | Resolution::Rejected { group: g, command: c } => {
            if group < g {
                assert(none_invoked_before(
                    groups[group].commands,
                    rest,
                    groups[group].commands.len() as int,
                ));
                assert(!invokes(groups[group].commands[command], rest));
            } else if group == g && command < c {
                assert(!invokes(groups[group].commands[command], rest));
            }
        },
    }
}

/// The prefix followed by the name of the help command resolves to the help
/// command, whatever groups are registered and in whatever order; so does
/// that text followed by white space and arguments.
pub proof fn lemma_help_resolves_to_help(
    dispatcher: DispatcherView,
    arguments: Seq<char>,
    author: u64,
    resolution: Resolution,
)
    requires
        arguments.len() == 0 || is_space(arguments[0]),
        resolves(
            dispatcher,
            dispatcher.prefix + dispatcher.help + arguments,
            author,
            resolution,
        ),
    ensures
        resolution == Resolution::Help,
{
    let message = dispatcher.prefix + dispatcher.help + arguments;
    let rest = message.skip(dispatcher.prefix.len() as int);
    assert(dispatcher.prefix =~= message.subrange(0, dispatcher.prefix.len() as int));
    assert(rest =~= dispatcher.help + arguments);
    assert(dispatcher.help =~= rest.subrange(0, dispatcher.help.len() as int));
}

/// A message that does not begin with the prefix invokes no command.
pub proof fn lemma_unprefixed_message_is_ignored(
    dispatcher: DispatcherView,
    message: Seq<char>,
    author: u64,
    resolution: Resolution,
)
    requires
        !dispatcher.prefix.is_prefix_of(message),
        resolves(dispatcher, message, author, resolution),
    ensures
        resolution == Resolution::Ignored,
{
}

/// A message whose first match is a command for owners only, written by an
/// author who is no owner, is rejected and never run. The first match
/// decides: where the help command, or a command registered earlier in a
/// group that is open to all, answers to the same text, that one is invoked.
pub proof fn lemma_non_owner_is_rejected(
    dispatcher: DispatcherView,
    message: Seq<char>,
    author: u64,
    resolution: Resolution,
    group: int,
    command: int,
)
    requires
        dispatcher.prefix.is_prefix_of(message),
        !invokes(dispatcher.help, message.skip(dispatcher.prefix.len() as int)),
        is_first_match(
            dispatcher.groups,
            message.skip(dispatcher.prefix.len() as int),
            group,
            command,
        ),
        dispatcher.groups[group].owners_only,
        !dispatcher.owners.contains(author),
        resolves(dispatcher, message, author, resolution),
    ensures
        resolution == (Resolution::Rejected { group: group as usize, command: command as usize }),
{
    let rest = message.skip(dispatcher.prefix.len() as int);
    match resolution {
        Resolution::Ignored => {
            assert(none_invoked_before(
                dispatcher.groups[group].commands,
                rest,
                dispatcher.groups[group].commands.len() as int,
            ));
            assert(!invokes(dispatcher.groups[group].commands[command], rest));
        },
        Resolution::Help => {},
        Resolution::Command { group: g, command: c } | Resolution::Rejected { group: g, command: c } => {
            lemma_first_match_unique(dispatcher.groups, rest, group, command, g as int, c as int);
        },
    }
}

/// A command that resolution lets run is open to its author: its group is
/// not for owners only, or the author is an owner.
pub proof fn lemma_run_command_is_permitted(
    dispatcher: DispatcherView,
    message: Seq<char>,
    author: u64,
    group: usize,
    command: usize,
)
    requires
        resolves(dispatcher, message, author, Resolution::Command { group, command }),
    ensures
        0 <= group < dispatcher.groups.len(),
        dispatcher.groups[group as int].owners_only ==> dispatcher.owners.contains(author),
{
}

} // verus!
