use vstd::prelude::*;

verus! {

/// The two shapes a command handler can have.
#[derive(Debug)]
pub enum Callable<H> {
    /// A handler that takes no arguments.
    Simple(H),
    /// A handler that takes the list of arguments.
    WithArgs(H),
}

/// A registered command.
#[derive(Debug)]
pub struct Command<H> {
    pub name: String,
    pub description: Option<String>,
    pub callable: Callable<H>,
    pub min_args: Option<usize>,
}

/// An alternate name for a command.
#[derive(Debug)]
pub struct Alias {
    pub name: String,
    pub target: String,
}

/// `add_command` was given a name that is already a command or an alias.
#[derive(Clone, Copy, Debug, PartialEq, Eq, Structural)]
pub struct DuplicateCommandError;

/// Why `add_alias` refused an alias.
#[derive(Clone, Copy, Debug, PartialEq, Eq, Structural)]
pub enum AliasError {
    /// The alias name is already a command or an alias.
    NameTaken,
    /// The alias would point at an alias, or be pointed at by one.
    Chained,
}

/// What the registry decides for one command name and its arguments.
#[derive(Clone, Copy, Debug, PartialEq, Eq, Structural)]
pub enum Outcome {
    /// No command answers to the name, even after alias resolution.
    Unknown,
    /// The command wants more arguments than were given; it is not run.
    TooFewArgs { required: usize, given: usize },
    /// Run the handler of the command at this position, once, with the
    /// arguments as given.
    Invoke { index: usize },
}

/// Text shown in the command listing for a command without a description.
pub const NO_DESCRIPTION: &'static str = "No description available.";

/// No text occurs twice in `s`.
pub open spec fn unique(s: Seq<Seq<char>>) -> bool {
    forall|i: int, j: int| 0 <= i < j < s.len() ==> s[i] != s[j]
}

/// Where `x` stands in `s`, if anywhere.
pub open spec fn position(s: Seq<Seq<char>>, x: Seq<char>) -> Option<int> {
    if exists|i: int| 0 <= i < s.len() && s[i] == x {
        Some(choose|i: int| 0 <= i < s.len() && s[i] == x)
    } else {
        None
    }
}

/// In a list without repeats, the position of an item is its index.
pub proof fn lemma_position_at(s: Seq<Seq<char>>, i: int)
    requires
        unique(s),
        0 <= i < s.len(),
    ensures
        position(s, s[i]) == Some(i),
{
    let j = choose|j: int| 0 <= j < s.len() && s[j] == s[i];
    if j < i {
        assert(s[j] != s[i]);
    } else if i < j {
        assert(s[i] != s[j]);
    }
}

/// The text of an optional description.
pub open spec fn description_view(d: Option<String>) -> Option<Seq<char>> {
    match d {
        Some(s) => Some(s@),
        None => None,
    }
}

/// The text of an optional description given as a string slice.
pub open spec fn description_arg_view(d: Option<&str>) -> Option<Seq<char>> {
    match d {
        Some(s) => Some(s@),
        None => None,
    }
}

/// The description shown for a command in the listing.
pub open spec fn shown_description(d: Option<String>) -> Seq<char> {
    match d {
        Some(s) => s@,
        None => NO_DESCRIPTION@,
    }
}

/// The registry of commands and aliases.
pub struct CommandList<H> {
    pub commands: Vec<Command<H>>,
    pub aliases: Vec<Alias>,
}

impl<H> CommandList<H> {
    /// Command names, in the order of registration.
    pub open spec fn names(&self) -> Seq<Seq<char>> {
        self.commands@.map_values(|c: Command<H>| c.name@)
    }

    /// Alias names, in the order of registration.
    pub open spec fn alias_names(&self) -> Seq<Seq<char>> {
        self.aliases@.map_values(|a: Alias| a.name@)
    }

    /// Alias targets, in the order of registration.
    pub open spec fn alias_targets(&self) -> Seq<Seq<char>> {
        self.aliases@.map_values(|a: Alias| a.target@)
    }

    /// `x` is a command name or an alias name.
    pub open spec fn is_taken(&self, x: Seq<char>) -> bool {
        self.names().contains(x) || self.alias_names().contains(x)
    }

    /// Names are unique across commands and aliases, and no alias points at
    /// an alias.
    pub open spec fn wf(&self) -> bool {
        &&& unique(self.names())
        &&& unique(self.alias_names())
        &&& forall|i: int, j: int|
            0 <= i < self.aliases@.len() && 0 <= j < self.commands@.len() ==> self.alias_names()[i]
                != self.names()[j]
        &&& forall|i: int, j: int|
            0 <= i < self.aliases@.len() && 0 <= j < self.aliases@.len() ==> self.alias_targets()[i]
                != self.alias_names()[j]
    }

    /// The canonical name for `name`: the target of its alias, or itself.
    pub open spec fn resolve(&self, name: Seq<char>) -> Seq<char> {
        match position(self.alias_names(), name) {
            Some(j) => self.alias_targets()[j],
            None => name,
        }
    }

    /// The least number of arguments that the command at `i` takes.
    pub open spec fn required(&self, i: int) -> nat {
        match self.commands@[i].min_args {
            Some(m) => m as nat,
            None => 0,
        }
    }

    /// What running `name` with `given` arguments comes to.
    pub open spec fn outcome(&self, name: Seq<char>, given: nat) -> Outcome {
        match position(self.names(), self.resolve(name)) {
            None => Outcome::Unknown,
            Some(i) => if given < self.required(i) {
                Outcome::TooFewArgs { required: self.required(i) as usize, given: given as usize }
            } else {
                Outcome::Invoke { index: i as usize }
            },
        }
    }

    /// An empty registry.
    pub fn new() -> (r: CommandList<H>)
        ensures
            r.commands@.len() == 0,
            r.aliases@.len() == 0,
            r.wf(),
    {
        CommandList { commands: Vec::new(), aliases: Vec::new() }
    }

    /// The position of the command called `name`, if there is one.
    pub fn find_command(&self, name: &String) -> (r: Option<usize>)
        requires
            self.wf(),
        ensures
            r matches Some(i) ==> position(self.names(), name@) == Some(i as int),
            r is None ==> position(self.names(), name@) is None,
    {
        let mut i: usize = 0;
        while i < self.commands.len()
            invariant
                self.wf(),
                i <= self.commands@.len(),
                forall|j: int| 0 <= j < i ==> self.names()[j] != name@,
            decreases self.commands@.len() - i,
        {
            if self.commands[i].name == *name {
                proof {
                    lemma_position_at(self.names(), i as int);
                }
                return Some(i);
            }
            i += 1;
        }
        None
    }

    /// The position of the alias called `name`, if there is one.
    pub fn find_alias(&self, name: &String) -> (r: Option<usize>)
        requires
            self.wf(),
        ensures
            r matches Some(i) ==> position(self.alias_names(), name@) == Some(i as int),
            r is None ==> position(self.alias_names(), name@) is None,
    {
        let mut i: usize = 0;
        while i < self.aliases.len()
            invariant
                self.wf(),
                i <= self.aliases@.len(),
                forall|j: int| 0 <= j < i ==> self.alias_names()[j] != name@,
            decreases self.aliases@.len() - i,
        {
            if self.aliases[i].name == *name {
                proof {
                    lemma_position_at(self.alias_names(), i as int);
                }
                return Some(i);
            }
            i += 1;
        }
        None
    }

    /// An alias from `alias` to `target` would form a chain: it would point
    /// at an alias or at itself, or an alias already points at `alias`.
    pub open spec fn chains(&self, alias: Seq<char>, target: Seq<char>) -> bool {
        ||| alias == target
        ||| self.alias_names().contains(target)
        ||| self.alias_targets().contains(alias)
    }

    /// Decides whether some alias points at `name`.
    fn is_alias_target(&self, name: &String) -> (r: bool)
        ensures
            r == self.alias_targets().contains(name@),
    {
        let mut i: usize = 0;
        while i < self.aliases.len()
            invariant
                i <= self.aliases@.len(),
                forall|j: int| 0 <= j < i ==> self.alias_targets()[j] != name@,
            decreases self.aliases@.len() - i,
        {
            if self.aliases[i].target == *name {
                assert(self.alias_targets()[i as int] == name@);
                return true;
            }
            i += 1;
        }
        false
    }

    /// Registers a command. A name that is already a command or an alias is
    /// refused and the registry stays as it was.
    pub fn add_command(
        &mut self,
        name: &str,
        description: Option<&str>,
        callable: Callable<H>,
        min_args: Option<usize>,
    ) -> (r: Result<(), DuplicateCommandError>)
        requires
            old(self).wf(),
        ensures
            final(self).wf(),
            r is Err <==> old(self).is_taken(name@),
            r is Err ==> *final(self) == *old(self),
            r is Ok ==> {
                &&& final(self).aliases == old(self).aliases
                &&& final(self).commands@.len() == old(self).commands@.len() + 1
                &&& final(self).commands@.drop_last() == old(self).commands@
                &&& final(self).commands@.last().name@ == name@
                &&& final(self).names() == old(self).names().push(name@)
                &&& description_view(final(self).commands@.last().description)
                    == description_arg_view(description)
                &&& final(self).commands@.last().callable == callable
                &&& final(self).commands@.last().min_args == min_args
            },
    {
        let n = String::from_str(name);
        if self.find_command(&n).is_some() || self.find_alias(&n).is_some() {
            return Err(DuplicateCommandError);
        }
        let d = match description {
            Some(d) => Some(String::from_str(d)),
            None => None,
        };
        let ghost before = self.commands@;
        self.commands.push(Command { name: n, description: d, callable, min_args });
        proof {
            let nm = self.names();
            let m = before.len() as int;
            assert(nm =~= old(self).names().push(n@));
            assert(self.commands@.drop_last() =~= before);
            assert forall|i: int, j: int| 0 <= i < j < nm.len() implies nm[i] != nm[j] by {
                if j < m {
                    assert(old(self).names()[i] != old(self).names()[j]);
                } else {
                    assert(old(self).names()[i] == nm[i]);
                }
            }
            assert forall|i: int, j: int|
                0 <= i < self.aliases@.len() && 0 <= j < nm.len() implies self.alias_names()[i]
                != nm[j] by {
                if j < m {
                    assert(old(self).alias_names()[i] != old(self).names()[j]);
                } else {
                    assert(old(self).alias_names()[i] == self.alias_names()[i]);
                }
            }
            assert(unique(self.alias_names()));
            assert(self.alias_targets() == old(self).alias_targets());
            assert(self.wf());
        }
        Ok(())
    }

    /// Registers `alias` as another name for `target`. The target need not
    /// be registered yet. A name that is already taken, and an alias that
    /// would form a chain, are refused and the registry stays as it was.
    pub fn add_alias(&mut self, alias: &str, target: &str) -> (r: Result<(), AliasError>)
        requires
            old(self).wf(),
        ensures
            final(self).wf(),
            old(self).is_taken(alias@) ==> r == Err::<(), AliasError>(AliasError::NameTaken),
            !old(self).is_taken(alias@) && old(self).chains(alias@, target@) ==> r == Err::<
                (),
                AliasError,
            >(AliasError::Chained),
            r is Err ==> *final(self) == *old(self),
            r is Ok ==> {
                &&& final(self).commands == old(self).commands
                &&& final(self).aliases@.len() == old(self).aliases@.len() + 1
                &&& final(self).aliases@.drop_last() == old(self).aliases@
                &&& final(self).aliases@.last().name@ == alias@
                &&& final(self).aliases@.last().target@ == target@
                &&& final(self).alias_names() == old(self).alias_names().push(alias@)
                &&& final(self).alias_targets() == old(self).alias_targets().push(target@)
            },
            !old(self).is_taken(alias@) && !old(self).chains(alias@, target@) ==> r is Ok,
    {
        let a = String::from_str(alias);
        let t = String::from_str(target);
        if self.find_command(&a).is_some() || self.find_alias(&a).is_some() {
            return Err(AliasError::NameTaken);
        }
        if a == t || self.find_alias(&t).is_some() || self.is_alias_target(&a) {
            return Err(AliasError::Chained);
        }
        let ghost before = self.aliases@;
        self.aliases.push(Alias { name: a, target: t });
        proof {
            assert(self.alias_names() =~= old(self).alias_names().push(a@));
            assert(self.alias_targets() =~= old(self).alias_targets().push(t@));
            assert(self.aliases@.drop_last() =~= before);
            let an = self.alias_names();
            let at = self.alias_targets();
            let m = old(self).aliases@.len() as int;
            assert forall|j: int| 0 <= j < m implies an[j] != a@ && old(self).alias_targets()[j]
                != a@ && an[j] != t@ by {
                assert(old(self).alias_names()[j] == an[j]);
            }
            assert forall|j: int| 0 <= j < self.commands@.len() implies self.names()[j] != a@ by {}
            assert forall|i: int, j: int| 0 <= i < j < an.len() implies an[i] != an[j] by {
                if j < m {
                    assert(old(self).alias_names()[i] != old(self).alias_names()[j]);
                }
            }
            assert(unique(an));
            assert forall|i: int, j: int|
                0 <= i < an.len() && 0 <= j < self.commands@.len() implies an[i]
                != self.names()[j] by {
                if i < m {
                    assert(old(self).alias_names()[i] != old(self).names()[j]);
                }
            }
            assert forall|i: int, j: int|
                0 <= i < an.len() && 0 <= j < an.len() implies at[i] != an[j] by {
                if i < m && j < m {
                    assert(old(self).alias_targets()[i] != old(self).alias_names()[j]);
                }
            }
        }
        Ok(())
    }

    /// Decides what running `name` with `args` comes to: the name goes
    /// through the alias table once, then is looked up among the commands,
    /// and the arguments are counted against the command's minimum.
    pub fn execute_command(&self, name: &String, args: &Vec<String>) -> (r: Outcome)
        requires
            self.wf(),
        ensures
            r == self.outcome(name@, args@.len()),
    {
        let canonical: &String = match self.find_alias(name) {
            Some(j) => &self.aliases[j].target,
            None => name,
        };
        match self.find_command(canonical) {
            None => Outcome::Unknown,
            Some(i) => {
                let required: usize = match self.commands[i].min_args {
                    Some(m) => m,
                    None => 0,
                };
                if args.len() < required {
                    Outcome::TooFewArgs { required, given: args.len() }
                } else {
                    Outcome::Invoke { index: i }
                }
            },
        }
    }

    /// The listing of every command: its name and its description, or a
    /// placeholder where it has none, in the order of registration.
    pub fn help(&self) -> (r: Vec<(String, String)>)
        ensures
            r@.len() == self.commands@.len(),
            forall|i: int|
                0 <= i < r@.len() ==> (#[trigger] r@[i]).0@ == self.names()[i] && r@[i].1@
                    == shown_description(self.commands@[i].description),
    {
        let mut out: Vec<(String, String)> = Vec::new();
        let mut i: usize = 0;
        while i < self.commands.len()
            invariant
                i <= self.commands@.len(),
                out@.len() == i,
                forall|j: int|
                    0 <= j < i ==> (#[trigger] out@[j]).0@ == self.names()[j] && out@[j].1@
                        == shown_description(self.commands@[j].description),
            decreases self.commands@.len() - i,
        {
            let c = &self.commands[i];
            let d = match &c.description {
                Some(d) => d.clone(),
                None => String::from_str(NO_DESCRIPTION),
            };
            out.push((c.name.clone(), d));
            i += 1;
        }
        out
    }
}

/// Running a command under its own registered name, with at least as many
/// arguments as it asks for, invokes that command's handler and no other.
pub proof fn lemma_registered_name_invokes<H>(list: &CommandList<H>, i: int, given: nat)
    requires
        list.wf(),
        0 <= i < list.commands@.len(),
        given >= list.required(i),
    ensures
        list.outcome(list.names()[i], given) == (Outcome::Invoke { index: i as usize }),
{
    lemma_resolve_command_name(list, i);
    lemma_position_at(list.names(), i);
}

/// A command name is not an alias, so it resolves to itself.
pub proof fn lemma_resolve_command_name<H>(list: &CommandList<H>, i: int)
    requires
        list.wf(),
        0 <= i < list.commands@.len(),
    ensures
        list.resolve(list.names()[i]) == list.names()[i],
{
    assert forall|j: int| 0 <= j < list.alias_names().len() implies list.alias_names()[j]
        != list.names()[i] by {}
}

/// Running an alias of a registered command comes to the same as running
/// the command under its own name, for any number of arguments.
pub proof fn lemma_alias_same_as_target<H>(list: &CommandList<H>, j: int, given: nat)
    requires
        list.wf(),
        0 <= j < list.aliases@.len(),
        list.names().contains(list.alias_targets()[j]),
    ensures
        list.outcome(list.alias_names()[j], given) == list.outcome(list.alias_targets()[j], given),
{
    lemma_position_at(list.alias_names(), j);
    let t = list.alias_targets()[j];
    assert forall|k: int| 0 <= k < list.alias_names().len() implies list.alias_names()[k]
        != t by {}
    assert(list.resolve(t) == t);
}

/// A name that is neither a command nor an alias invokes no handler.
pub proof fn lemma_unknown_name<H>(list: &CommandList<H>, name: Seq<char>, given: nat)
    requires
        list.wf(),
        !list.names().contains(name),
        !list.alias_names().contains(name),
    ensures
        list.outcome(name, given) == Outcome::Unknown,
{
}

/// A command that asks for at least one argument is not run without
/// arguments, and is run when given one or more.
pub proof fn lemma_min_one_arg<H>(list: &CommandList<H>, i: int, given: nat)
    requires
        list.wf(),
        0 <= i < list.commands@.len(),
        list.commands@[i].min_args == Some(1usize),
    ensures
        list.outcome(list.names()[i], 0) == (Outcome::TooFewArgs { required: 1, given: 0 }),
        given >= 1 ==> list.outcome(list.names()[i], given) == (Outcome::Invoke {
            index: i as usize,
        }),
{
    lemma_resolve_command_name(list, i);
    lemma_position_at(list.names(), i);
}

} // verus!
