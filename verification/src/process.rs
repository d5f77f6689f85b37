//! The attributes of a process to be started: what to run, where, with
//! which arguments and in which environment.
use vstd::prelude::*;

verus! {

/// One environment variable: its name and its value.
pub type EnvEntry = (Seq<char>, Seq<char>);

/// The names and values that `entries` hold, as character sequences.
pub open spec fn entries_view(entries: Seq<(String, String)>) -> Seq<EnvEntry> {
    Seq::new(entries.len(), |i: int| (entries[i].0@, entries[i].1@))
}

/// The texts that `strings` hold, as character sequences.
pub open spec fn strings_view(strings: Seq<String>) -> Seq<Seq<char>> {
    Seq::new(strings.len(), |i: int| strings[i]@)
}

/// Whether no name occurs twice among `entries`.
pub open spec fn names_distinct(entries: Seq<EnvEntry>) -> bool {
    forall|i: int, j: int| 0 <= i < j < entries.len() ==> entries[i].0 != entries[j].0
}

/// The index of the entry named `name`, looking from index `from` on.
pub open spec fn name_index(entries: Seq<EnvEntry>, name: Seq<char>, from: int) -> Option<int>
    decreases entries.len() - from,
{
    if from < 0 || from >= entries.len() {
        None
    } else if entries[from].0 == name {
        Some(from)
    } else {
        name_index(entries, name, from + 1)
    }
}

/// The environment `entries` with `name` set to `value`: the entry of that
/// name has its value replaced, and stays where it was; where there is
/// none, a new entry follows the others.
pub open spec fn with_variable(entries: Seq<EnvEntry>, name: Seq<char>, value: Seq<char>) -> Seq<
    EnvEntry,
> {
    match name_index(entries, name, 0) {
        Some(i) => entries.update(i, (name, value)),
        None => entries.push((name, value)),
    }
}

/// The environment that setting the first `n` of `pairs`, one after the
/// other, gives. A name that occurs again takes its later value.
pub open spec fn environment_of(pairs: Seq<EnvEntry>, n: nat) -> Seq<EnvEntry>
    decreases n,
{
    if n == 0 {
        Seq::empty()
    } else {
        with_variable(environment_of(pairs, (n - 1) as nat), pairs[n - 1].0, pairs[n - 1].1)
    }
}

/// What the entry found by [`name_index`] is: the first of that name at or
/// after `from`; and that no entry there has the name where none is found.
pub proof fn lemma_name_index(entries: Seq<EnvEntry>, name: Seq<char>, from: int)
    requires
        0 <= from,
    ensures
        match name_index(entries, name, from) {
            Some(i) => from <= i < entries.len() && entries[i].0 == name,
            None => forall|j: int| from <= j < entries.len() ==> entries[j].0 != name,
        },
    decreases entries.len() - from,
{
    if from < entries.len() && entries[from].0 != name {
        lemma_name_index(entries, name, from + 1);
    }
}

/// Setting a variable keeps the names distinct, and afterwards the name has
/// the value.
pub proof fn lemma_with_variable(entries: Seq<EnvEntry>, name: Seq<char>, value: Seq<char>)
    requires
        names_distinct(entries),
    ensures
        names_distinct(with_variable(entries, name, value)),
        exists|i: int|
            0 <= i < with_variable(entries, name, value).len() && with_variable(
                entries,
                name,
                value,
            )[i] == (name, value),
{
    lemma_name_index(entries, name, 0);
    let after = with_variable(entries, name, value);
    match name_index(entries, name, 0) {
        Some(i) => {
            assert(after[i] == (name, value));
        },
        None => {
            assert(after[entries.len() as int] == (name, value));
        },
    }
}

/// Every environment built by setting variables has distinct names.
pub proof fn lemma_environment_distinct(pairs: Seq<EnvEntry>, n: nat)
    ensures
        names_distinct(environment_of(pairs, n)),
    decreases n,
{
    if n > 0 {
        lemma_environment_distinct(pairs, (n - 1) as nat);
        lemma_with_variable(
            environment_of(pairs, (n - 1) as nat),
            pairs[n - 1].0,
            pairs[n - 1].1,
        );
    }
}

/// What UTF-16 encoding makes of `text`.
pub uninterp spec fn utf16_encoding(text: Seq<char>) -> Seq<u16>;

/// How `text` reads between double quotes with what needs it escaped, as
/// the `Debug` form of a string has it.
pub uninterp spec fn quoted(text: Seq<char>) -> Seq<char>;

/// Calls `str::encode_utf16` and collects the units. Trusted: the units
/// depend on the text alone.
#[verifier::external_body]
fn encode_utf16(text: &str) -> (r: Vec<u16>)
    ensures
        r@ == utf16_encoding(text@),
{
    text.encode_utf16().collect()
}

/// Formats the text with `{:?}`, the `Debug` form of `str`. Trusted: the
/// result depends on the text alone.
#[verifier::external_body]
fn debug_quote(text: &str) -> (r: String)
    ensures
        r@ == quoted(text@),
{
    format!("{:?}", text)
}

/// One variable of an environment block: `name=value` and a zero
/// character, in UTF-16.
pub open spec fn block_entry(entry: EnvEntry) -> Seq<u16> {
    utf16_encoding(entry.0 + seq!['='] + entry.1 + seq!['\0'])
}

/// The first `n` variables of an environment block, one after the other.
pub open spec fn block_entries(entries: Seq<EnvEntry>, n: nat) -> Seq<u16>
    decreases n,
{
    if n == 0 {
        Seq::empty()
    } else {
        block_entries(entries, (n - 1) as nat) + block_entry(entries[n - 1])
    }
}

/// The environment block of `entries`: every variable in turn, then one
/// more zero unit. The block of no variables is two zero units.
pub open spec fn environment_block(entries: Seq<EnvEntry>) -> Seq<u16> {
    if entries.len() == 0 {
        seq![0u16, 0u16]
    } else {
        block_entries(entries, entries.len()) + seq![0u16]
    }
}

/// The environment block of `env`, as a process is given it: UTF-16, every
/// variable as `name=value` with a zero unit after it, in the order of
/// `env`, and a zero unit at the end.
pub fn environment_block_unicode(env: Vec<(String, String)>) -> (r: Vec<u16>)
    ensures
        r@ == environment_block(entries_view(env@)),
{
    block_of_entries(&env)
}

/// The environment block of `env`.
fn block_of_entries(env: &Vec<(String, String)>) -> (r: Vec<u16>)
    ensures
        r@ == environment_block(entries_view(env@)),
{
    if env.len() == 0 {
        let mut none: Vec<u16> = Vec::new();
        none.push(0);
        none.push(0);
        assert(none@ =~= seq![0u16, 0u16]);
        return none;
    }
    let mut b: Vec<u16> = Vec::new();
    let mut i: usize = 0;
    while i < env.len()
        invariant
            i <= env@.len(),
            b@ == block_entries(entries_view(env@), i as nat),
        decreases env@.len() - i,
    {
        let mut part = String::from_str(env[i].0.as_str());
        proof {
            reveal_strlit("=");
            reveal_strlit("\0");
        }
        part.append("=");
        part.append(env[i].1.as_str());
        part.append("\0");
        assert(part@ =~= env@[i as int].0@ + seq!['='] + env@[i as int].1@ + seq!['\0']);
        let mut units = encode_utf16(part.as_str());
        b.append(&mut units);
        i = i + 1;
    }
    b.push(0);
    b
}

/// The attributes of a process to be started.
#[derive(Debug)]
pub struct ProcAttr {
    application: Option<String>,
    commandline: Option<String>,
    current_dir: Option<String>,
    args: Vec<String>,
    env: Option<Vec<(String, String)>>,
}

/// What a [`ProcAttr`] holds.
pub struct ProcAttrView {
    /// The path of the binary to run.
    pub application: Option<Seq<char>>,
    /// The command line.
    pub commandline: Option<Seq<char>>,
    /// The directory in which the process starts.
    pub current_dir: Option<Seq<char>>,
    /// The arguments, in order.
    pub args: Seq<Seq<char>>,
    /// The environment; without one, the process inherits its parent's.
    pub env: Option<Seq<EnvEntry>>,
}

impl View for ProcAttr {
    type V = ProcAttrView;

    closed spec fn view(&self) -> ProcAttrView {
        ProcAttrView {
            application: match self.application {
                Some(s) => Some(s@),
                None => None,
            },
            commandline: match self.commandline {
                Some(s) => Some(s@),
                None => None,
            },
            current_dir: match self.current_dir {
                Some(s) => Some(s@),
                None => None,
            },
            args: strings_view(self.args@),
            env: match self.env {
                Some(e) => Some(entries_view(e@)),
                None => None,
            },
        }
    }
}

/// The attributes that name nothing: no application, no command line, no
/// directory, no arguments and no environment.
pub open spec fn no_attributes() -> ProcAttrView {
    ProcAttrView {
        application: None,
        commandline: None,
        current_dir: None,
        args: Seq::empty(),
        env: None,
    }
}

impl Default for ProcAttr {
    fn default() -> (r: ProcAttr)
        ensures
            r@ == no_attributes(),
    {
        let r = ProcAttr {
            application: None,
            commandline: None,
            current_dir: None,
            args: Vec::new(),
            env: None,
        };
        assert(r@.args =~= Seq::<Seq<char>>::empty());
        r
    }
}

/// Sets `name` to `value` in `env`.
#[verifier::loop_isolation(false)]
fn set_variable(env: &mut Vec<(String, String)>, name: String, value: String)
    requires
        names_distinct(entries_view(old(env)@)),
    ensures
        entries_view(final(env)@) == with_variable(entries_view(old(env)@), name@, value@),
        names_distinct(entries_view(final(env)@)),
{
    let ghost before = entries_view(env@);
    proof {
        lemma_name_index(before, name@, 0);
        lemma_with_variable(before, name@, value@);
    }
    let mut i: usize = 0;
    while i < env.len()
        invariant
            i <= env@.len(),
            before == entries_view(env@),
            name_index(before, name@, 0) == name_index(before, name@, i as int),
        decreases env@.len() - i,
    {
        if env[i].0 == name {
            env.set(i, (name, value));
            assert(entries_view(env@) =~= before.update(i as int, (name@, value@)));
            return ;
        }
        i = i + 1;
    }
    env.push((name, value));
    assert(entries_view(env@) =~= before.push((name@, value@)));
}

impl ProcAttr {
    #[verifier::type_invariant]
    spec fn names_occur_once(self) -> bool {
        match self.env {
            Some(e) => names_distinct(entries_view(e@)),
            None => true,
        }
    }

    /// The attributes that run the batch file `file` in the command
    /// interpreter `interpreter`.
    pub fn batch_in(interpreter: &str, file: &str) -> (r: ProcAttr)
        ensures
            r@ == (ProcAttrView {
                application: Some(interpreter@),
                commandline: Some("/C "@ + quoted(file@)),
                ..no_attributes()
            }),
    {
        let mut args = String::from_str("/C ");
        let file_quoted = debug_quote(file);
        args.append(file_quoted.as_str());
        ProcAttr::default().application(interpreter).commandline(args.as_str())
    }

    /// The attributes that run `commandline` from `cmd.exe`.
    pub fn cmd(commandline: &str) -> (r: ProcAttr)
        ensures
            r@ == (ProcAttrView {
                commandline: Some("cmd /C "@ + commandline@),
                ..no_attributes()
            }),
    {
        let mut args = String::from_str("cmd /C ");
        args.append(commandline);
        ProcAttr::default().commandline(args.as_str())
    }

    /// Sets the command line.
    pub fn commandline(self, cmd: &str) -> (r: ProcAttr)
        ensures
            r@ == (ProcAttrView { commandline: Some(cmd@), ..self@ }),
    {
        proof {
            use_type_invariant(&self);
        }
        let mut attr = self;
        attr.commandline = Some(String::from_str(cmd));
        attr
    }

    /// Sets the application, the path of a binary.
    pub fn application(self, application: &str) -> (r: ProcAttr)
        ensures
            r@ == (ProcAttrView { application: Some(application@), ..self@ }),
    {
        proof {
            use_type_invariant(&self);
        }
        let mut attr = self;
        attr.application = Some(String::from_str(application));
        attr
    }

    /// Sets the directory in which the process starts.
    pub fn current_dir(self, dir: &str) -> (r: ProcAttr)
        ensures
            r@ == (ProcAttrView { current_dir: Some(dir@), ..self@ }),
    {
        proof {
            use_type_invariant(&self);
        }
        let mut attr = self;
        attr.current_dir = Some(String::from_str(dir));
        attr
    }

    /// Sets the arguments of the process to `args`.
    pub fn args(self, args: Vec<String>) -> (r: ProcAttr)
        ensures
            r@ == (ProcAttrView { args: strings_view(args@), ..self@ }),
    {
        proof {
            use_type_invariant(&self);
        }
        let mut attr = self;
        attr.args = args;
        attr
    }

    /// Adds an argument after those that the process has.
    pub fn arg(self, arg: &str) -> (r: ProcAttr)
        ensures
            r@ == (ProcAttrView { args: self@.args.push(arg@), ..self@ }),
    {
        proof {
            use_type_invariant(&self);
        }
        let ProcAttr { application, commandline, current_dir, mut args, env } = self;
        let ghost before = strings_view(args@);
        args.push(String::from_str(arg));
        assert(strings_view(args@) =~= before.push(arg@));
        ProcAttr { application, commandline, current_dir, args, env }
    }

    /// Sets the environment of the process to the variables of `env`, set
    /// one after the other: a name that occurs again takes its later value.
    /// Without an environment the process inherits that of its parent.
    pub fn envs(self, env: Vec<(String, String)>) -> (r: ProcAttr)
        ensures
            r@ == (ProcAttrView {
                env: Some(environment_of(entries_view(env@), env@.len())),
                ..self@
            }),
            names_distinct(r@.env.unwrap()),
    {
        proof {
            use_type_invariant(&self);
        }
        let mut set: Vec<(String, String)> = Vec::new();
        let mut i: usize = 0;
        assert(entries_view(set@) =~= environment_of(entries_view(env@), 0));
        while i < env.len()
            invariant
                i <= env@.len(),
                entries_view(set@) == environment_of(entries_view(env@), i as nat),
                names_distinct(entries_view(set@)),
            decreases env@.len() - i,
        {
            set_variable(&mut set, env[i].0.clone(), env[i].1.clone());
            i = i + 1;
        }
        let mut attr = self;
        attr.env = Some(set);
        attr
    }

    /// Sets one variable of the environment of the process. Where the
    /// process had no environment, this variable is all of it.
    pub fn env(self, key: &str, value: &str) -> (r: ProcAttr)
        ensures
            r@ == (ProcAttrView {
                env: Some(
                    with_variable(
                        match self@.env {
                            Some(e) => e,
                            None => Seq::empty(),
                        },
                        key@,
                        value@,
                    ),
                ),
                ..self@
            }),
            names_distinct(r@.env.unwrap()),
    {
        proof {
            use_type_invariant(&self);
        }
        let ProcAttr { application, commandline, current_dir, args, env } = self;
        let mut set: Vec<(String, String)> = match env {
            Some(e) => e,
            None => Vec::new(),
        };
        assert(self@.env.is_none() ==> entries_view(set@) =~= Seq::<EnvEntry>::empty());
        set_variable(&mut set, String::from_str(key), String::from_str(value));
        ProcAttr { application, commandline, current_dir, args, env: Some(set) }
    }

    /// The application, where one is set.
    pub fn application_path(&self) -> (r: Option<&String>)
        ensures
            (match r {
                Some(s) => Some(s@),
                None => None,
            }) == self@.application,
    {
        self.application.as_ref()
    }

    /// The command line, where one is set.
    pub fn command_line(&self) -> (r: Option<&String>)
        ensures
            (match r {
                Some(s) => Some(s@),
                None => None,
            }) == self@.commandline,
    {
        self.commandline.as_ref()
    }

    /// The directory in which the process starts, where one is set.
    pub fn working_directory(&self) -> (r: Option<&String>)
        ensures
            (match r {
                Some(s) => Some(s@),
                None => None,
            }) == self@.current_dir,
    {
        self.current_dir.as_ref()
    }

    /// The arguments of the process, in order.
    pub fn arguments(&self) -> (r: &Vec<String>)
        ensures
            strings_view(r@) == self@.args,
    {
        &self.args
    }

    /// The variables of the environment in their order, each name once.
    /// `None` where the process has no environment of its own.
    pub fn variables(&self) -> (r: Option<&Vec<(String, String)>>)
        ensures
            (match r {
                Some(e) => Some(entries_view(e@)),
                None => None,
            }) == self@.env,
            r matches Some(e) ==> names_distinct(entries_view(e@)),
    {
        proof {
            use_type_invariant(self);
        }
        self.env.as_ref()
    }

    /// Whether a process can be started from the attributes: they name an
    /// application or a command line.
    pub fn can_start(&self) -> (b: bool)
        ensures
            b == (self@.application.is_some() || self@.commandline.is_some()),
    {
        self.application.is_some() || self.commandline.is_some()
    }

    /// The environment block of the process. `None` where it has no
    /// environment of its own.
    pub fn environment(&self) -> (r: Option<Vec<u16>>)
        ensures
            match (r, self@.env) {
                (Some(block), Some(entries)) => block@ == environment_block(entries),
                (None, None) => true,
                _ => false,
            },
    {
        match &self.env {
            Some(e) => Some(block_of_entries(e)),
            None => None,
        }
    }
}

} // verus!
