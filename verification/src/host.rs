//! What the supervisor asks of the machine it runs on, and what it is told.
//!
//! The library never touches the machine. It puts a [`Query`], the caller finds
//! the [`Answer`], and the library decides what follows. [`HostFacts`] is a
//! machine written down as plain values: it answers every query from what it
//! holds, which is what the searches are stated against.

use vstd::prelude::*;
use vstd::string::*;

verus! {

/// A question to the machine.
#[derive(Debug, Clone, PartialEq, Eq)]
pub enum Query {
    /// Does anything accept a connection on this port of the local host?
    Listening(u16),
    /// Where does the command search path lead for a program of this name?
    /// The answer is what the lookup printed, if it succeeded.
    Which(String),
    /// What does the environment variable of this name hold?
    Variable(String),
    /// Is there anything at this path?
    Exists(String),
    /// Which names does the directory at this path hold?
    Entries(String),
    /// Where is the running program's own file?
    Executable,
    /// Which absolute path, free of links and relative names, does this path
    /// lead to?
    Canonical(String),
}

/// A [`Query`] with its text as sequences of characters.
pub enum QueryView {
    Listening(u16),
    Which(Seq<char>),
    Variable(Seq<char>),
    Exists(Seq<char>),
    Entries(Seq<char>),
    Executable,
    Canonical(Seq<char>),
}

impl View for Query {
    type V = QueryView;

    open spec fn view(&self) -> QueryView {
        match *self {
            Query::Listening(port) => QueryView::Listening(port),
            Query::Which(name) => QueryView::Which(name@),
            Query::Variable(name) => QueryView::Variable(name@),
            Query::Exists(path) => QueryView::Exists(path@),
            Query::Entries(dir) => QueryView::Entries(dir@),
            Query::Executable => QueryView::Executable,
            Query::Canonical(path) => QueryView::Canonical(path@),
        }
    }
}

/// What the machine said.
#[derive(Debug, Clone, PartialEq, Eq)]
pub enum Answer {
    /// Yes or no.
    Flag(bool),
    /// A text, or that there is none.
    Text(Option<String>),
    /// The names in a directory in the order in which it was read, or that it
    /// could not be read.
    Names(Option<Vec<String>>),
}

/// An [`Answer`] with its text as sequences of characters.
pub enum AnswerView {
    Flag(bool),
    Text(Option<Seq<char>>),
    Names(Option<Seq<Seq<char>>>),
}

/// The characters of a text that may be missing.
pub open spec fn text_view(text: Option<String>) -> Option<Seq<char>> {
    match text {
        Some(t) => Some(t@),
        None => None,
    }
}

/// The characters of each name.
pub open spec fn names_view(names: Seq<String>) -> Seq<Seq<char>> {
    Seq::new(names.len(), |i: int| names[i]@)
}

impl View for Answer {
    type V = AnswerView;

    open spec fn view(&self) -> AnswerView {
        match *self {
            Answer::Flag(flag) => AnswerView::Flag(flag),
            Answer::Text(text) => AnswerView::Text(text_view(text)),
            Answer::Names(names) => AnswerView::Names(
                match names {
                    Some(list) => Some(names_view(list@)),
                    None => None,
                },
            ),
        }
    }
}

impl AnswerView {
    /// The answer read as yes or no: anything but a yes is a no.
    pub open spec fn flag(self) -> bool {
        self == AnswerView::Flag(true)
    }

    /// The answer read as a text: anything but a text is none.
    pub open spec fn text(self) -> Option<Seq<char>> {
        match self {
            AnswerView::Text(text) => text,
            _ => None,
        }
    }

    /// The answer read as a list of names: anything but a list is none.
    pub open spec fn names(self) -> Option<Seq<Seq<char>>> {
        match self {
            AnswerView::Names(names) => names,
            _ => None,
        }
    }
}

impl Answer {
    /// Reads the answer as yes or no.
    pub fn into_flag(self) -> (flag: bool)
        ensures
            flag == self@.flag(),
    {
        match self {
            Answer::Flag(flag) => flag,
            _ => false,
        }
    }

    /// Reads the answer as a text.
    pub fn into_text(self) -> (text: Option<String>)
        ensures
            text_view(text) == self@.text(),
    {
        match self {
            Answer::Text(text) => text,
            _ => None,
        }
    }

    /// Reads the answer as a list of names.
    pub fn into_names(self) -> (names: Option<Vec<String>>)
        ensures
            names is Some <==> self@.names() is Some,
            names matches Some(list) ==> self@.names() == Some(names_view(list@)),
    {
        match self {
            Answer::Names(names) => names,
            _ => None,
        }
    }
}

/// A text under a key: a variable and its value, a program and where it was
/// found, a path and what it leads to.
#[derive(Debug, Clone, PartialEq, Eq)]
pub struct Binding {
    pub key: String,
    pub value: String,
}

/// A directory and the names in it, in the order in which they are read.
#[derive(Debug, Clone, PartialEq, Eq)]
pub struct Listing {
    pub dir: String,
    pub names: Vec<String>,
}

/// A machine written down as plain values.
#[derive(Debug, Clone, PartialEq, Eq)]
pub struct HostFacts {
    /// The local ports on which something accepts connections.
    pub listening: Vec<u16>,
    /// Which programs the command search path leads to, and what the lookup
    /// prints for each.
    pub programs: Vec<Binding>,
    /// The environment.
    pub variables: Vec<Binding>,
    /// The paths at which there is something.
    pub existing: Vec<String>,
    /// The directories that can be read.
    pub directories: Vec<Listing>,
    /// The running program's own file, if it can be told.
    pub executable: Option<String>,
    /// The paths that lead somewhere, each with where it leads.
    pub canonical: Vec<Binding>,
}

/// The mathematical form of [`HostFacts`].
pub struct Host {
    pub listening: Seq<u16>,
    pub programs: Seq<(Seq<char>, Seq<char>)>,
    pub variables: Seq<(Seq<char>, Seq<char>)>,
    pub existing: Seq<Seq<char>>,
    pub directories: Seq<(Seq<char>, Seq<Seq<char>>)>,
    pub executable: Option<Seq<char>>,
    pub canonical: Seq<(Seq<char>, Seq<char>)>,
}

/// The keys and values of a table.
pub open spec fn bindings_view(table: Seq<Binding>) -> Seq<(Seq<char>, Seq<char>)> {
    Seq::new(table.len(), |i: int| (table[i].key@, table[i].value@))
}

/// The directories and names of a list of listings.
pub open spec fn listings_view(list: Seq<Listing>) -> Seq<(Seq<char>, Seq<Seq<char>>)> {
    Seq::new(list.len(), |i: int| (list[i].dir@, names_view(list[i].names@)))
}

impl View for HostFacts {
    type V = Host;

    open spec fn view(&self) -> Host {
        Host {
            listening: self.listening@,
            programs: bindings_view(self.programs@),
            variables: bindings_view(self.variables@),
            existing: names_view(self.existing@),
            directories: listings_view(self.directories@),
            executable: text_view(self.executable),
            canonical: bindings_view(self.canonical@),
        }
    }
}

/// What stands under `key` in `table`: the first entry with that key counts.
pub open spec fn spec_lookup<V>(table: Seq<(Seq<char>, V)>, key: Seq<char>) -> Option<V>
    decreases table.len(),
{
    if table.len() == 0 {
        None
    } else if table[0].0 == key {
        Some(table[0].1)
    } else {
        spec_lookup(table.drop_first(), key)
    }
}

impl Host {
    /// Whether something accepts connections on `port`.
    pub open spec fn listens(self, port: u16) -> bool {
        self.listening.contains(port)
    }

    /// What the lookup of the program `name` prints, if it succeeds.
    pub open spec fn which(self, name: Seq<char>) -> Option<Seq<char>> {
        spec_lookup(self.programs, name)
    }

    /// What the environment variable `name` holds.
    pub open spec fn variable(self, name: Seq<char>) -> Option<Seq<char>> {
        spec_lookup(self.variables, name)
    }

    /// Whether there is something at `path`.
    pub open spec fn has_path(self, path: Seq<char>) -> bool {
        self.existing.contains(path)
    }

    /// The names in the directory `dir`, if it can be read.
    pub open spec fn entries(self, dir: Seq<char>) -> Option<Seq<Seq<char>>> {
        spec_lookup(self.directories, dir)
    }

    /// Where `path` leads, if it leads anywhere.
    pub open spec fn canonical_of(self, path: Seq<char>) -> Option<Seq<char>> {
        spec_lookup(self.canonical, path)
    }

    /// The answer of this machine to `query`.
    pub open spec fn answer(self, query: QueryView) -> AnswerView {
        match query {
            QueryView::Listening(port) => AnswerView::Flag(self.listens(port)),
            QueryView::Which(name) => AnswerView::Text(self.which(name)),
            QueryView::Variable(name) => AnswerView::Text(self.variable(name)),
            QueryView::Exists(path) => AnswerView::Flag(self.has_path(path)),
            QueryView::Entries(dir) => AnswerView::Names(self.entries(dir)),
            QueryView::Executable => AnswerView::Text(self.executable),
            QueryView::Canonical(path) => AnswerView::Text(self.canonical_of(path)),
        }
    }
}

/// A copy of a list of names.
pub fn clone_names(names: &Vec<String>) -> (copy: Vec<String>)
    ensures
        names_view(copy@) == names_view(names@),
{
    let mut copy: Vec<String> = Vec::new();
    let mut i: usize = 0;
    while i < names.len()
        invariant
            i <= names.len(),
            copy.len() == i,
            forall|j: int| 0 <= j < i ==> copy[j]@ == names[j]@,
        decreases names.len() - i,
    {
        copy.push(names[i].clone());
        i = i + 1;
    }
    assert(names_view(copy@) =~= names_view(names@));
    copy
}

/// Whether `wanted` is among `list`.
fn holds_text(list: &Vec<String>, wanted: &String) -> (found: bool)
    ensures
        found == names_view(list@).contains(wanted@),
{
    let mut i: usize = 0;
    while i < list.len()
        invariant
            i <= list.len(),
            forall|j: int| 0 <= j < i ==> list[j]@ != wanted@,
        decreases list.len() - i,
    {
        if list[i] == *wanted {
            assert(names_view(list@)[i as int] == wanted@);
            return true;
        }
        i = i + 1;
    }
    false
}

/// Whether `wanted` is among `ports`.
fn holds_port(ports: &Vec<u16>, wanted: u16) -> (found: bool)
    ensures
        found == ports@.contains(wanted),
{
    let mut i: usize = 0;
    while i < ports.len()
        invariant
            i <= ports.len(),
            forall|j: int| 0 <= j < i ==> ports[j] != wanted,
        decreases ports.len() - i,
    {
        if ports[i] == wanted {
            return true;
        }
        i = i + 1;
    }
    false
}

/// What stands under `key` in `table`.
fn lookup_text(table: &Vec<Binding>, key: &String) -> (value: Option<String>)
    ensures
        text_view(value) == spec_lookup(bindings_view(table@), key@),
{
    let ghost whole = bindings_view(table@);
    let mut i: usize = 0;
    assert(whole.skip(0) =~= whole);
    while i < table.len()
        invariant
            i <= table.len(),
            whole == bindings_view(table@),
            spec_lookup(whole.skip(i as int), key@) == spec_lookup(whole, key@),
        decreases table.len() - i,
    {
        assert(whole.skip(i as int).drop_first() =~= whole.skip(i + 1));
        assert(whole.skip(i as int)[0] == whole[i as int]);
        if table[i].key == *key {
            return Some(table[i].value.clone());
        }
        i = i + 1;
    }
    None
}

/// The names under the directory `dir` in `list`.
fn lookup_names(list: &Vec<Listing>, dir: &String) -> (names: Option<Vec<String>>)
    ensures
        names is Some <==> spec_lookup(listings_view(list@), dir@) is Some,
        names matches Some(found) ==> spec_lookup(listings_view(list@), dir@) == Some(
            names_view(found@),
        ),
{
    let ghost whole = listings_view(list@);
    let mut i: usize = 0;
    assert(whole.skip(0) =~= whole);
    while i < list.len()
        invariant
            i <= list.len(),
            whole == listings_view(list@),
            spec_lookup(whole.skip(i as int), dir@) == spec_lookup(whole, dir@),
        decreases list.len() - i,
    {
        assert(whole.skip(i as int).drop_first() =~= whole.skip(i + 1));
        assert(whole.skip(i as int)[0] == whole[i as int]);
        if list[i].dir == *dir {
            return Some(clone_names(&list[i].names));
        }
        i = i + 1;
    }
    None
}

impl HostFacts {
    /// A machine on which nothing listens, nothing exists and nothing is set.
    pub fn new() -> (host: HostFacts)
        ensures
            host@.listening.len() == 0,
            host@.programs.len() == 0,
            host@.variables.len() == 0,
            host@.existing.len() == 0,
            host@.directories.len() == 0,
            host@.executable is None,
            host@.canonical.len() == 0,
    {
        HostFacts {
            listening: Vec::new(),
            programs: Vec::new(),
            variables: Vec::new(),
            existing: Vec::new(),
            directories: Vec::new(),
            executable: None,
            canonical: Vec::new(),
        }
    }

    /// The answer of this machine to `query`.
    pub fn answer(&self, query: &Query) -> (answer: Answer)
        ensures
            answer@ == self@.answer(query@),
    {
        match query {
            Query::Listening(port) => Answer::Flag(holds_port(&self.listening, *port)),
            Query::Which(name) => Answer::Text(lookup_text(&self.programs, name)),
            Query::Variable(name) => Answer::Text(lookup_text(&self.variables, name)),
            Query::Exists(path) => Answer::Flag(holds_text(&self.existing, path)),
            Query::Entries(dir) => Answer::Names(lookup_names(&self.directories, dir)),
            Query::Executable => Answer::Text(
                match &self.executable {
                    Some(path) => Some(path.clone()),
                    None => None,
                },
            ),
            Query::Canonical(path) => Answer::Text(lookup_text(&self.canonical, path)),
        }
    }
}

} // verus!
