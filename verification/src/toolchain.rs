//! Finding the package manager that runs the server.
//!
//! The search goes, in this order, by what the command search path leads to,
//! by three well-known places, by the pinned version under the user's version
//! manager, and by every version under it. The first that is there wins, and
//! nothing is asked of the machine after it.

use vstd::prelude::*;
use vstd::string::*;
use crate::host::{names_view, text_view, Answer, AnswerView, Host, HostFacts, Query, QueryView};
use crate::paths::{join, spec_join};
use crate::text::{spec_trim, trim};

verus! {

/// How many well-known places there are.
pub const COMMON_PLACES: usize = 3;

/// The name of the program that is looked for.
pub open spec fn spec_tool() -> Seq<char> {
    "npm"@
}

/// The variable that holds the user's home directory.
pub open spec fn spec_home_variable() -> Seq<char> {
    "HOME"@
}

/// The well-known places, by priority.
pub open spec fn spec_common_place(index: int) -> Seq<char> {
    if index == 0 {
        "/usr/local/bin/npm"@
    } else if index == 1 {
        "/opt/homebrew/bin/npm"@
    } else {
        "/usr/bin/npm"@
    }
}

/// The well-known places as a list.
pub open spec fn spec_common_places() -> Seq<Seq<char>> {
    seq![spec_common_place(0), spec_common_place(1), spec_common_place(2)]
}

/// The directory under `home` in which the version manager keeps its versions.
pub open spec fn spec_versions_dir(home: Seq<char>) -> Seq<char> {
    spec_join(home, ".nvm/versions/node"@)
}

/// The program in the pinned version under `home`.
pub open spec fn spec_pinned(home: Seq<char>) -> Seq<char> {
    spec_join(spec_versions_dir(home), "v20.18.0/bin/npm"@)
}

/// The program in the version `name` under `home`.
pub open spec fn spec_in_version(home: Seq<char>, name: Seq<char>) -> Seq<char> {
    spec_join(spec_join(spec_versions_dir(home), name), "bin/npm"@)
}

/// The program in each of the versions `names` under `home`.
pub open spec fn spec_in_versions(home: Seq<char>, names: Seq<Seq<char>>) -> Seq<Seq<char>> {
    Seq::new(names.len(), |i: int| spec_in_version(home, names[i]))
}

/// What a lookup that printed `output` has found: the output without the white
/// space around it, unless nothing is left.
pub open spec fn spec_usable(output: Option<Seq<char>>) -> Option<Seq<char>> {
    match output {
        Some(text) => if spec_trim(text).len() > 0 {
            Some(spec_trim(text))
        } else {
            None
        },
        None => None,
    }
}

/// The places under the user's home directory, by priority: the pinned version,
/// then every version in the order in which the directory gives them. There are
/// none where no home directory is set.
pub open spec fn spec_home_places(host: Host) -> Seq<Seq<char>> {
    match host.variable(spec_home_variable()) {
        Some(home) => seq![spec_pinned(home)] + (match host.entries(spec_versions_dir(home)) {
            Some(names) => spec_in_versions(home, names),
            None => Seq::empty(),
        }),
        None => Seq::empty(),
    }
}

/// Every place that is tried once the command search path has led nowhere, by
/// priority.
pub open spec fn spec_candidates(host: Host) -> Seq<Seq<char>> {
    spec_common_places() + spec_home_places(host)
}

/// The first of `places` at which there is something.
pub open spec fn spec_first_existing(host: Host, places: Seq<Seq<char>>) -> Option<Seq<char>>
    decreases places.len(),
{
    if places.len() == 0 {
        None
    } else if host.has_path(places[0]) {
        Some(places[0])
    } else {
        spec_first_existing(host, places.drop_first())
    }
}

/// The first version under `home` that holds the program; none where the
/// versions cannot be listed.
pub open spec fn spec_first_version(host: Host, home: Seq<char>) -> Option<Seq<char>> {
    match host.entries(spec_versions_dir(home)) {
        Some(names) => spec_first_existing(host, spec_in_versions(home, names)),
        None => None,
    }
}

/// Where the program is on `host`.
pub open spec fn spec_find_npm(host: Host) -> Option<Seq<char>> {
    match spec_usable(host.which(spec_tool())) {
        Some(path) => Some(path),
        None => spec_first_existing(host, spec_candidates(host)),
    }
}

/// How far a search has come.
#[derive(Debug, Clone, PartialEq, Eq)]
pub enum ToolchainSearch {
    /// The command search path is being asked.
    Resolving,
    /// The well-known place of this index is being tried. An index beyond the
    /// last place stands for [`ToolchainSearch::Home`].
    Common { index: usize },
    /// The home directory is being asked for.
    Home,
    /// The pinned version under this home directory is being tried.
    Pinned { home: String },
    /// The versions under this home directory are being listed.
    Listing { home: String },
    /// The version of this index among `names` is being tried. An index beyond
    /// the last name stands for [`ToolchainSearch::NotFound`].
    Versions { home: String, names: Vec<String>, index: usize },
    /// The program is at this path.
    Found(String),
    /// The program is nowhere.
    NotFound,
}

/// A [`ToolchainSearch`] with its text as sequences of characters.
pub enum ToolchainSearchView {
    Resolving,
    Common { index: nat },
    Home,
    Pinned { home: Seq<char> },
    Listing { home: Seq<char> },
    Versions { home: Seq<char>, names: Seq<Seq<char>>, index: nat },
    Found(Seq<char>),
    NotFound,
}

impl View for ToolchainSearch {
    type V = ToolchainSearchView;

    open spec fn view(&self) -> ToolchainSearchView {
        match *self {
            ToolchainSearch::Resolving => ToolchainSearchView::Resolving,
            ToolchainSearch::Common { index } => ToolchainSearchView::Common { index: index as nat },
            ToolchainSearch::Home => ToolchainSearchView::Home,
            ToolchainSearch::Pinned { home } => ToolchainSearchView::Pinned { home: home@ },
            ToolchainSearch::Listing { home } => ToolchainSearchView::Listing { home: home@ },
            ToolchainSearch::Versions { home, names, index } => ToolchainSearchView::Versions {
                home: home@,
                names: names_view(names@),
                index: index as nat,
            },
            ToolchainSearch::Found(path) => ToolchainSearchView::Found(path@),
            ToolchainSearch::NotFound => ToolchainSearchView::NotFound,
        }
    }
}

/// The state in which the well-known place `index` is tried, or the one that
/// follows the last of them.
pub open spec fn spec_at_common(index: nat) -> ToolchainSearchView {
    if index < COMMON_PLACES {
        ToolchainSearchView::Common { index }
    } else {
        ToolchainSearchView::Home
    }
}

/// The state in which the version `index` of `names` is tried, or the one that
/// follows the last of them.
pub open spec fn spec_at_version(
    home: Seq<char>,
    names: Seq<Seq<char>>,
    index: nat,
) -> ToolchainSearchView {
    if index < names.len() {
        ToolchainSearchView::Versions { home, names, index }
    } else {
        ToolchainSearchView::NotFound
    }
}

impl ToolchainSearchView {
    /// What is asked of the machine in this state; nothing once the search is
    /// over.
    pub open spec fn query(self) -> Option<QueryView> {
        match self {
            ToolchainSearchView::Resolving => Some(QueryView::Which(spec_tool())),
            ToolchainSearchView::Common { index } => if index < COMMON_PLACES {
                Some(QueryView::Exists(spec_common_place(index as int)))
            } else {
                Some(QueryView::Variable(spec_home_variable()))
            },
            ToolchainSearchView::Home => Some(QueryView::Variable(spec_home_variable())),
            ToolchainSearchView::Pinned { home } => Some(QueryView::Exists(spec_pinned(home))),
            ToolchainSearchView::Listing { home } => Some(
                QueryView::Entries(spec_versions_dir(home)),
            ),
            ToolchainSearchView::Versions { home, names, index } => if index < names.len() {
                Some(QueryView::Exists(spec_in_version(home, names[index as int])))
            } else {
                None
            },
            ToolchainSearchView::Found(_) => None,
            ToolchainSearchView::NotFound => None,
        }
    }

    /// Where the program was found, once it was.
    pub open spec fn result(self) -> Option<Seq<char>> {
        match self {
            ToolchainSearchView::Found(path) => Some(path),
            _ => None,
        }
    }

    /// The state that follows when the home directory was asked for and
    /// `answer` came back.
    pub open spec fn after_home(answer: AnswerView) -> ToolchainSearchView {
        match answer.text() {
            Some(home) => ToolchainSearchView::Pinned { home },
            None => ToolchainSearchView::NotFound,
        }
    }

    /// The state that follows this one when the machine gave `answer` to its
    /// query. A search that is over stays as it is.
    pub open spec fn advance(self, answer: AnswerView) -> ToolchainSearchView {
        match self {
            ToolchainSearchView::Resolving => match spec_usable(answer.text()) {
                Some(path) => ToolchainSearchView::Found(path),
                None => spec_at_common(0),
            },
            ToolchainSearchView::Common { index } => if index < COMMON_PLACES {
                if answer.flag() {
                    ToolchainSearchView::Found(spec_common_place(index as int))
                } else {
                    spec_at_common(index + 1)
                }
            } else {
                Self::after_home(answer)
            },
            ToolchainSearchView::Home => Self::after_home(answer),
            ToolchainSearchView::Pinned { home } => if answer.flag() {
                ToolchainSearchView::Found(spec_pinned(home))
            } else {
                ToolchainSearchView::Listing { home }
            },
            ToolchainSearchView::Listing { home } => match answer.names() {
                Some(names) => spec_at_version(home, names, 0),
                None => ToolchainSearchView::NotFound,
            },
            ToolchainSearchView::Versions { home, names, index } => if index < names.len() {
                if answer.flag() {
                    ToolchainSearchView::Found(spec_in_version(home, names[index as int]))
                } else {
                    spec_at_version(home, names, index + 1)
                }
            } else {
                self
            },
            ToolchainSearchView::Found(_) => self,
            ToolchainSearchView::NotFound => self,
        }
    }

    /// The stage of the search, counted down to the end.
    pub open spec fn stage(self) -> nat {
        match self {
            ToolchainSearchView::Resolving => 6,
            ToolchainSearchView::Common { index } => if index < COMMON_PLACES {
                5
            } else {
                4
            },
            ToolchainSearchView::Home => 4,
            ToolchainSearchView::Pinned { .. } => 3,
            ToolchainSearchView::Listing { .. } => 2,
            ToolchainSearchView::Versions { names, index, .. } => if index < names.len() {
                1
            } else {
                0
            },
            ToolchainSearchView::Found(_) => 0,
            ToolchainSearchView::NotFound => 0,
        }
    }

    /// How many places are left to try within the stage.
    pub open spec fn left(self) -> nat {
        match self {
            ToolchainSearchView::Common { index } => if index < COMMON_PLACES {
                (COMMON_PLACES - index) as nat
            } else {
                0
            },
            ToolchainSearchView::Versions { names, index, .. } => if index < names.len() {
                (names.len() - index) as nat
            } else {
                0
            },
            _ => 0,
        }
    }

    /// What a search in this state comes to on `host`, if every query is
    /// answered as `host` answers it.
    pub open spec fn outcome(self, host: Host) -> Option<Seq<char>> {
        match self {
            ToolchainSearchView::Resolving => spec_find_npm(host),
            ToolchainSearchView::Common { index } => spec_first_existing(
                host,
                spec_candidates(host).skip(
                    if index < COMMON_PLACES {
                        index as int
                    } else {
                        COMMON_PLACES as int
                    },
                ),
            ),
            ToolchainSearchView::Home => spec_first_existing(host, spec_home_places(host)),
            ToolchainSearchView::Pinned { home } => if host.has_path(spec_pinned(home)) {
                Some(spec_pinned(home))
            } else {
                spec_first_version(host, home)
            },
            ToolchainSearchView::Listing { home } => spec_first_version(host, home),
            ToolchainSearchView::Versions { home, names, index } => if index < names.len() {
                spec_first_existing(host, spec_in_versions(home, names).skip(index as int))
            } else {
                None
            },
            ToolchainSearchView::Found(path) => Some(path),
            ToolchainSearchView::NotFound => None,
        }
    }
}

/// The first existing place is the one before which no place exists; there is
/// none exactly where no place exists.
pub proof fn lemma_first_existing_is_first(host: Host, places: Seq<Seq<char>>)
    ensures
        match spec_first_existing(host, places) {
            Some(place) => exists|i: int|
                0 <= i < places.len() && places[i] == place && host.has_path(#[trigger] places[i])
                    && forall|j: int| 0 <= j < i ==> !host.has_path(#[trigger] places[j]),
            None => forall|j: int| 0 <= j < places.len() ==> !host.has_path(#[trigger] places[j]),
        },
    decreases places.len(),
{
    if places.len() == 0 {
    } else if host.has_path(places[0]) {
        assert(places[0] == places[0] && host.has_path(places[0]));
    } else {
        let rest = places.drop_first();
        lemma_first_existing_is_first(host, rest);
        match spec_first_existing(host, rest) {
            Some(place) => {
                let i = choose|i: int|
                    0 <= i < rest.len() && rest[i] == place && host.has_path(#[trigger] rest[i])
                        && forall|j: int| 0 <= j < i ==> !host.has_path(#[trigger] rest[j]);
                assert(places[i + 1] == rest[i]);
                assert forall|j: int| 0 <= j < i + 1 implies !host.has_path(
                    #[trigger] places[j],
                ) by {
                    if j > 0 {
                        assert(places[j] == rest[j - 1]);
                    }
                }
                assert(host.has_path(places[i + 1]));
            },
            None => {
                assert forall|j: int| 0 <= j < places.len() implies !host.has_path(
                    #[trigger] places[j],
                ) by {
                    if j > 0 {
                        assert(places[j] == rest[j - 1]);
                    }
                }
            },
        }
    }
}

/// The search returns the first place that is there, in the order of priority:
/// where the command search path leads nowhere, the place `index` is there and
/// none before it is, the search finds the place `index`.
pub proof fn lemma_first_match_wins(host: Host, index: int)
    requires
        spec_usable(host.which(spec_tool())) is None,
        0 <= index < spec_candidates(host).len(),
        host.has_path(spec_candidates(host)[index]),
        forall|j: int| 0 <= j < index ==> !host.has_path(#[trigger] spec_candidates(host)[j]),
    ensures
        spec_find_npm(host) == Some(spec_candidates(host)[index]),
{
    let places = spec_candidates(host);
    lemma_first_existing_is_first(host, places);
    match spec_first_existing(host, places) {
        Some(place) => {
            let i = choose|i: int|
                0 <= i < places.len() && places[i] == place && host.has_path(#[trigger] places[i])
                    && forall|j: int| 0 <= j < i ==> !host.has_path(#[trigger] places[j]);
            if i < index {
                assert(!host.has_path(places[i]));
            }
            if index < i {
                assert(!host.has_path(places[index]));
            }
        },
        None => {
            assert(!host.has_path(places[index]));
        },
    }
}

/// What the command search path leads to wins over every place and is taken
/// as it is; where it leads nowhere, what is found is a place that is there;
/// and the search finds nothing exactly where the command search path leads
/// nowhere and none of the places is there.
pub proof fn lemma_find_npm_cases(host: Host)
    ensures
        spec_usable(host.which(spec_tool())) is None ==> (spec_find_npm(host) matches Some(place)
            ==> host.has_path(place)),
        spec_usable(host.which(spec_tool())) is Some ==> spec_find_npm(host) == spec_usable(
            host.which(spec_tool()),
        ),
        spec_find_npm(host) is None <==> spec_usable(host.which(spec_tool())) is None && forall|
            j: int,
        |
            0 <= j < spec_candidates(host).len() ==> !host.has_path(
                #[trigger] spec_candidates(host)[j],
            ),
{
    let places = spec_candidates(host);
    lemma_first_existing_is_first(host, places);
    if spec_first_existing(host, places) is Some {
        let place = spec_first_existing(host, places)->0;
        let i = choose|i: int|
            0 <= i < places.len() && places[i] == place && host.has_path(#[trigger] places[i])
                && forall|j: int| 0 <= j < i ==> !host.has_path(#[trigger] places[j]);
        assert(host.has_path(places[i]));
    }
}

/// One step of a search against `host` leaves what the search comes to as it
/// was, and brings the search nearer to its end.
pub proof fn lemma_advance_keeps_outcome(state: ToolchainSearchView, host: Host)
    requires
        state.query() is Some,
    ensures
        state.advance(host.answer(state.query()->0)).outcome(host) == state.outcome(host),
        state.advance(host.answer(state.query()->0)).stage() < state.stage() || (state.advance(
            host.answer(state.query()->0),
        ).stage() == state.stage() && state.advance(host.answer(state.query()->0)).left()
            < state.left()),
{
    let answer = host.answer(state.query()->0);
    let next = state.advance(answer);
    let places = spec_candidates(host);
    match state {
        ToolchainSearchView::Resolving => {
            assert(places.skip(0) =~= places);
        },
        ToolchainSearchView::Common { index } => {
            assert(places.skip(COMMON_PLACES as int) =~= spec_home_places(host));
            if index < COMMON_PLACES {
                let here = places.skip(index as int);
                assert(here[0] == spec_common_place(index as int));
                assert(here.drop_first() =~= places.skip(index as int + 1));
                assert(state.outcome(host) == spec_first_existing(host, here));
                if !host.has_path(here[0]) {
                    assert(next == spec_at_common(index + 1));
                    assert(next.outcome(host) == spec_first_existing(
                        host,
                        places.skip(index as int + 1),
                    ));
                }
            } else {
                lemma_home_outcome(host);
            }
        },
        ToolchainSearchView::Home => {
            lemma_home_outcome(host);
        },
        ToolchainSearchView::Pinned { home } => {},
        ToolchainSearchView::Listing { home } => {
            match host.entries(spec_versions_dir(home)) {
                Some(names) => {
                    let all = spec_in_versions(home, names);
                    assert(all.skip(0) =~= all);
                    assert(next == spec_at_version(home, names, 0));
                    assert(next.outcome(host) == spec_first_existing(host, all));
                },
                None => {},
            }
        },
        ToolchainSearchView::Versions { home, names, index } => {
            let all = spec_in_versions(home, names);
            let here = all.skip(index as int);
            assert(here.drop_first() =~= all.skip(index as int + 1));
            assert(here[0] == spec_in_version(home, names[index as int]));
            assert(state.outcome(host) == spec_first_existing(host, here));
            if !host.has_path(here[0]) {
                assert(next == spec_at_version(home, names, index + 1));
                assert(next.outcome(host) == spec_first_existing(host, all.skip(index as int + 1)));
            }
        },
        ToolchainSearchView::Found(_) => {},
        ToolchainSearchView::NotFound => {},
    }
}

/// What the search comes to from the question for the home directory on.
proof fn lemma_home_outcome(host: Host)
    ensures
        ToolchainSearchView::after_home(
            host.answer(QueryView::Variable(spec_home_variable())),
        ).outcome(host) == spec_first_existing(host, spec_home_places(host)),
{
    match host.variable(spec_home_variable()) {
        Some(home) => {
            let rest = match host.entries(spec_versions_dir(home)) {
                Some(names) => spec_in_versions(home, names),
                None => Seq::empty(),
            };
            let all = seq![spec_pinned(home)] + rest;
            assert(all[0] == spec_pinned(home));
            assert(all.drop_first() =~= rest);
            assert(spec_home_places(host) == all);
            assert(spec_first_version(host, home) == spec_first_existing(host, rest));
            assert(ToolchainSearchView::after_home(
                host.answer(QueryView::Variable(spec_home_variable())),
            ) == ToolchainSearchView::Pinned { home });
        },
        None => {},
    }
}

/// The name of the program that is looked for.
pub fn tool() -> (name: String)
    ensures
        name@ == spec_tool(),
{
    String::from_str("npm")
}

/// The name of the variable that holds the user's home directory.
pub fn home_variable() -> (name: String)
    ensures
        name@ == spec_home_variable(),
{
    String::from_str("HOME")
}

/// The well-known place of this index.
pub fn common_place(index: usize) -> (place: String)
    ensures
        place@ == spec_common_place(index as int),
{
    if index == 0 {
        String::from_str("/usr/local/bin/npm")
    } else if index == 1 {
        String::from_str("/opt/homebrew/bin/npm")
    } else {
        String::from_str("/usr/bin/npm")
    }
}

/// The directory under `home` in which the version manager keeps its versions.
pub fn versions_dir(home: &str) -> (dir: String)
    ensures
        dir@ == spec_versions_dir(home@),
{
    join(home, ".nvm/versions/node")
}

/// The program in the pinned version under `home`.
pub fn pinned(home: &str) -> (place: String)
    ensures
        place@ == spec_pinned(home@),
{
    let dir = versions_dir(home);
    join(dir.as_str(), "v20.18.0/bin/npm")
}

/// The program in the version `name` under `home`.
pub fn in_version(home: &str, name: &str) -> (place: String)
    ensures
        place@ == spec_in_version(home@, name@),
{
    let dir = versions_dir(home);
    let version = join(dir.as_str(), name);
    join(version.as_str(), "bin/npm")
}

/// What a lookup that printed `output` has found.
pub fn usable(output: Option<String>) -> (path: Option<String>)
    ensures
        text_view(path) == spec_usable(text_view(output)),
{
    match output {
        Some(text) => {
            let trimmed = trim(text.as_str());
            if trimmed.as_str().unicode_len() > 0 {
                Some(trimmed)
            } else {
                None
            }
        },
        None => None,
    }
}

/// The state in which the well-known place `index` is tried, or the one that
/// follows the last of them.
fn at_common(index: usize) -> (state: ToolchainSearch)
    ensures
        state@ == spec_at_common(index as nat),
{
    if index < COMMON_PLACES {
        ToolchainSearch::Common { index }
    } else {
        ToolchainSearch::Home
    }
}

/// The state in which the version `index` of `names` is tried, or the one that
/// follows the last of them.
fn at_version(home: String, names: Vec<String>, index: usize) -> (state: ToolchainSearch)
    ensures
        state@ == spec_at_version(home@, names_view(names@), index as nat),
{
    if index < names.len() {
        ToolchainSearch::Versions { home, names, index }
    } else {
        ToolchainSearch::NotFound
    }
}

/// The state that follows when the home directory was asked for and `answer`
/// came back.
fn after_home(answer: Answer) -> (state: ToolchainSearch)
    ensures
        state@ == ToolchainSearchView::after_home(answer@),
{
    match answer.into_text() {
        Some(home) => ToolchainSearch::Pinned { home },
        None => ToolchainSearch::NotFound,
    }
}

impl ToolchainSearch {
    /// A search that has not asked anything yet.
    pub fn begin() -> (state: ToolchainSearch)
        ensures
            state@ == ToolchainSearchView::Resolving,
    {
        ToolchainSearch::Resolving
    }

    /// What is to be asked of the machine now; nothing once the search is over.
    pub fn query(&self) -> (query: Option<Query>)
        ensures
            query is Some <==> self@.query() is Some,
            query matches Some(q) ==> self@.query() == Some(q@),
    {
        match self {
            ToolchainSearch::Resolving => Some(Query::Which(tool())),
            ToolchainSearch::Common { index } => if *index < COMMON_PLACES {
                Some(Query::Exists(common_place(*index)))
            } else {
                Some(Query::Variable(home_variable()))
            },
            ToolchainSearch::Home => Some(Query::Variable(home_variable())),
            ToolchainSearch::Pinned { home } => Some(Query::Exists(pinned(home.as_str()))),
            ToolchainSearch::Listing { home } => Some(Query::Entries(versions_dir(home.as_str()))),
            ToolchainSearch::Versions { home, names, index } => if *index < names.len() {
                Some(Query::Exists(in_version(home.as_str(), names[*index].as_str())))
            } else {
                None
            },
            ToolchainSearch::Found(_) => None,
            ToolchainSearch::NotFound => None,
        }
    }

    /// The state that follows when the machine gave `answer` to the query of
    /// this state.
    pub fn advance(self, answer: Answer) -> (next: ToolchainSearch)
        ensures
            next@ == self@.advance(answer@),
    {
        match self {
            ToolchainSearch::Resolving => match usable(answer.into_text()) {
                Some(path) => ToolchainSearch::Found(path),
                None => at_common(0),
            },
            ToolchainSearch::Common { index } => if index < COMMON_PLACES {
                if answer.into_flag() {
                    ToolchainSearch::Found(common_place(index))
                } else {
                    at_common(index + 1)
                }
            } else {
                after_home(answer)
            },
            ToolchainSearch::Home => after_home(answer),
            ToolchainSearch::Pinned { home } => if answer.into_flag() {
                ToolchainSearch::Found(pinned(home.as_str()))
            } else {
                ToolchainSearch::Listing { home }
            },
            ToolchainSearch::Listing { home } => match answer.into_names() {
                Some(names) => at_version(home, names, 0),
                None => ToolchainSearch::NotFound,
            },
            ToolchainSearch::Versions { home, names, index } => if index < names.len() {
                if answer.into_flag() {
                    ToolchainSearch::Found(in_version(home.as_str(), names[index].as_str()))
                } else {
                    at_version(home, names, index + 1)
                }
            } else {
                ToolchainSearch::Versions { home, names, index }
            },
            ToolchainSearch::Found(path) => ToolchainSearch::Found(path),
            ToolchainSearch::NotFound => ToolchainSearch::NotFound,
        }
    }

    /// Where the program was found, once it was.
    pub fn result(self) -> (path: Option<String>)
        ensures
            text_view(path) == self@.result(),
    {
        match self {
            ToolchainSearch::Found(path) => Some(path),
            _ => None,
        }
    }
}

/// Finds the program on `host`: the search, run to its end with the answers of
/// `host`.
pub fn find_npm(host: &HostFacts) -> (path: Option<String>)
    ensures
        text_view(path) == spec_find_npm(host@),
{
    let mut state = ToolchainSearch::begin();
    loop
        invariant
            state@.outcome(host@) == spec_find_npm(host@),
        decreases state@.stage(), state@.left(),
    {
        match state.query() {
            Some(query) => {
                proof {
                    lemma_advance_keeps_outcome(state@, host@);
                }
                let answer = host.answer(&query);
                state = state.advance(answer);
            },
            None => {
                return state.result();
            },
        }
    }
}

} // verus!
