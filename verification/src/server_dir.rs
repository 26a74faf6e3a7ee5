//! Finding the directory of the server project.
//!
//! The search goes, in this order, by the path that the override variable
//! holds, by the project's usual place under the user's home directory, and by
//! three places relative to the running program's own file. A directory is
//! the project only if it holds the project's manifest: the first two places
//! are taken if they are there and hold it, a relative place is taken, in its
//! canonical form, if that holds it.

use vstd::prelude::*;
use vstd::string::*;
use crate::host::{text_view, Answer, AnswerView, Host, HostFacts, Query, QueryView};
use crate::paths::{join, parent, spec_join, spec_parent};
use crate::toolchain::{home_variable, spec_home_variable};

verus! {

/// How many places relative to the running program there are.
pub const RELATIVE_PLACES: usize = 3;

/// The variable that overrides the search.
pub open spec fn spec_override_variable() -> Seq<char> {
    "CLAUDE_PM_SERVER_PATH"@
}

/// The project's usual place, relative to the home directory.
pub open spec fn spec_usual_place() -> Seq<char> {
    "Desktop/projects/claudePM/server"@
}

/// The file that marks a directory as the project.
pub open spec fn spec_manifest() -> Seq<char> {
    "package.json"@
}

/// The places relative to the directory of the running program, by priority.
pub open spec fn spec_relative_place(index: int) -> Seq<char> {
    if index == 0 {
        "../../../../server"@
    } else if index == 1 {
        "../../server"@
    } else {
        "../../../server"@
    }
}

/// The project's usual place under `home`.
pub open spec fn spec_usual_under(home: Seq<char>) -> Seq<char> {
    spec_join(home, spec_usual_place())
}

/// The manifest in the directory `dir`.
pub open spec fn spec_manifest_in(dir: Seq<char>) -> Seq<char> {
    spec_join(dir, spec_manifest())
}

/// The relative places as seen from `dir`, by priority.
pub open spec fn spec_places_from(dir: Seq<char>) -> Seq<Seq<char>> {
    seq![
        spec_join(dir, spec_relative_place(0)),
        spec_join(dir, spec_relative_place(1)),
        spec_join(dir, spec_relative_place(2)),
    ]
}

/// The relative places on `host`: none where the running program's file cannot
/// be told or has no parent.
pub open spec fn spec_relative_places(host: Host) -> Seq<Seq<char>> {
    match host.executable {
        Some(file) => match spec_parent(file) {
            Some(dir) => spec_places_from(dir),
            None => Seq::empty(),
        },
        None => Seq::empty(),
    }
}

/// The directory that `place` stands for, if it is the project: its canonical
/// form, if that holds the manifest.
pub open spec fn spec_project_at(host: Host, place: Seq<char>) -> Option<Seq<char>> {
    match host.canonical_of(place) {
        Some(dir) => if host.has_path(spec_manifest_in(dir)) {
            Some(dir)
        } else {
            None
        },
        None => None,
    }
}

/// The project at the first of `places` that is one.
pub open spec fn spec_first_project(host: Host, places: Seq<Seq<char>>) -> Option<Seq<char>>
    decreases places.len(),
{
    if places.len() == 0 {
        None
    } else if spec_project_at(host, places[0]) is Some {
        spec_project_at(host, places[0])
    } else {
        spec_first_project(host, places.drop_first())
    }
}

/// Whether the project is at `path`: there is something at the path, and the
/// manifest is in it.
pub open spec fn spec_holds_project(host: Host, path: Seq<char>) -> bool {
    host.has_path(path) && host.has_path(spec_manifest_in(path))
}

/// The path that the override variable holds, if the project is at it.
pub open spec fn spec_overridden(host: Host) -> Option<Seq<char>> {
    match host.variable(spec_override_variable()) {
        Some(path) => if spec_holds_project(host, path) {
            Some(path)
        } else {
            None
        },
        None => None,
    }
}

/// The project's usual place, if a home directory is set and the project is
/// at the place.
pub open spec fn spec_usual(host: Host) -> Option<Seq<char>> {
    match host.variable(spec_home_variable()) {
        Some(home) => if spec_holds_project(host, spec_usual_under(home)) {
            Some(spec_usual_under(home))
        } else {
            None
        },
        None => None,
    }
}

/// What the search comes to once the override has led nowhere.
pub open spec fn spec_without_override(host: Host) -> Option<Seq<char>> {
    match spec_usual(host) {
        Some(path) => Some(path),
        None => spec_first_project(host, spec_relative_places(host)),
    }
}

/// Where the server project is on `host`.
pub open spec fn spec_get_server_path(host: Host) -> Option<Seq<char>> {
    match spec_overridden(host) {
        Some(path) => Some(path),
        None => spec_without_override(host),
    }
}

/// How far a search has come.
#[derive(Debug, Clone, PartialEq, Eq)]
pub enum ServerSearch {
    /// The override variable is being asked for.
    Override,
    /// The path that the override variable holds is being tried.
    Overridden { path: String },
    /// The manifest is being looked for at the path that the override
    /// variable holds.
    OverriddenManifest { path: String },
    /// The home directory is being asked for.
    Home,
    /// The usual place, at this path, is being tried.
    Usual { path: String },
    /// The manifest is being looked for in the usual place, at this path.
    UsualManifest { path: String },
    /// The running program's own file is being asked for.
    Executable,
    /// The relative place of this index, as seen from `dir`, is being
    /// resolved. An index beyond the last place stands for
    /// [`ServerSearch::NotFound`].
    Resolving { dir: String, index: usize },
    /// The manifest is being looked for in `canonical`, which the relative
    /// place of this index led to.
    Manifest { dir: String, index: usize, canonical: String },
    /// The project is at this path.
    Found(String),
    /// The project is nowhere.
    NotFound,
}

/// A [`ServerSearch`] with its text as sequences of characters.
pub enum ServerSearchView {
    Override,
    Overridden { path: Seq<char> },
    OverriddenManifest { path: Seq<char> },
    Home,
    Usual { path: Seq<char> },
    UsualManifest { path: Seq<char> },
    Executable,
    Resolving { dir: Seq<char>, index: nat },
    Manifest { dir: Seq<char>, index: nat, canonical: Seq<char> },
    Found(Seq<char>),
    NotFound,
}

impl View for ServerSearch {
    type V = ServerSearchView;

    open spec fn view(&self) -> ServerSearchView {
        match *self {
            ServerSearch::Override => ServerSearchView::Override,
            ServerSearch::Overridden { path } => ServerSearchView::Overridden { path: path@ },
            ServerSearch::OverriddenManifest { path } => ServerSearchView::OverriddenManifest {
                path: path@,
            },
            ServerSearch::Home => ServerSearchView::Home,
            ServerSearch::Usual { path } => ServerSearchView::Usual { path: path@ },
            ServerSearch::UsualManifest { path } => ServerSearchView::UsualManifest { path: path@ },
            ServerSearch::Executable => ServerSearchView::Executable,
            ServerSearch::Resolving { dir, index } => ServerSearchView::Resolving {
                dir: dir@,
                index: index as nat,
            },
            ServerSearch::Manifest { dir, index, canonical } => ServerSearchView::Manifest {
                dir: dir@,
                index: index as nat,
                canonical: canonical@,
            },
            ServerSearch::Found(path) => ServerSearchView::Found(path@),
            ServerSearch::NotFound => ServerSearchView::NotFound,
        }
    }
}

/// The state in which the relative place `index` is resolved from `dir`, or the
/// one that follows the last of them.
pub open spec fn spec_at_relative(dir: Seq<char>, index: nat) -> ServerSearchView {
    if index < RELATIVE_PLACES {
        ServerSearchView::Resolving { dir, index }
    } else {
        ServerSearchView::NotFound
    }
}

impl ServerSearchView {
    /// What is asked of the machine in this state; nothing once the search is
    /// over.
    pub open spec fn query(self) -> Option<QueryView> {
        match self {
            ServerSearchView::Override => Some(QueryView::Variable(spec_override_variable())),
            ServerSearchView::Overridden { path } => Some(QueryView::Exists(path)),
            ServerSearchView::OverriddenManifest { path } => Some(
                QueryView::Exists(spec_manifest_in(path)),
            ),
            ServerSearchView::Home => Some(QueryView::Variable(spec_home_variable())),
            ServerSearchView::Usual { path } => Some(QueryView::Exists(path)),
            ServerSearchView::UsualManifest { path } => Some(
                QueryView::Exists(spec_manifest_in(path)),
            ),
            ServerSearchView::Executable => Some(QueryView::Executable),
            ServerSearchView::Resolving { dir, index } => if index < RELATIVE_PLACES {
                Some(QueryView::Canonical(spec_join(dir, spec_relative_place(index as int))))
            } else {
                None
            },
            ServerSearchView::Manifest { canonical, .. } => Some(
                QueryView::Exists(spec_manifest_in(canonical)),
            ),
            ServerSearchView::Found(_) => None,
            ServerSearchView::NotFound => None,
        }
    }

    /// Where the project was found, once it was.
    pub open spec fn result(self) -> Option<Seq<char>> {
        match self {
            ServerSearchView::Found(path) => Some(path),
            _ => None,
        }
    }

    /// The state that follows this one when the machine gave `answer` to its
    /// query. A search that is over stays as it is.
    pub open spec fn advance(self, answer: AnswerView) -> ServerSearchView {
        match self {
            ServerSearchView::Override => match answer.text() {
                Some(path) => ServerSearchView::Overridden { path },
                None => ServerSearchView::Home,
            },
            ServerSearchView::Overridden { path } => if answer.flag() {
                ServerSearchView::OverriddenManifest { path }
            } else {
                ServerSearchView::Home
            },
            ServerSearchView::OverriddenManifest { path } => if answer.flag() {
                ServerSearchView::Found(path)
            } else {
                ServerSearchView::Home
            },
            ServerSearchView::Home => match answer.text() {
                Some(home) => ServerSearchView::Usual { path: spec_usual_under(home) },
                None => ServerSearchView::Executable,
            },
            ServerSearchView::Usual { path } => if answer.flag() {
                ServerSearchView::UsualManifest { path }
            } else {
                ServerSearchView::Executable
            },
            ServerSearchView::UsualManifest { path } => if answer.flag() {
                ServerSearchView::Found(path)
            } else {
                ServerSearchView::Executable
            },
            ServerSearchView::Executable => match answer.text() {
                Some(file) => match spec_parent(file) {
                    Some(dir) => spec_at_relative(dir, 0),
                    None => ServerSearchView::NotFound,
                },
                None => ServerSearchView::NotFound,
            },
            ServerSearchView::Resolving { dir, index } => if index < RELATIVE_PLACES {
                match answer.text() {
                    Some(canonical) => ServerSearchView::Manifest { dir, index, canonical },
                    None => spec_at_relative(dir, index + 1),
                }
            } else {
                self
            },
            ServerSearchView::Manifest { dir, index, canonical } => if answer.flag() {
                ServerSearchView::Found(canonical)
            } else {
                spec_at_relative(dir, index + 1)
            },
            ServerSearchView::Found(_) => self,
            ServerSearchView::NotFound => self,
        }
    }

    /// The stage of the search, counted down to the end.
    pub open spec fn stage(self) -> nat {
        match self {
            ServerSearchView::Override => 8,
            ServerSearchView::Overridden { .. } => 7,
            ServerSearchView::OverriddenManifest { .. } => 6,
            ServerSearchView::Home => 5,
            ServerSearchView::Usual { .. } => 4,
            ServerSearchView::UsualManifest { .. } => 3,
            ServerSearchView::Executable => 2,
            ServerSearchView::Resolving { index, .. } => if index < RELATIVE_PLACES {
                1
            } else {
                0
            },
            ServerSearchView::Manifest { .. } => 1,
            ServerSearchView::Found(_) => 0,
            ServerSearchView::NotFound => 0,
        }
    }

    /// How many queries are left at most within the stage.
    pub open spec fn left(self) -> nat {
        match self {
            ServerSearchView::Resolving { index, .. } => if index < RELATIVE_PLACES {
                (2 * (RELATIVE_PLACES - index)) as nat
            } else {
                0
            },
            ServerSearchView::Manifest { index, .. } => if index < RELATIVE_PLACES {
                (2 * (RELATIVE_PLACES - index) - 1) as nat
            } else {
                1
            },
            _ => 0,
        }
    }

    /// What a search in this state comes to on `host`, if every query is
    /// answered as `host` answers it.
    pub open spec fn outcome(self, host: Host) -> Option<Seq<char>> {
        match self {
            ServerSearchView::Override => spec_get_server_path(host),
            ServerSearchView::Overridden { path } => if spec_holds_project(host, path) {
                Some(path)
            } else {
                spec_without_override(host)
            },
            ServerSearchView::OverriddenManifest { path } => if host.has_path(
                spec_manifest_in(path),
            ) {
                Some(path)
            } else {
                spec_without_override(host)
            },
            ServerSearchView::Home => spec_without_override(host),
            ServerSearchView::Usual { path } => if spec_holds_project(host, path) {
                Some(path)
            } else {
                spec_first_project(host, spec_relative_places(host))
            },
            ServerSearchView::UsualManifest { path } => if host.has_path(spec_manifest_in(path)) {
                Some(path)
            } else {
                spec_first_project(host, spec_relative_places(host))
            },
            ServerSearchView::Executable => spec_first_project(host, spec_relative_places(host)),
            ServerSearchView::Resolving { dir, index } => if index < RELATIVE_PLACES {
                spec_first_project(host, spec_places_from(dir).skip(index as int))
            } else {
                None
            },
            ServerSearchView::Manifest { dir, index, canonical } => if host.has_path(
                spec_manifest_in(canonical),
            ) {
                Some(canonical)
            } else if index < RELATIVE_PLACES {
                spec_first_project(host, spec_places_from(dir).skip(index as int + 1))
            } else {
                None
            },
            ServerSearchView::Found(path) => Some(path),
            ServerSearchView::NotFound => None,
        }
    }
}

/// The first project among `places` is at the first place that is one; there
/// is none exactly where no place is one.
pub proof fn lemma_first_project_is_first(host: Host, places: Seq<Seq<char>>)
    ensures
        match spec_first_project(host, places) {
            Some(dir) => exists|i: int|
                0 <= i < places.len() && #[trigger] spec_project_at(host, places[i]) == Some(dir)
                    && forall|j: int|
                    0 <= j < i ==> #[trigger] spec_project_at(host, places[j]) is None,
            None => forall|j: int|
                0 <= j < places.len() ==> #[trigger] spec_project_at(host, places[j]) is None,
        },
    decreases places.len(),
{
    if places.len() == 0 {
    } else if spec_project_at(host, places[0]) is Some {
        assert(spec_project_at(host, places[0]) == spec_first_project(host, places));
    } else {
        let rest = places.drop_first();
        lemma_first_project_is_first(host, rest);
        match spec_first_project(host, rest) {
            Some(dir) => {
                let i = choose|i: int|
                    0 <= i < rest.len() && #[trigger] spec_project_at(host, rest[i]) == Some(dir)
                        && forall|j: int|
                        0 <= j < i ==> #[trigger] spec_project_at(host, rest[j]) is None;
                assert(places[i + 1] == rest[i]);
                assert forall|j: int| 0 <= j < i + 1 implies #[trigger] spec_project_at(
                    host,
                    places[j],
                ) is None by {
                    if j > 0 {
                        assert(places[j] == rest[j - 1]);
                    }
                }
                assert(spec_project_at(host, places[i + 1]) == Some(dir));
            },
            None => {
                assert forall|j: int| 0 <= j < places.len() implies #[trigger] spec_project_at(
                    host,
                    places[j],
                ) is None by {
                    if j > 0 {
                        assert(places[j] == rest[j - 1]);
                    }
                }
            },
        }
    }
}

/// A path that the override variable holds wins over every other place, as
/// soon as the project is at it.
pub proof fn lemma_override_wins(host: Host, path: Seq<char>)
    requires
        host.variable(spec_override_variable()) == Some(path),
        host.has_path(path),
        host.has_path(spec_manifest_in(path)),
    ensures
        spec_get_server_path(host) == Some(path),
{
}

/// Whatever the search finds holds the manifest: a directory without it is
/// never returned, whichever place led to it and whether or not the directory
/// is there.
pub proof fn lemma_found_holds_manifest(host: Host)
    ensures
        spec_get_server_path(host) matches Some(dir) ==> host.has_path(spec_manifest_in(dir)),
{
    if spec_overridden(host) is None && spec_usual(host) is None {
        lemma_relative_needs_manifest(host);
    }
}

/// A place that is there without the manifest is passed over: where the
/// override variable and the usual place lead to no manifest and no relative
/// place leads to a directory with one, nothing is found.
pub proof fn lemma_without_manifest_nothing_is_found(host: Host)
    requires
        host.variable(spec_override_variable()) matches Some(path) ==> !host.has_path(
            spec_manifest_in(path),
        ),
        host.variable(spec_home_variable()) matches Some(home) ==> !host.has_path(
            spec_manifest_in(spec_usual_under(home)),
        ),
        forall|i: int|
            0 <= i < spec_relative_places(host).len() ==> (#[trigger] host.canonical_of(
                spec_relative_places(host)[i],
            ) matches Some(dir) ==> !host.has_path(spec_manifest_in(dir))),
    ensures
        spec_get_server_path(host) is None,
{
    lemma_relative_needs_manifest(host);
    if spec_get_server_path(host) is Some {
        let dir = spec_get_server_path(host)->0;
        let i = choose|i: int|
            0 <= i < spec_relative_places(host).len() && #[trigger] host.canonical_of(
                spec_relative_places(host)[i],
            ) == Some(dir);
        assert(host.has_path(spec_manifest_in(dir)));
    }
}

/// Where neither the override nor the usual place is taken, what is found is
/// a directory that one of the relative places leads to and that holds the
/// manifest; nothing is found exactly where no relative place leads to such a
/// directory.
pub proof fn lemma_relative_needs_manifest(host: Host)
    requires
        spec_overridden(host) is None,
        spec_usual(host) is None,
    ensures
        match spec_get_server_path(host) {
            Some(dir) => host.has_path(spec_manifest_in(dir)) && exists|i: int|
                0 <= i < spec_relative_places(host).len() && #[trigger] host.canonical_of(
                    spec_relative_places(host)[i],
                ) == Some(dir),
            None => forall|i: int|
                0 <= i < spec_relative_places(host).len() ==> (match #[trigger] host.canonical_of(
                    spec_relative_places(host)[i],
                ) {
                    Some(dir) => !host.has_path(spec_manifest_in(dir)),
                    None => true,
                }),
        },
{
    let places = spec_relative_places(host);
    lemma_first_project_is_first(host, places);
    match spec_first_project(host, places) {
        Some(dir) => {
            let i = choose|i: int|
                0 <= i < places.len() && #[trigger] spec_project_at(host, places[i]) == Some(dir)
                    && forall|j: int|
                    0 <= j < i ==> #[trigger] spec_project_at(host, places[j]) is None;
            assert(host.canonical_of(places[i]) == Some(dir));
        },
        None => {
            assert forall|i: int| 0 <= i < places.len() implies (match #[trigger] host.canonical_of(
                places[i],
            ) {
                Some(dir) => !host.has_path(spec_manifest_in(dir)),
                None => true,
            }) by {
                assert(spec_project_at(host, places[i]) is None);
            }
        },
    }
}

/// One step of a search against `host` leaves what the search comes to as it
/// was, and brings the search nearer to its end.
pub proof fn lemma_advance_keeps_outcome(state: ServerSearchView, host: Host)
    requires
        state.query() is Some,
    ensures
        state.advance(host.answer(state.query()->0)).outcome(host) == state.outcome(host),
        state.advance(host.answer(state.query()->0)).stage() < state.stage() || (state.advance(
            host.answer(state.query()->0),
        ).stage() == state.stage() && state.advance(host.answer(state.query()->0)).left()
            < state.left()),
{
    let answer = host.answer(state.query()->0);
    let next = state.advance(answer);
    match state {
        ServerSearchView::Override => {},
        ServerSearchView::Overridden { path } => {},
        ServerSearchView::OverriddenManifest { path } => {},
        ServerSearchView::Home => {},
        ServerSearchView::Usual { path } => {},
        ServerSearchView::UsualManifest { path } => {},
        ServerSearchView::Executable => {
            match host.executable {
                Some(file) => match spec_parent(file) {
                    Some(dir) => {
                        let places = spec_places_from(dir);
                        assert(places.skip(0) =~= places);
                        assert(next == spec_at_relative(dir, 0));
                        assert(next.outcome(host) == spec_first_project(host, places));
                    },
                    None => {},
                },
                None => {},
            }
        },
        ServerSearchView::Resolving { dir, index } => {
            let places = spec_places_from(dir);
            let here = places.skip(index as int);
            assert(here[0] == spec_join(dir, spec_relative_place(index as int)));
            assert(here.drop_first() =~= places.skip(index as int + 1));
            assert(state.outcome(host) == spec_first_project(host, here));
            match host.canonical_of(here[0]) {
                Some(canonical) => {
                    assert(next == ServerSearchView::Manifest { dir, index, canonical });
                },
                None => {
                    assert(next == spec_at_relative(dir, index + 1));
                    assert(next.outcome(host) == spec_first_project(
                        host,
                        places.skip(index as int + 1),
                    ));
                },
            }
        },
        ServerSearchView::Manifest { dir, index, canonical } => {
            if !host.has_path(spec_manifest_in(canonical)) {
                assert(next == spec_at_relative(dir, index + 1));
                if index + 1 >= RELATIVE_PLACES && index < RELATIVE_PLACES {
                    let places = spec_places_from(dir);
                    assert(places.skip(index as int + 1) =~= Seq::<Seq<char>>::empty());
                    assert(spec_first_project(host, places.skip(index as int + 1)) is None);
                }
            }
        },
        ServerSearchView::Found(_) => {},
        ServerSearchView::NotFound => {},
    }
}

/// The name of the variable that overrides the search.
pub fn override_variable() -> (name: String)
    ensures
        name@ == spec_override_variable(),
{
    String::from_str("CLAUDE_PM_SERVER_PATH")
}

/// The project's usual place under `home`.
pub fn usual_under(home: &str) -> (path: String)
    ensures
        path@ == spec_usual_under(home@),
{
    join(home, "Desktop/projects/claudePM/server")
}

/// The manifest in the directory `dir`.
pub fn manifest_in(dir: &str) -> (path: String)
    ensures
        path@ == spec_manifest_in(dir@),
{
    join(dir, "package.json")
}

/// The relative place of this index as seen from `dir`.
pub fn relative_from(dir: &str, index: usize) -> (path: String)
    ensures
        path@ == spec_join(dir@, spec_relative_place(index as int)),
{
    if index == 0 {
        join(dir, "../../../../server")
    } else if index == 1 {
        join(dir, "../../server")
    } else {
        join(dir, "../../../server")
    }
}

/// The state in which the relative place `index` is resolved from `dir`, or the
/// one that follows the last of them.
fn at_relative(dir: String, index: usize) -> (state: ServerSearch)
    ensures
        state@ == spec_at_relative(dir@, index as nat),
{
    if index < RELATIVE_PLACES {
        ServerSearch::Resolving { dir, index }
    } else {
        ServerSearch::NotFound
    }
}

impl ServerSearch {
    /// A search that has not asked anything yet.
    pub fn begin() -> (state: ServerSearch)
        ensures
            state@ == ServerSearchView::Override,
    {
        ServerSearch::Override
    }

    /// What is to be asked of the machine now; nothing once the search is over.
    pub fn query(&self) -> (query: Option<Query>)
        ensures
            query is Some <==> self@.query() is Some,
            query matches Some(q) ==> self@.query() == Some(q@),
    {
        match self {
            ServerSearch::Override => Some(Query::Variable(override_variable())),
            ServerSearch::Overridden { path } => Some(Query::Exists(path.clone())),
            ServerSearch::OverriddenManifest { path } => Some(
                Query::Exists(manifest_in(path.as_str())),
            ),
            ServerSearch::Home => Some(Query::Variable(home_variable())),
            ServerSearch::Usual { path } => Some(Query::Exists(path.clone())),
            ServerSearch::UsualManifest { path } => Some(Query::Exists(manifest_in(path.as_str()))),
            ServerSearch::Executable => Some(Query::Executable),
            ServerSearch::Resolving { dir, index } => if *index < RELATIVE_PLACES {
                Some(Query::Canonical(relative_from(dir.as_str(), *index)))
            } else {
                None
            },
            ServerSearch::Manifest { canonical, .. } => Some(
                Query::Exists(manifest_in(canonical.as_str())),
            ),
            ServerSearch::Found(_) => None,
            ServerSearch::NotFound => None,
        }
    }

    /// The state that follows when the machine gave `answer` to the query of
    /// this state.
    pub fn advance(self, answer: Answer) -> (next: ServerSearch)
        ensures
            next@ == self@.advance(answer@),
    {
        match self {
            ServerSearch::Override => match answer.into_text() {
                Some(path) => ServerSearch::Overridden { path },
                None => ServerSearch::Home,
            },
            ServerSearch::Overridden { path } => if answer.into_flag() {
                ServerSearch::OverriddenManifest { path }
            } else {
                ServerSearch::Home
            },
            ServerSearch::OverriddenManifest { path } => if answer.into_flag() {
                ServerSearch::Found(path)
            } else {
                ServerSearch::Home
            },
            ServerSearch::Home => match answer.into_text() {
                Some(home) => ServerSearch::Usual { path: usual_under(home.as_str()) },
                None => ServerSearch::Executable,
            },
            ServerSearch::Usual { path } => if answer.into_flag() {
                ServerSearch::UsualManifest { path }
            } else {
                ServerSearch::Executable
            },
            ServerSearch::UsualManifest { path } => if answer.into_flag() {
                ServerSearch::Found(path)
            } else {
                ServerSearch::Executable
            },
            ServerSearch::Executable => match answer.into_text() {
                Some(file) => match parent(file.as_str()) {
                    Some(dir) => at_relative(dir, 0),
                    None => ServerSearch::NotFound,
                },
                None => ServerSearch::NotFound,
            },
            ServerSearch::Resolving { dir, index } => if index < RELATIVE_PLACES {
                match answer.into_text() {
                    Some(canonical) => ServerSearch::Manifest { dir, index, canonical },
                    None => at_relative(dir, index + 1),
                }
            } else {
                ServerSearch::Resolving { dir, index }
            },
            ServerSearch::Manifest { dir, index, canonical } => if answer.into_flag() {
                ServerSearch::Found(canonical)
            } else if index < usize::MAX {
                at_relative(dir, index + 1)
            } else {
                ServerSearch::NotFound
            },
            ServerSearch::Found(path) => ServerSearch::Found(path),
            ServerSearch::NotFound => ServerSearch::NotFound,
        }
    }

    /// Where the project was found, once it was.
    pub fn result(self) -> (path: Option<String>)
        ensures
            text_view(path) == self@.result(),
    {
        match self {
            ServerSearch::Found(path) => Some(path),
            _ => None,
        }
    }
}

/// Finds the server project on `host`: the search, run to its end with the
/// answers of `host`.
pub fn get_server_path(host: &HostFacts) -> (path: Option<String>)
    ensures
        text_view(path) == spec_get_server_path(host@),
{
    let mut state = ServerSearch::begin();
    loop
        invariant
            state@.outcome(host@) == spec_get_server_path(host@),
        decreases state@.stage(), state@.left(),
    {
        match state.query() {
            Some(query) => {
                proof {
                    lemma_advance_keeps_outcome(state@, host@);
                }
                let answer = host.answer(&query);
                state = state.advance(answer);
            },
            None => {
                return state.result();
            },
        }
    }
}

} // verus!
