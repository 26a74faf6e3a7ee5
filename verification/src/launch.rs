//! Deciding how a start goes: nothing to do where the server is up already,
//! else the command that launches it, or the reason why it cannot be launched.
//!
//! A [`StartFlow`] asks the machine one thing at a time: whether the port
//! answers, then where the toolchain is, then where the project is, then for
//! the environment. It ends in a [`StartPlan`].

use vstd::prelude::*;
use vstd::string::*;
use crate::health::SERVER_PORT;
use crate::host::{names_view, Answer, AnswerView, Host, HostFacts, Query, QueryView};
use crate::paths::{containing_dir, spec_containing_dir};
use crate::server_dir::{spec_get_server_path, ServerSearch, ServerSearchView};
use crate::toolchain::{
    home_variable,
    spec_find_npm,
    spec_home_variable,
    ToolchainSearch,
    ToolchainSearchView,
};

verus! {

/// Why a start failed.
#[derive(Debug, Clone, PartialEq, Eq)]
pub enum StartError {
    /// The toolchain is nowhere on this machine.
    ToolchainNotFound,
    /// The server project is nowhere on this machine.
    ServerDirectoryNotFound,
    /// The child could not be launched, for this reason.
    SpawnFailed(String),
}

/// A [`StartError`] with its text as a sequence of characters.
pub enum StartErrorView {
    ToolchainNotFound,
    ServerDirectoryNotFound,
    SpawnFailed(Seq<char>),
}

impl View for StartError {
    type V = StartErrorView;

    open spec fn view(&self) -> StartErrorView {
        match *self {
            StartError::ToolchainNotFound => StartErrorView::ToolchainNotFound,
            StartError::ServerDirectoryNotFound => StartErrorView::ServerDirectoryNotFound,
            StartError::SpawnFailed(cause) => StartErrorView::SpawnFailed(cause@),
        }
    }
}

impl StartErrorView {
    /// The error in words.
    pub open spec fn message(self) -> Seq<char> {
        match self {
            StartErrorView::ToolchainNotFound =>
                "Could not find npm. Please ensure Node.js is installed."@,
            StartErrorView::ServerDirectoryNotFound =>
                "Could not find server directory. Set CLAUDE_PM_SERVER_PATH environment variable."@,
            StartErrorView::SpawnFailed(cause) => "Failed to start server: "@ + cause,
        }
    }
}

impl StartError {
    /// The error in words.
    pub fn message(&self) -> (text: String)
        ensures
            text@ == self@.message(),
    {
        match self {
            StartError::ToolchainNotFound => String::from_str(
                "Could not find npm. Please ensure Node.js is installed.",
            ),
            StartError::ServerDirectoryNotFound => String::from_str(
                "Could not find server directory. Set CLAUDE_PM_SERVER_PATH environment variable.",
            ),
            StartError::SpawnFailed(cause) => {
                let mut text = String::from_str("Failed to start server: ");
                text.append(cause.as_str());
                text
            },
        }
    }
}

/// The command that launches the server.
#[derive(Debug, Clone, PartialEq, Eq)]
pub struct LaunchSpec {
    /// The toolchain's executable.
    pub program: String,
    /// Its arguments.
    pub arguments: Vec<String>,
    /// The directory in which it runs: the server project.
    pub working_dir: String,
    /// The command search path that the child is given.
    pub search_path: String,
    /// Whether what the child prints is captured instead of passed through.
    pub capture_output: bool,
}

/// A [`LaunchSpec`] with its text as sequences of characters.
pub struct LaunchSpecView {
    pub program: Seq<char>,
    pub arguments: Seq<Seq<char>>,
    pub working_dir: Seq<char>,
    pub search_path: Seq<char>,
    pub capture_output: bool,
}

impl View for LaunchSpec {
    type V = LaunchSpecView;

    open spec fn view(&self) -> LaunchSpecView {
        LaunchSpecView {
            program: self.program@,
            arguments: names_view(self.arguments@),
            working_dir: self.working_dir@,
            search_path: self.search_path@,
            capture_output: self.capture_output,
        }
    }
}

/// The variable that holds the command search path.
pub open spec fn spec_search_path_variable() -> Seq<char> {
    "PATH"@
}

/// The arguments that make the toolchain run the project's development task,
/// which reloads the server when its sources change.
pub open spec fn spec_arguments() -> Seq<Seq<char>> {
    seq!["run"@, "dev"@]
}

/// The command search path of the child: the directory of the toolchain, the
/// usual directories of the system, the pinned version under `home`, and then
/// what this process had itself, with `:` between them.
pub open spec fn spec_child_search_path(
    tool: Seq<char>,
    home: Seq<char>,
    inherited: Seq<char>,
) -> Seq<char> {
    spec_containing_dir(tool) + ":/usr/local/bin:/opt/homebrew/bin:/usr/bin:/bin:/usr/sbin:/sbin:"@
        + home + "/.nvm/versions/node/v20.18.0/bin:"@ + inherited
}

/// The command that launches the server with the toolchain at `tool` in the
/// project at `dir`.
pub open spec fn spec_launch(
    tool: Seq<char>,
    dir: Seq<char>,
    home: Seq<char>,
    inherited: Seq<char>,
) -> LaunchSpecView {
    LaunchSpecView {
        program: tool,
        arguments: spec_arguments(),
        working_dir: dir,
        search_path: spec_child_search_path(tool, home, inherited),
        capture_output: true,
    }
}

/// How a start goes.
#[derive(Debug, Clone, PartialEq, Eq)]
pub enum StartPlan {
    /// The server is up already: nothing is launched.
    AlreadyRunning,
    /// The server is launched with this command.
    Launch(LaunchSpec),
    /// The server cannot be launched.
    Fail(StartError),
}

/// A [`StartPlan`] with its text as sequences of characters.
pub enum StartPlanView {
    AlreadyRunning,
    Launch(LaunchSpecView),
    Fail(StartErrorView),
}

impl View for StartPlan {
    type V = StartPlanView;

    open spec fn view(&self) -> StartPlanView {
        match *self {
            StartPlan::AlreadyRunning => StartPlanView::AlreadyRunning,
            StartPlan::Launch(spec) => StartPlanView::Launch(spec@),
            StartPlan::Fail(error) => StartPlanView::Fail(error@),
        }
    }
}

/// The text that a variable holds, or the empty text where it is not set.
pub open spec fn spec_or_empty(value: Option<Seq<char>>) -> Seq<char> {
    match value {
        Some(text) => text,
        None => Seq::empty(),
    }
}

/// How a start goes once the project was looked for, with the toolchain at
/// `tool`.
pub open spec fn spec_plan_with_server(
    host: Host,
    tool: Seq<char>,
    dir: Option<Seq<char>>,
) -> StartPlanView {
    match dir {
        Some(dir) => StartPlanView::Launch(
            spec_launch(
                tool,
                dir,
                spec_or_empty(host.variable(spec_home_variable())),
                spec_or_empty(host.variable(spec_search_path_variable())),
            ),
        ),
        None => StartPlanView::Fail(StartErrorView::ServerDirectoryNotFound),
    }
}

/// How a start goes once the toolchain was looked for.
pub open spec fn spec_plan_with_tool(host: Host, tool: Option<Seq<char>>) -> StartPlanView {
    match tool {
        Some(tool) => spec_plan_with_server(host, tool, spec_get_server_path(host)),
        None => StartPlanView::Fail(StartErrorView::ToolchainNotFound),
    }
}

/// How a start goes on `host`.
pub open spec fn spec_plan_start(host: Host) -> StartPlanView {
    if host.listens(SERVER_PORT) {
        StartPlanView::AlreadyRunning
    } else {
        spec_plan_with_tool(host, spec_find_npm(host))
    }
}

/// How far a start has come.
#[derive(Debug, Clone, PartialEq, Eq)]
pub enum StartFlow {
    /// The port is being tried.
    Probing,
    /// The toolchain is being looked for.
    Toolchain(ToolchainSearch),
    /// The project is being looked for; the toolchain is at `tool`.
    Server { tool: String, search: ServerSearch },
    /// The home directory is being asked for.
    Home { tool: String, dir: String },
    /// The command search path is being asked for.
    SearchPath { tool: String, dir: String, home: String },
    /// It is decided how the start goes.
    Planned(StartPlan),
}

/// A [`StartFlow`] with its text as sequences of characters.
pub enum StartFlowView {
    Probing,
    Toolchain(ToolchainSearchView),
    Server { tool: Seq<char>, search: ServerSearchView },
    Home { tool: Seq<char>, dir: Seq<char> },
    SearchPath { tool: Seq<char>, dir: Seq<char>, home: Seq<char> },
    Planned(StartPlanView),
}

impl View for StartFlow {
    type V = StartFlowView;

    open spec fn view(&self) -> StartFlowView {
        match *self {
            StartFlow::Probing => StartFlowView::Probing,
            StartFlow::Toolchain(search) => StartFlowView::Toolchain(search@),
            StartFlow::Server { tool, search } => StartFlowView::Server {
                tool: tool@,
                search: search@,
            },
            StartFlow::Home { tool, dir } => StartFlowView::Home { tool: tool@, dir: dir@ },
            StartFlow::SearchPath { tool, dir, home } => StartFlowView::SearchPath {
                tool: tool@,
                dir: dir@,
                home: home@,
            },
            StartFlow::Planned(plan) => StartFlowView::Planned(plan@),
        }
    }
}

/// The state that follows a step of the search for the project: the search
/// goes on, or it is over and the start goes on without it.
pub open spec fn spec_with_server(tool: Seq<char>, search: ServerSearchView) -> StartFlowView {
    if search.query() is Some {
        StartFlowView::Server { tool, search }
    } else {
        match search.result() {
            Some(dir) => StartFlowView::Home { tool, dir },
            None => StartFlowView::Planned(
                StartPlanView::Fail(StartErrorView::ServerDirectoryNotFound),
            ),
        }
    }
}

/// The state that follows a step of the search for the toolchain: the search
/// goes on, or it is over and the start goes on without it.
pub open spec fn spec_with_toolchain(search: ToolchainSearchView) -> StartFlowView {
    if search.query() is Some {
        StartFlowView::Toolchain(search)
    } else {
        match search.result() {
            Some(tool) => spec_with_server(tool, ServerSearchView::Override),
            None => StartFlowView::Planned(StartPlanView::Fail(StartErrorView::ToolchainNotFound)),
        }
    }
}

impl StartFlowView {
    /// Whether a search that this state holds has a query to put. Every state
    /// that the library hands out is settled.
    pub open spec fn settled(self) -> bool {
        match self {
            StartFlowView::Toolchain(search) => search.query() is Some,
            StartFlowView::Server { search, .. } => search.query() is Some,
            _ => true,
        }
    }

    /// This state, or the one that it stands for where a search that it holds
    /// is over.
    pub open spec fn settle(self) -> StartFlowView {
        match self {
            StartFlowView::Toolchain(search) => spec_with_toolchain(search),
            StartFlowView::Server { tool, search } => spec_with_server(tool, search),
            _ => self,
        }
    }

    /// What is asked of the machine in this state; nothing once the plan is
    /// made.
    pub open spec fn query(self) -> Option<QueryView> {
        match self {
            StartFlowView::Probing => Some(QueryView::Listening(SERVER_PORT)),
            StartFlowView::Toolchain(search) => search.query(),
            StartFlowView::Server { search, .. } => search.query(),
            StartFlowView::Home { .. } => Some(QueryView::Variable(spec_home_variable())),
            StartFlowView::SearchPath { .. } => Some(
                QueryView::Variable(spec_search_path_variable()),
            ),
            StartFlowView::Planned(_) => None,
        }
    }

    /// The plan, once it is made.
    pub open spec fn plan(self) -> Option<StartPlanView> {
        match self {
            StartFlowView::Planned(plan) => Some(plan),
            _ => None,
        }
    }

    /// The state that follows this one when the machine gave `answer` to its
    /// query. A plan that is made stays as it is.
    pub open spec fn advance(self, answer: AnswerView) -> StartFlowView {
        match self {
            StartFlowView::Probing => if answer.flag() {
                StartFlowView::Planned(StartPlanView::AlreadyRunning)
            } else {
                spec_with_toolchain(ToolchainSearchView::Resolving)
            },
            StartFlowView::Toolchain(search) => spec_with_toolchain(search.advance(answer)),
            StartFlowView::Server { tool, search } => spec_with_server(
                tool,
                search.advance(answer),
            ),
            StartFlowView::Home { tool, dir } => StartFlowView::SearchPath {
                tool,
                dir,
                home: spec_or_empty(answer.text()),
            },
            StartFlowView::SearchPath { tool, dir, home } => StartFlowView::Planned(
                StartPlanView::Launch(spec_launch(tool, dir, home, spec_or_empty(answer.text()))),
            ),
            StartFlowView::Planned(_) => self,
        }
    }

    /// The part of the start that this state is in, counted down to the end.
    pub open spec fn part(self) -> nat {
        match self {
            StartFlowView::Probing => 5,
            StartFlowView::Toolchain(_) => 4,
            StartFlowView::Server { .. } => 3,
            StartFlowView::Home { .. } => 2,
            StartFlowView::SearchPath { .. } => 1,
            StartFlowView::Planned(_) => 0,
        }
    }

    /// The stage of the search that this state holds.
    pub open spec fn stage(self) -> nat {
        match self {
            StartFlowView::Toolchain(search) => search.stage(),
            StartFlowView::Server { search, .. } => search.stage(),
            _ => 0,
        }
    }

    /// How much is left within the stage of the search that this state holds.
    pub open spec fn left(self) -> nat {
        match self {
            StartFlowView::Toolchain(search) => search.left(),
            StartFlowView::Server { search, .. } => search.left(),
            _ => 0,
        }
    }

    /// The plan that a start in this state comes to on `host`, if every query
    /// is answered as `host` answers it.
    pub open spec fn outcome(self, host: Host) -> StartPlanView {
        match self {
            StartFlowView::Probing => spec_plan_start(host),
            StartFlowView::Toolchain(search) => spec_plan_with_tool(host, search.outcome(host)),
            StartFlowView::Server { tool, search } => spec_plan_with_server(
                host,
                tool,
                search.outcome(host),
            ),
            StartFlowView::Home { tool, dir } => spec_plan_with_server(host, tool, Some(dir)),
            StartFlowView::SearchPath { tool, dir, home } => StartPlanView::Launch(
                spec_launch(
                    tool,
                    dir,
                    home,
                    spec_or_empty(host.variable(spec_search_path_variable())),
                ),
            ),
            StartFlowView::Planned(plan) => plan,
        }
    }
}

/// One step of a start against `host` leaves the plan that the start comes to
/// as it was, keeps the state settled, and brings the start nearer to its end.
pub proof fn lemma_advance_keeps_plan(state: StartFlowView, host: Host)
    requires
        state.query() is Some,
    ensures
        state.advance(host.answer(state.query()->0)).outcome(host) == state.outcome(host),
        state.advance(host.answer(state.query()->0)).settled(),
        ({
            let next = state.advance(host.answer(state.query()->0));
            ||| next.part() < state.part()
            ||| next.part() == state.part() && next.stage() < state.stage()
            ||| next.part() == state.part() && next.stage() == state.stage() && next.left()
                < state.left()
        }),
{
    let answer = host.answer(state.query()->0);
    let next = state.advance(answer);
    match state {
        StartFlowView::Probing => {},
        StartFlowView::Toolchain(search) => {
            crate::toolchain::lemma_advance_keeps_outcome(search, host);
        },
        StartFlowView::Server { tool, search } => {
            crate::server_dir::lemma_advance_keeps_outcome(search, host);
        },
        StartFlowView::Home { tool, dir } => {},
        StartFlowView::SearchPath { tool, dir, home } => {},
        StartFlowView::Planned(_) => {},
    }
}

/// The name of the variable that holds the command search path.
pub fn search_path_variable() -> (name: String)
    ensures
        name@ == spec_search_path_variable(),
{
    String::from_str("PATH")
}

/// The arguments that make the toolchain run the project's development task.
pub fn arguments() -> (list: Vec<String>)
    ensures
        names_view(list@) == spec_arguments(),
{
    let mut list: Vec<String> = Vec::new();
    list.push(String::from_str("run"));
    list.push(String::from_str("dev"));
    assert(names_view(list@) =~= spec_arguments());
    list
}

/// The command search path of the child.
pub fn child_search_path(tool: &str, home: &str, inherited: &str) -> (path: String)
    ensures
        path@ == spec_child_search_path(tool@, home@, inherited@),
{
    let mut path = containing_dir(tool);
    path.append(":/usr/local/bin:/opt/homebrew/bin:/usr/bin:/bin:/usr/sbin:/sbin:");
    path.append(home);
    path.append("/.nvm/versions/node/v20.18.0/bin:");
    path.append(inherited);
    path
}

/// The command that launches the server with the toolchain at `tool` in the
/// project at `dir`.
pub fn launch(tool: String, dir: String, home: &str, inherited: &str) -> (spec: LaunchSpec)
    ensures
        spec@ == spec_launch(tool@, dir@, home@, inherited@),
{
    let search_path = child_search_path(tool.as_str(), home, inherited);
    LaunchSpec {
        program: tool,
        arguments: arguments(),
        working_dir: dir,
        search_path,
        capture_output: true,
    }
}

/// The text of `value`, or the empty text.
fn or_empty(value: Option<String>) -> (text: String)
    ensures
        text@ == spec_or_empty(crate::host::text_view(value)),
{
    match value {
        Some(text) => text,
        None => String::new(),
    }
}

/// The state that follows a step of the search for the project.
fn with_server(tool: String, search: ServerSearch) -> (state: StartFlow)
    ensures
        state@ == spec_with_server(tool@, search@),
{
    if search.query().is_some() {
        StartFlow::Server { tool, search }
    } else {
        match search.result() {
            Some(dir) => StartFlow::Home { tool, dir },
            None => StartFlow::Planned(StartPlan::Fail(StartError::ServerDirectoryNotFound)),
        }
    }
}

/// The state that follows a step of the search for the toolchain.
fn with_toolchain(search: ToolchainSearch) -> (state: StartFlow)
    ensures
        state@ == spec_with_toolchain(search@),
{
    if search.query().is_some() {
        StartFlow::Toolchain(search)
    } else {
        match search.result() {
            Some(tool) => with_server(tool, ServerSearch::begin()),
            None => StartFlow::Planned(StartPlan::Fail(StartError::ToolchainNotFound)),
        }
    }
}

/// What a start does next.
#[derive(Debug, Clone, PartialEq, Eq)]
pub enum Step {
    /// It asks the machine this; the answer goes to the state beside it.
    Ask(StartFlow, Query),
    /// It is over, with this plan.
    Done(StartPlan),
}

impl StartFlow {
    /// A start that has not asked anything yet.
    pub fn begin() -> (state: StartFlow)
        ensures
            state@ == StartFlowView::Probing,
            state@.settled(),
    {
        StartFlow::Probing
    }

    /// What is to be asked of the machine now; nothing once the plan is made.
    pub fn query(&self) -> (query: Option<Query>)
        ensures
            query is Some <==> self@.query() is Some,
            query matches Some(q) ==> self@.query() == Some(q@),
    {
        match self {
            StartFlow::Probing => Some(Query::Listening(SERVER_PORT)),
            StartFlow::Toolchain(search) => search.query(),
            StartFlow::Server { search, .. } => search.query(),
            StartFlow::Home { .. } => Some(Query::Variable(home_variable())),
            StartFlow::SearchPath { .. } => Some(Query::Variable(search_path_variable())),
            StartFlow::Planned(_) => None,
        }
    }

    /// The state that follows when the machine gave `answer` to the query of
    /// this state.
    pub fn advance(self, answer: Answer) -> (next: StartFlow)
        ensures
            next@ == self@.advance(answer@),
            next@.settled(),
    {
        match self {
            StartFlow::Probing => if answer.into_flag() {
                StartFlow::Planned(StartPlan::AlreadyRunning)
            } else {
                with_toolchain(ToolchainSearch::begin())
            },
            StartFlow::Toolchain(search) => with_toolchain(search.advance(answer)),
            StartFlow::Server { tool, search } => with_server(tool, search.advance(answer)),
            StartFlow::Home { tool, dir } => StartFlow::SearchPath {
                tool,
                dir,
                home: or_empty(answer.into_text()),
            },
            StartFlow::SearchPath { tool, dir, home } => {
                let inherited = or_empty(answer.into_text());
                StartFlow::Planned(
                    StartPlan::Launch(launch(tool, dir, home.as_str(), inherited.as_str())),
                )
            },
            StartFlow::Planned(plan) => StartFlow::Planned(plan),
        }
    }

    /// The plan, once it is made: a settled state has either a query or a
    /// plan.
    pub fn plan(self) -> (plan: Option<StartPlan>)
        ensures
            plan is Some <==> self@.plan() is Some,
            plan matches Some(p) ==> self@.plan() == Some(p@),
            self@.settled() && self@.query() is None ==> plan is Some,
    {
        match self {
            StartFlow::Planned(plan) => Some(plan),
            _ => None,
        }
    }

    /// This state, or the one that it stands for where a search that it holds
    /// is over. The states that [`StartFlow::begin`] and [`StartFlow::advance`]
    /// give are settled already.
    pub fn settle(self) -> (state: StartFlow)
        ensures
            state@ == self@.settle(),
            state@.settled(),
            self@.settled() ==> state@ == self@,
    {
        match self {
            StartFlow::Toolchain(search) => with_toolchain(search),
            StartFlow::Server { tool, search } => with_server(tool, search),
            other => other,
        }
    }

    /// What the start does next: it asks, or it is over.
    pub fn step(self) -> (step: Step)
        ensures
            match step {
                Step::Ask(state, query) => state@ == self@.settle() && state@.query() == Some(
                    query@,
                ),
                Step::Done(plan) => self@.settle() == StartFlowView::Planned(plan@),
            },
    {
        let state = self.settle();
        match state.query() {
            Some(query) => Step::Ask(state, query),
            None => match state {
                StartFlow::Planned(plan) => Step::Done(plan),
                _ => vstd::pervasive::unreached(),
            },
        }
    }
}

/// Plans a start on `host`: the flow, run to its end with the answers of
/// `host`.
pub fn plan_start(host: &HostFacts) -> (plan: StartPlan)
    ensures
        plan@ == spec_plan_start(host@),
{
    let mut state = StartFlow::begin();
    loop
        invariant
            state@.settled(),
            state@.outcome(host@) == spec_plan_start(host@),
        decreases state@.part(), state@.stage(), state@.left(),
    {
        match state.step() {
            Step::Ask(asking, query) => {
                proof {
                    lemma_advance_keeps_plan(asking@, host@);
                }
                state = asking.advance(host.answer(&query));
            },
            Step::Done(plan) => {
                return plan;
            },
        }
    }
}

} // verus!
