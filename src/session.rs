use vstd::prelude::*;

use crate::address::{parse_url, url_parse_failure};
use crate::error::{WindowError, WindowFault};

verus! {

/// A request of the front end that involves the window registry.
pub enum WindowCommand {
    /// Open a window on an external address, parented to the main window.
    /// The window is centred, resizable, decorated and opaque; its size goes
    /// with the request to whoever builds it.
    OpenExternal { label: String, url: String, title: String },
    /// Close the window with this label, if one is open.
    Close { label: String },
    /// Focus and raise the window with this label, if one is open.
    Focus { label: String },
}

/// What the windowing subsystem reported on the last action asked of it.
pub enum Report {
    /// Whether the main window is open.
    MainWindow(bool),
    /// Whether a window with the label asked for is open.
    Found(bool),
    /// How the call asked for went: the subsystem's own words on failure.
    Outcome(Result<(), String>),
}

/// What the windowing subsystem is asked to do next, or the reply that ends
/// the command.
pub enum Action {
    /// Look the main window up.
    FindMainWindow,
    /// Look the window with this label up.
    FindWindow { label: String },
    /// Make a builder for a window with this label on this address.
    MakeBuilder { label: String, url: url::Url },
    /// Build and show the window from the builder, with this title, under
    /// the main window.
    Build { title: String },
    /// Close the window that was found.
    CloseWindow,
    /// Focus the window that was found.
    FocusWindow,
    /// The command is over: this goes back to the front end.
    Reply(Result<(), WindowError>),
}

/// Where a command stands, between two reports.
pub enum Session {
    /// An opening command waits to hear whether the main window is open.
    AwaitMainWindow { label: String, url: String, title: String },
    /// An opening command waits for its builder.
    AwaitBuilder { title: String },
    /// An opening command waits for its window to be built.
    AwaitBuild,
    /// A closing command waits for the lookup of its window.
    AwaitCloseTarget,
    /// A closing command waits for the window to close.
    AwaitClose,
    /// A focusing command waits for the lookup of its window.
    AwaitFocusTarget,
    /// A focusing command waits for the window to take focus.
    AwaitFocus,
    /// The command has replied.
    Done,
}

/// The model of a [`WindowCommand`].
pub enum CommandModel {
    OpenExternal { label: Seq<char>, url: Seq<char>, title: Seq<char> },
    Close { label: Seq<char> },
    Focus { label: Seq<char> },
}

/// The model of a [`Report`].
pub enum ReportModel {
    MainWindow(bool),
    Found(bool),
    Outcome(Result<(), Seq<char>>),
}

/// The model of an [`Action`]. A builder's address is known to parse; the
/// parsed value itself is not modelled.
pub enum ActionModel {
    FindMainWindow,
    FindWindow { label: Seq<char> },
    MakeBuilder { label: Seq<char> },
    Build { title: Seq<char> },
    CloseWindow,
    FocusWindow,
    Reply(Result<(), WindowFault>),
}

/// The model of a [`Session`].
pub enum SessionModel {
    AwaitMainWindow { label: Seq<char>, url: Seq<char>, title: Seq<char> },
    AwaitBuilder { title: Seq<char> },
    AwaitBuild,
    AwaitCloseTarget,
    AwaitClose,
    AwaitFocusTarget,
    AwaitFocus,
    Done,
}

impl View for WindowCommand {
    type V = CommandModel;

    open spec fn view(&self) -> CommandModel {
        match self {
            WindowCommand::OpenExternal { label, url, title } => CommandModel::OpenExternal {
                label: label@,
                url: url@,
                title: title@,
            },
            WindowCommand::Close { label } => CommandModel::Close { label: label@ },
            WindowCommand::Focus { label } => CommandModel::Focus { label: label@ },
        }
    }
}

/// The model of a result whose error carries text.
pub open spec fn outcome_view(r: Result<(), String>) -> Result<(), Seq<char>> {
    match r {
        Ok(()) => Ok(()),
        Err(t) => Err(t@),
    }
}

/// The model of a reply.
pub open spec fn reply_view(r: Result<(), WindowError>) -> Result<(), WindowFault> {
    match r {
        Ok(()) => Ok(()),
        Err(e) => Err(e@),
    }
}

impl View for Report {
    type V = ReportModel;

    open spec fn view(&self) -> ReportModel {
        match self {
            Report::MainWindow(b) => ReportModel::MainWindow(*b),
            Report::Found(b) => ReportModel::Found(*b),
            Report::Outcome(r) => ReportModel::Outcome(outcome_view(*r)),
        }
    }
}

impl View for Action {
    type V = ActionModel;

    open spec fn view(&self) -> ActionModel {
        match self {
            Action::FindMainWindow => ActionModel::FindMainWindow,
            Action::FindWindow { label } => ActionModel::FindWindow { label: label@ },
            Action::MakeBuilder { label, .. } => ActionModel::MakeBuilder { label: label@ },
            Action::Build { title } => ActionModel::Build { title: title@ },
            Action::CloseWindow => ActionModel::CloseWindow,
            Action::FocusWindow => ActionModel::FocusWindow,
            Action::Reply(r) => ActionModel::Reply(reply_view(*r)),
        }
    }
}

impl View for Session {
    type V = SessionModel;

    open spec fn view(&self) -> SessionModel {
        match self {
            Session::AwaitMainWindow { label, url, title } => SessionModel::AwaitMainWindow {
                label: label@,
                url: url@,
                title: title@,
            },
            Session::AwaitBuilder { title } => SessionModel::AwaitBuilder { title: title@ },
            Session::AwaitBuild => SessionModel::AwaitBuild,
            Session::AwaitCloseTarget => SessionModel::AwaitCloseTarget,
            Session::AwaitClose => SessionModel::AwaitClose,
            Session::AwaitFocusTarget => SessionModel::AwaitFocusTarget,
            Session::AwaitFocus => SessionModel::AwaitFocus,
            Session::Done => SessionModel::Done,
        }
    }
}

/// The end of a command, with its reply.
pub open spec fn finish_spec(reply: Result<(), WindowFault>) -> (SessionModel, ActionModel) {
    (SessionModel::Done, ActionModel::Reply(reply))
}

/// The first action of a command, and the session that waits for its report.
pub open spec fn start_spec(c: CommandModel) -> (SessionModel, ActionModel) {
    match c {
        CommandModel::OpenExternal { label, url, title } => (
            SessionModel::AwaitMainWindow { label, url, title },
            ActionModel::FindMainWindow,
        ),
        CommandModel::Close { label } => (
            SessionModel::AwaitCloseTarget,
            ActionModel::FindWindow { label },
        ),
        CommandModel::Focus { label } => (
            SessionModel::AwaitFocusTarget,
            ActionModel::FindWindow { label },
        ),
    }
}

/// Whether `r` answers the action that session `s` waits on.
pub open spec fn accepts_spec(s: SessionModel, r: ReportModel) -> bool {
    match s {
        SessionModel::AwaitMainWindow { .. } => r is MainWindow,
        SessionModel::AwaitCloseTarget => r is Found,
        SessionModel::AwaitFocusTarget => r is Found,
        SessionModel::AwaitBuilder { .. } => r is Outcome,
        SessionModel::AwaitBuild => r is Outcome,
        SessionModel::AwaitClose => r is Outcome,
        SessionModel::AwaitFocus => r is Outcome,
        SessionModel::Done => false,
    }
}

/// An opening command once the main window was found and its address went
/// through the parser: `failure` is `None` where the address parsed.
pub open spec fn opened_spec(
    label: Seq<char>,
    title: Seq<char>,
    failure: Option<Seq<char>>,
) -> (SessionModel, ActionModel) {
    match failure {
        Some(t) => finish_spec(Err(WindowFault::InvalidUrl(t))),
        None => (SessionModel::AwaitBuilder { title }, ActionModel::MakeBuilder { label }),
    }
}

/// The reply to a subsystem call that ends the command, its failure text
/// wrapped by `fault`.
pub open spec fn ended_spec(
    r: Result<(), Seq<char>>,
    fault: spec_fn(Seq<char>) -> WindowFault,
) -> (SessionModel, ActionModel) {
    match r {
        Ok(()) => finish_spec(Ok(())),
        Err(t) => finish_spec(Err(fault(t))),
    }
}

/// What session `s` does on report `r`: the next session and action.
pub open spec fn step_spec(s: SessionModel, r: ReportModel) -> (SessionModel, ActionModel)
    recommends
        accepts_spec(s, r),
{
    match (s, r) {
        (SessionModel::AwaitMainWindow { label, url, title }, ReportModel::MainWindow(found)) => {
            if found {
                opened_spec(label, title, url_parse_failure(url))
            } else {
                finish_spec(Err(WindowFault::MainWindowMissing))
            }
        },
        (SessionModel::AwaitBuilder { title }, ReportModel::Outcome(o)) => match o {
            Ok(()) => (SessionModel::AwaitBuild, ActionModel::Build { title }),
            Err(t) => finish_spec(Err(WindowFault::BuilderFailed(t))),
        },
        (SessionModel::AwaitBuild, ReportModel::Outcome(o)) => ended_spec(
            o,
            |t: Seq<char>| WindowFault::BuildFailed(t),
        ),
        (SessionModel::AwaitCloseTarget, ReportModel::Found(found)) => {
            if found {
                (SessionModel::AwaitClose, ActionModel::CloseWindow)
            } else {
                finish_spec(Ok(()))
            }
        },
        (SessionModel::AwaitClose, ReportModel::Outcome(o)) => ended_spec(
            o,
            |t: Seq<char>| WindowFault::CloseFailed(t),
        ),
        (SessionModel::AwaitFocusTarget, ReportModel::Found(found)) => {
            if found {
                (SessionModel::AwaitFocus, ActionModel::FocusWindow)
            } else {
                finish_spec(Ok(()))
            }
        },
        (SessionModel::AwaitFocus, ReportModel::Outcome(o)) => ended_spec(
            o,
            |t: Seq<char>| WindowFault::FocusFailed(t),
        ),
        // not reached where `accepts_spec(s, r)` holds
        _ => (s, ActionModel::Reply(Ok(()))),
    }
}

/// Command `c` run against the subsystem's `reports`, one per action asked
/// for: the session it is left in, and every action it asked for in turn.
pub open spec fn run_spec(c: CommandModel, reports: Seq<ReportModel>) -> (SessionModel, Seq<
    ActionModel,
>)
    decreases reports.len(),
{
    if reports.len() == 0 {
        (start_spec(c).0, seq![start_spec(c).1])
    } else {
        let before = run_spec(c, reports.drop_last());
        let next = step_spec(before.0, reports.last());
        (next.0, before.1.push(next.1))
    }
}

/// Whether every report of `reports` answers the action it follows.
pub open spec fn answers_spec(c: CommandModel, reports: Seq<ReportModel>) -> bool
    decreases reports.len(),
{
    reports.len() == 0 || (answers_spec(c, reports.drop_last()) && accepts_spec(
        run_spec(c, reports.drop_last()).0,
        reports.last(),
    ))
}

/// Whether some action of `actions` asks for a window to be made or shown.
pub open spec fn makes_window(actions: Seq<ActionModel>) -> bool {
    exists|i: int|
        0 <= i < actions.len() && (#[trigger] actions[i] is MakeBuilder || actions[i] is Build)
}

/// Opening a window on an address that does not parse fails with the
/// parser's words, asks for no window, and ends the command.
pub proof fn lemma_malformed_address_opens_nothing(
    label: Seq<char>,
    url: Seq<char>,
    title: Seq<char>,
)
    requires
        url_parse_failure(url) is Some,
    ensures
        ({
            let c = CommandModel::OpenExternal { label, url, title };
            let reports = seq![ReportModel::MainWindow(true)];
            &&& answers_spec(c, reports)
            &&& run_spec(c, reports) == (
                SessionModel::Done,
                seq![
                    ActionModel::FindMainWindow,
                    ActionModel::Reply(Err(WindowFault::InvalidUrl(url_parse_failure(url)->0))),
                ],
            )
            &&& !makes_window(run_spec(c, reports).1)
        }),
{
    let c = CommandModel::OpenExternal { label, url, title };
    let reports = seq![ReportModel::MainWindow(true)];
    reveal_with_fuel(run_spec, 2);
    reveal_with_fuel(answers_spec, 2);
    assert(reports.drop_last() =~= Seq::<ReportModel>::empty());
    let actions = run_spec(c, reports).1;
    assert(actions =~= seq![
        ActionModel::FindMainWindow,
        ActionModel::Reply(Err(WindowFault::InvalidUrl(url_parse_failure(url)->0))),
    ]);
    assert(!makes_window(actions)) by {
        assert forall|i: int| 0 <= i < actions.len() implies !(#[trigger] actions[i] is MakeBuilder
            || actions[i] is Build) by {
            if i == 0 {
            } else {
            }
        }
    }
}

/// Opening a window while the main window is missing fails for that reason,
/// asks for no window, and ends the command.
pub proof fn lemma_missing_main_window_opens_nothing(
    label: Seq<char>,
    url: Seq<char>,
    title: Seq<char>,
)
    ensures
        ({
            let c = CommandModel::OpenExternal { label, url, title };
            let reports = seq![ReportModel::MainWindow(false)];
            &&& answers_spec(c, reports)
            &&& run_spec(c, reports) == (
                SessionModel::Done,
                seq![
                    ActionModel::FindMainWindow,
                    ActionModel::Reply(Err(WindowFault::MainWindowMissing)),
                ],
            )
            &&& !makes_window(run_spec(c, reports).1)
        }),
{
    let c = CommandModel::OpenExternal { label, url, title };
    let reports = seq![ReportModel::MainWindow(false)];
    reveal_with_fuel(run_spec, 2);
    reveal_with_fuel(answers_spec, 2);
    assert(reports.drop_last() =~= Seq::<ReportModel>::empty());
    let actions = run_spec(c, reports).1;
    assert(actions =~= seq![
        ActionModel::FindMainWindow,
        ActionModel::Reply(Err(WindowFault::MainWindowMissing)),
    ]);
    assert(!makes_window(actions)) by {
        assert forall|i: int| 0 <= i < actions.len() implies !(#[trigger] actions[i] is MakeBuilder
            || actions[i] is Build) by {
            if i == 0 {
            } else {
            }
        }
    }
}

/// Opening a window on an address that parses, with the main window open:
/// a builder is asked for under the label, then the window is built with the
/// title, and where the subsystem does both the command succeeds.
pub proof fn lemma_well_formed_address_opens_window(
    label: Seq<char>,
    url: Seq<char>,
    title: Seq<char>,
)
    requires
        url_parse_failure(url) is None,
    ensures
        ({
            let c = CommandModel::OpenExternal { label, url, title };
            let reports = seq![
                ReportModel::MainWindow(true),
                ReportModel::Outcome(Ok(())),
                ReportModel::Outcome(Ok(())),
            ];
            &&& answers_spec(c, reports)
            &&& run_spec(c, reports) == (
                SessionModel::Done,
                seq![
                    ActionModel::FindMainWindow,
                    ActionModel::MakeBuilder { label },
                    ActionModel::Build { title },
                    ActionModel::Reply(Ok(())),
                ],
            )
        }),
{
    let c = CommandModel::OpenExternal { label, url, title };
    let r0 = ReportModel::MainWindow(true);
    let r1 = ReportModel::Outcome(Ok(()));
    let reports = seq![r0, r1, r1];
    reveal_with_fuel(run_spec, 4);
    reveal_with_fuel(answers_spec, 4);
    assert(reports.drop_last() =~= seq![r0, r1]);
    assert(reports.drop_last().drop_last() =~= seq![r0]);
    assert(reports.drop_last().drop_last().drop_last() =~= Seq::<ReportModel>::empty());
    assert(run_spec(c, reports).1 =~= seq![
        ActionModel::FindMainWindow,
        ActionModel::MakeBuilder { label },
        ActionModel::Build { title },
        ActionModel::Reply(Ok(())),
    ]);
}

/// Closing a label that no open window has succeeds and does nothing else.
pub proof fn lemma_close_of_absent_window_succeeds(label: Seq<char>)
    ensures
        ({
            let c = CommandModel::Close { label };
            let reports = seq![ReportModel::Found(false)];
            &&& answers_spec(c, reports)
            &&& run_spec(c, reports) == (
                SessionModel::Done,
                seq![ActionModel::FindWindow { label }, ActionModel::Reply(Ok(()))],
            )
        }),
{
    let c = CommandModel::Close { label };
    let reports = seq![ReportModel::Found(false)];
    reveal_with_fuel(run_spec, 2);
    reveal_with_fuel(answers_spec, 2);
    assert(reports.drop_last() =~= Seq::<ReportModel>::empty());
    assert(run_spec(c, reports).1 =~= seq![
        ActionModel::FindWindow { label },
        ActionModel::Reply(Ok(())),
    ]);
}

/// Focusing a label that no open window has succeeds and does nothing else.
pub proof fn lemma_focus_of_absent_window_succeeds(label: Seq<char>)
    ensures
        ({
            let c = CommandModel::Focus { label };
            let reports = seq![ReportModel::Found(false)];
            &&& answers_spec(c, reports)
            &&& run_spec(c, reports) == (
                SessionModel::Done,
                seq![ActionModel::FindWindow { label }, ActionModel::Reply(Ok(()))],
            )
        }),
{
    let c = CommandModel::Focus { label };
    let reports = seq![ReportModel::Found(false)];
    reveal_with_fuel(run_spec, 2);
    reveal_with_fuel(answers_spec, 2);
    assert(reports.drop_last() =~= Seq::<ReportModel>::empty());
    assert(run_spec(c, reports).1 =~= seq![
        ActionModel::FindWindow { label },
        ActionModel::Reply(Ok(())),
    ]);
}

/// Closing twice: a close that found the window and had it closed succeeds,
/// and a second close of the same label, which finds no window any more,
/// succeeds too.
pub proof fn lemma_second_close_succeeds(label: Seq<char>)
    ensures
        ({
            let c = CommandModel::Close { label };
            let first = seq![ReportModel::Found(true), ReportModel::Outcome(Ok(()))];
            let second = seq![ReportModel::Found(false)];
            &&& answers_spec(c, first)
            &&& run_spec(c, first) == (
                SessionModel::Done,
                seq![
                    ActionModel::FindWindow { label },
                    ActionModel::CloseWindow,
                    ActionModel::Reply(Ok(())),
                ],
            )
            &&& answers_spec(c, second)
            &&& run_spec(c, second).1.last() == ActionModel::Reply(Ok(()))
        }),
{
    let c = CommandModel::Close { label };
    let r0 = ReportModel::Found(true);
    let r1 = ReportModel::Outcome(Ok(()));
    let first = seq![r0, r1];
    reveal_with_fuel(run_spec, 3);
    reveal_with_fuel(answers_spec, 3);
    assert(first.drop_last() =~= seq![r0]);
    assert(first.drop_last().drop_last() =~= Seq::<ReportModel>::empty());
    assert(run_spec(c, first).1 =~= seq![
        ActionModel::FindWindow { label },
        ActionModel::CloseWindow,
        ActionModel::Reply(Ok(())),
    ]);
    lemma_close_of_absent_window_succeeds(label);
}

fn finish(reply: Result<(), WindowError>) -> (r: (Session, Action))
    ensures
        (r.0@, r.1@) == finish_spec(reply_view(reply)),
{
    (Session::Done, Action::Reply(reply))
}

impl Session {
    /// Starts `command`: the first action to perform, and the session that
    /// waits for its report.
    pub fn start(command: WindowCommand) -> (r: (Session, Action))
        ensures
            (r.0@, r.1@) == start_spec(command@),
    {
        match command {
            WindowCommand::OpenExternal { label, url, title } => (
                Session::AwaitMainWindow { label, url, title },
                Action::FindMainWindow,
            ),
            WindowCommand::Close { label } => (
                Session::AwaitCloseTarget,
                Action::FindWindow { label },
            ),
            WindowCommand::Focus { label } => (
                Session::AwaitFocusTarget,
                Action::FindWindow { label },
            ),
        }
    }

    /// Whether `report` answers the action that this session waits on. A
    /// finished session waits on nothing.
    pub fn accepts(&self, report: &Report) -> (r: bool)
        ensures
            r == accepts_spec(self@, report@),
    {
        match self {
            Session::AwaitMainWindow { .. } => matches!(report, Report::MainWindow(_)),
            Session::AwaitCloseTarget => matches!(report, Report::Found(_)),
            Session::AwaitFocusTarget => matches!(report, Report::Found(_)),
            Session::AwaitBuilder { .. } => matches!(report, Report::Outcome(_)),
            Session::AwaitBuild => matches!(report, Report::Outcome(_)),
            Session::AwaitClose => matches!(report, Report::Outcome(_)),
            Session::AwaitFocus => matches!(report, Report::Outcome(_)),
            Session::Done => false,
        }
    }

    /// Whether the command is over.
    pub fn is_done(&self) -> (r: bool)
        ensures
            r == (self@ is Done),
    {
        matches!(self, Session::Done)
    }

    /// Goes on with an opening command once the main window was found and
    /// `parsed` is what the URL parser made of its address: the parser's
    /// words on failure.
    pub fn opened(label: String, title: String, parsed: Result<url::Url, String>) -> (r: (
        Session,
        Action,
    ))
        ensures
            (r.0@, r.1@) == opened_spec(
                label@,
                title@,
                match parsed {
                    Ok(_) => None,
                    Err(t) => Some(t@),
                },
            ),
    {
        match parsed {
            Ok(url) => (Session::AwaitBuilder { title }, Action::MakeBuilder { label, url }),
            Err(t) => finish(Err(WindowError::InvalidUrl(t))),
        }
    }

    /// Takes in the report on the action last asked for, and says what
    /// comes next.
    pub fn step(self, report: Report) -> (r: (Session, Action))
        requires
            accepts_spec(self@, report@),
        ensures
            (r.0@, r.1@) == step_spec(self@, report@),
            // an address without a scheme never opens a window
            self@ matches SessionModel::AwaitMainWindow { url, .. } && !url.contains(':')
                && report@ == ReportModel::MainWindow(true) ==> r.0@ is Done
                && r.1@ matches ActionModel::Reply(Err(WindowFault::InvalidUrl(_))),
    {
        match (self, report) {
            (Session::AwaitMainWindow { label, url, title }, Report::MainWindow(found)) => {
                if found {
                    let parsed = parse_url(url.as_str());
                    Session::opened(label, title, parsed)
                } else {
                    finish(Err(WindowError::MainWindowMissing))
                }
            },
            (Session::AwaitBuilder { title }, Report::Outcome(o)) => match o {
                Ok(()) => (Session::AwaitBuild, Action::Build { title }),
                Err(t) => finish(Err(WindowError::BuilderFailed(t))),
            },
            (Session::AwaitBuild, Report::Outcome(o)) => match o {
                Ok(()) => finish(Ok(())),
                Err(t) => finish(Err(WindowError::BuildFailed(t))),
            },
            (Session::AwaitCloseTarget, Report::Found(found)) => {
                if found {
                    (Session::AwaitClose, Action::CloseWindow)
                } else {
                    finish(Ok(()))
                }
            },
            (Session::AwaitClose, Report::Outcome(o)) => match o {
                Ok(()) => finish(Ok(())),
                Err(t) => finish(Err(WindowError::CloseFailed(t))),
            },
            (Session::AwaitFocusTarget, Report::Found(found)) => {
                if found {
                    (Session::AwaitFocus, Action::FocusWindow)
                } else {
                    finish(Ok(()))
                }
            },
            (Session::AwaitFocus, Report::Outcome(o)) => match o {
                Ok(()) => finish(Ok(())),
                Err(t) => finish(Err(WindowError::FocusFailed(t))),
            },
            _ => unreached(),
        }
    }
}

} // verus!
