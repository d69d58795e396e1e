//! The start of the launcher, as a sequence of decisions.
//!
//! The host does what touches the machine: it installs hooks, reads the
//! command line, looks at the file system, shows dialogs and runs the
//! interface. What to do next is decided here: the host performs the
//! [`Directive`] it is given and answers with a [`Report`].

use crate::dialog::{DialogChoice, Fault, Notice};
use crate::platform::Platform;
use crate::probe::{ranking, select_java, selected, valid_java_paths, Candidate};
use crate::resolver::{get_launch_path, launch_path_of, DirectoryProbe};
use crate::supervisor::{server_command, server_command_of, ServerCommand};
use vstd::prelude::*;

verus! {

/// How the launcher leaves.
#[derive(Clone, Copy, Debug, PartialEq, Eq, Structural)]
pub enum ExitStatus {
    /// Status zero: the interface ran and was closed, or the user was told
    /// in a dialog why it did not.
    Success,
    /// A status other than zero.
    Failure,
}

impl ExitStatus {
    pub open spec fn code_of(self) -> i32 {
        match self {
            ExitStatus::Success => 0,
            ExitStatus::Failure => 2,
        }
    }

    /// The status handed to the operating system: zero for success only.
    pub fn code(self) -> (code: i32)
        ensures
            code == self.code_of(),
            code == 0 <==> self == ExitStatus::Success,
    {
        match self {
            ExitStatus::Success => 0,
            ExitStatus::Failure => 2,
        }
    }
}

/// What the host is to do next.
#[derive(Clone, Debug, PartialEq, Eq)]
pub enum Directive {
    /// Route panics to the error dialog, keeping the hook that was there.
    InstallPanicHook,
    /// Read the command line.
    ParseArguments,
    /// Tie the life of all descendants to the launcher's own.
    CreateProcessGuard,
    /// Look for the web view runtime.
    CheckWebviewRuntime,
    /// Show the notice and let the user choose.
    Confirm(Notice),
    /// Open the notice's page of the documentation in the browser.
    OpenDocumentation(Notice),
    /// Look at the directory named on the command line, if one was, and at
    /// the default directory next to the launcher.
    ProbeDirectories { launch_from_path: Option<String> },
    /// Look for the Java binary bundled below the launch directory.
    CheckBundledJava { launch_path: String },
    /// List the Java binaries installed on the host, with their versions.
    ProbeInstalledJava,
    /// Show the fault in an error dialog.
    ShowError(Fault),
    /// Build the window and run the interface until it is closed, with the
    /// server if there is a command for it.
    RunInterface { server: Option<ServerCommand> },
    /// Leave.
    Exit(ExitStatus),
}

/// What the host did, or found, for the directive it was given.
#[derive(Clone, Debug, PartialEq, Eq)]
pub enum Report {
    /// The directive was carried out; there is nothing to tell. For
    /// [`Directive::OpenDocumentation`] also if the browser did not open.
    Done,
    /// The command line was read.
    Arguments { launch_from_path: Option<String> },
    /// The command line holds what the launcher does not know.
    ArgumentsRejected,
    WebviewRuntime { present: bool },
    Choice(DialogChoice),
    Directories { override_path: Option<DirectoryProbe>, default_path: Option<DirectoryProbe> },
    /// The bundled Java binary, if it exists.
    BundledJava { path: Option<String> },
    /// The installed Java binaries, the most specific location first.
    InstalledJava { candidates: Vec<Candidate> },
    /// The interface ran and was closed.
    InterfaceClosed,
    /// The interface could not be built; `webview` tells whether it was the
    /// web view that could not be made.
    InterfaceFailed { webview: bool, message: String },
}

/// How far the start has come: the directive that is out, with what has to
/// be remembered for the ones that follow.
#[derive(Clone, Debug, PartialEq, Eq)]
pub enum Phase {
    InstallingPanicHook,
    ParsingArguments,
    CreatingProcessGuard { launch_from_path: Option<String> },
    CheckingWebview { launch_from_path: Option<String> },
    Confirming(Notice),
    OpeningDocumentation(Notice),
    ResolvingLaunchPath,
    CheckingBundledJava { launch_path: String },
    ProbingJava { launch_path: String },
    ShowingError,
    RunningInterface,
    Finished(ExitStatus),
}

/// The launcher leaves.
pub open spec fn leave(status: ExitStatus) -> (Phase, Directive) {
    (Phase::Finished(status), Directive::Exit(status))
}

/// The launch directory is looked for.
pub open spec fn resolve(launch_from_path: Option<String>) -> (Phase, Directive) {
    (Phase::ResolvingLaunchPath, Directive::ProbeDirectories { launch_from_path })
}

/// What follows the process guard, or the command line where no guard is
/// needed.
pub open spec fn check_webview(platform: Platform, launch_from_path: Option<String>) -> (
    Phase,
    Directive,
) {
    if platform.separate_webview() {
        (Phase::CheckingWebview { launch_from_path }, Directive::CheckWebviewRuntime)
    } else {
        resolve(launch_from_path)
    }
}

/// The interface is run, with the server if there is a command for it.
pub open spec fn run_interface(server: Option<ServerCommand>) -> (Phase, Directive) {
    (Phase::RunningInterface, Directive::RunInterface { server })
}

/// The rule of the start: the phase and the directive that follow a report.
///
/// A report that does not answer the directive that is out ends the start
/// with [`ExitStatus::Failure`].
pub open spec fn transition(platform: Platform, phase: Phase, report: Report) -> (
    Phase,
    Directive,
) {
    match (phase, report) {
        (Phase::InstallingPanicHook, Report::Done) => (
            Phase::ParsingArguments,
            Directive::ParseArguments,
        ),
        (Phase::ParsingArguments, Report::Arguments { launch_from_path }) => {
            if platform.orphans_children() {
                (Phase::CreatingProcessGuard { launch_from_path }, Directive::CreateProcessGuard)
            } else {
                check_webview(platform, launch_from_path)
            }
        },
        (Phase::ParsingArguments, Report::ArgumentsRejected) => leave(ExitStatus::Failure),
        (Phase::CreatingProcessGuard { launch_from_path }, Report::Done) => check_webview(
            platform,
            launch_from_path,
        ),
        (Phase::CheckingWebview { launch_from_path }, Report::WebviewRuntime { present }) => {
            if present {
                resolve(launch_from_path)
            } else {
                (Phase::Confirming(Notice::WebviewMissing), Directive::Confirm(Notice::WebviewMissing))
            }
        },
        (Phase::Confirming(notice), Report::Choice(choice)) => {
            if choice == DialogChoice::OpenDocumentation {
                (Phase::OpeningDocumentation(notice), Directive::OpenDocumentation(notice))
            } else {
                leave(ExitStatus::Success)
            }
        },
        (Phase::OpeningDocumentation(notice), Report::Done) => leave(ExitStatus::Success),
        (Phase::ResolvingLaunchPath, Report::Directories { override_path, default_path }) => {
            match launch_path_of(override_path, default_path) {
                Some(launch_path) => (
                    Phase::CheckingBundledJava { launch_path },
                    Directive::CheckBundledJava { launch_path },
                ),
                None => run_interface(None),
            }
        },
        (Phase::CheckingBundledJava { launch_path }, Report::BundledJava { path }) => {
            match path {
                Some(java) => run_interface(Some(server_command_of(java, launch_path))),
                None => (Phase::ProbingJava { launch_path }, Directive::ProbeInstalledJava),
            }
        },
        (Phase::ProbingJava { launch_path }, Report::InstalledJava { candidates }) => {
            match selected(None, ranking(candidates@)) {
                Some(java) => run_interface(Some(server_command_of(java, launch_path))),
                None => (Phase::ShowingError, Directive::ShowError(Fault::MissingJava)),
            }
        },
        (Phase::ShowingError, Report::Done) => leave(ExitStatus::Success),
        (Phase::RunningInterface, Report::InterfaceClosed) => leave(ExitStatus::Success),
        (Phase::RunningInterface, Report::InterfaceFailed { webview, message }) => {
            if webview && platform.separate_webview() {
                (Phase::Confirming(Notice::WebviewFaulty), Directive::Confirm(Notice::WebviewFaulty))
            } else {
                (Phase::ShowingError, Directive::ShowError(Fault::Interface(message)))
            }
        },
        (Phase::Finished(status), _) => leave(status),
        _ => leave(ExitStatus::Failure),
    }
}

/// The start of one launcher.
pub struct Startup {
    platform: Platform,
    phase: Phase,
}

impl Startup {
    pub closed spec fn platform(&self) -> Platform {
        self.platform
    }

    pub closed spec fn phase(&self) -> Phase {
        self.phase
    }

    /// The start, and its first directive: before anything else, panics are
    /// routed to the error dialog.
    pub fn begin(platform: Platform) -> (start: (Startup, Directive))
        ensures
            start.0.platform() == platform,
            start.0.phase() == Phase::InstallingPanicHook,
            start.1 == Directive::InstallPanicHook,
    {
        (Startup { platform, phase: Phase::InstallingPanicHook }, Directive::InstallPanicHook)
    }

    pub fn host_platform(&self) -> (platform: Platform)
        ensures
            platform == self.platform(),
    {
        self.platform
    }

    /// The status with which the launcher leaves, once it is to leave.
    pub fn exit_status(&self) -> (status: Option<ExitStatus>)
        ensures
            status == match self.phase() {
                Phase::Finished(status) => Some(status),
                _ => None,
            },
    {
        match &self.phase {
            Phase::Finished(status) => Some(*status),
            _ => None,
        }
    }

    /// Takes the host's report and says what to do next.
    pub fn advance(self, report: Report) -> (next: (Startup, Directive))
        ensures
            next.0.platform() == self.platform(),
            (next.0.phase(), next.1) == transition(self.platform(), self.phase(), report),
    {
        let platform = self.platform;
        let (phase, directive) = match (self.phase, report) {
            (Phase::InstallingPanicHook, Report::Done) => (
                Phase::ParsingArguments,
                Directive::ParseArguments,
            ),
            (Phase::ParsingArguments, Report::Arguments { launch_from_path }) => {
                if platform.needs_process_guard() {
                    (
                        Phase::CreatingProcessGuard { launch_from_path },
                        Directive::CreateProcessGuard,
                    )
                } else {
                    after_guard(platform, launch_from_path)
                }
            },
            (Phase::ParsingArguments, Report::ArgumentsRejected) => (
                Phase::Finished(ExitStatus::Failure),
                Directive::Exit(ExitStatus::Failure),
            ),
            (Phase::CreatingProcessGuard { launch_from_path }, Report::Done) => after_guard(
                platform,
                launch_from_path,
            ),
            (Phase::CheckingWebview { launch_from_path }, Report::WebviewRuntime { present }) => {
                if present {
                    (Phase::ResolvingLaunchPath, Directive::ProbeDirectories { launch_from_path })
                } else {
                    (
                        Phase::Confirming(Notice::WebviewMissing),
                        Directive::Confirm(Notice::WebviewMissing),
                    )
                }
            },
            (Phase::Confirming(notice), Report::Choice(choice)) => {
                if choice == DialogChoice::OpenDocumentation {
                    (Phase::OpeningDocumentation(notice), Directive::OpenDocumentation(notice))
                } else {
                    (Phase::Finished(ExitStatus::Success), Directive::Exit(ExitStatus::Success))
                }
            },
            (Phase::OpeningDocumentation(_), Report::Done) => (
                Phase::Finished(ExitStatus::Success),
                Directive::Exit(ExitStatus::Success),
            ),
            (Phase::ResolvingLaunchPath, Report::Directories { override_path, default_path }) => {
                match get_launch_path(override_path, default_path) {
                    Some(launch_path) => {
                        let remembered = launch_path.clone();
                        (
                            Phase::CheckingBundledJava { launch_path: remembered },
                            Directive::CheckBundledJava { launch_path },
                        )
                    },
                    None => (Phase::RunningInterface, Directive::RunInterface { server: None }),
                }
            },
            (Phase::CheckingBundledJava { launch_path }, Report::BundledJava { path }) => {
                match path {
                    Some(java) => (
                        Phase::RunningInterface,
                        Directive::RunInterface { server: Some(server_command(java, launch_path)) },
                    ),
                    None => (Phase::ProbingJava { launch_path }, Directive::ProbeInstalledJava),
                }
            },
            (Phase::ProbingJava { launch_path }, Report::InstalledJava { candidates }) => {
                let installed = valid_java_paths(&candidates);
                match select_java(None, &installed) {
                    Some(java) => (
                        Phase::RunningInterface,
                        Directive::RunInterface { server: Some(server_command(java, launch_path)) },
                    ),
                    None => (Phase::ShowingError, Directive::ShowError(Fault::MissingJava)),
                }
            },
            (Phase::ShowingError, Report::Done) => (
                Phase::Finished(ExitStatus::Success),
                Directive::Exit(ExitStatus::Success),
            ),
            (Phase::RunningInterface, Report::InterfaceClosed) => (
                Phase::Finished(ExitStatus::Success),
                Directive::Exit(ExitStatus::Success),
            ),
            (Phase::RunningInterface, Report::InterfaceFailed { webview, message }) => {
                if webview && platform.has_separate_webview() {
                    (
                        Phase::Confirming(Notice::WebviewFaulty),
                        Directive::Confirm(Notice::WebviewFaulty),
                    )
                } else {
                    (Phase::ShowingError, Directive::ShowError(Fault::Interface(message)))
                }
            },
            (Phase::Finished(status), _) => (Phase::Finished(status), Directive::Exit(status)),
            _ => (Phase::Finished(ExitStatus::Failure), Directive::Exit(ExitStatus::Failure)),
        };
        (Startup { platform, phase }, directive)
    }
}

fn after_guard(platform: Platform, launch_from_path: Option<String>) -> (next: (Phase, Directive))
    ensures
        next == check_webview(platform, launch_from_path),
{
    if platform.has_separate_webview() {
        (Phase::CheckingWebview { launch_from_path }, Directive::CheckWebviewRuntime)
    } else {
        (Phase::ResolvingLaunchPath, Directive::ProbeDirectories { launch_from_path })
    }
}

/// The phases in which the process guard is still to be made, where one is
/// needed.
pub open spec fn before_guard(phase: Phase) -> bool {
    phase is InstallingPanicHook || phase is ParsingArguments || phase is CreatingProcessGuard
}

/// Where children would outlive the launcher, nothing is run before the
/// process guard is made: until then the interface, and with it the server,
/// is not started, and the only way on is the report that the guard stands.
pub proof fn lemma_guard_comes_first(platform: Platform, phase: Phase, report: Report)
    requires
        platform.orphans_children(),
        before_guard(phase),
    ensures
        !(transition(platform, phase, report).1 is RunInterface),
        !before_guard(transition(platform, phase, report).0) && !(transition(
            platform,
            phase,
            report,
        ).0 is Finished) ==> phase is CreatingProcessGuard && report is Done,
{
}

/// The phase reached and the directive that is out after the host has given
/// `reports`, oldest first.
pub open spec fn progress(platform: Platform, reports: Seq<Report>) -> (Phase, Directive)
    decreases reports.len(),
{
    if reports.len() == 0 {
        (Phase::InstallingPanicHook, Directive::InstallPanicHook)
    } else {
        transition(platform, progress(platform, reports.drop_last()).0, reports.last())
    }
}

/// The `k`th report tells that the process guard, which was asked for,
/// stands.
pub open spec fn guard_reported(platform: Platform, reports: Seq<Report>, k: int) -> bool {
    &&& 0 <= k < reports.len()
    &&& progress(platform, reports.take(k)).1 == Directive::CreateProcessGuard
    &&& reports[k] is Done
}

/// The process guard was asked for and reported to stand.
pub open spec fn guard_stands(platform: Platform, reports: Seq<Report>) -> bool {
    exists|k: int| #[trigger] guard_reported(platform, reports, k)
}

proof fn lemma_guard_keeps_standing(platform: Platform, reports: Seq<Report>)
    requires
        reports.len() > 0,
        guard_stands(platform, reports.drop_last()),
    ensures
        guard_stands(platform, reports),
{
    let rest = reports.drop_last();
    let k = choose|k: int| #[trigger] guard_reported(platform, rest, k);
    assert(reports.take(k) =~= rest.take(k));
    assert(guard_reported(platform, reports, k));
}

proof fn lemma_guard_or_nothing_run(platform: Platform, reports: Seq<Report>)
    requires
        platform.orphans_children(),
    ensures
        ({
            let (phase, directive) = progress(platform, reports);
            &&& before_guard(phase) || phase is Finished || guard_stands(platform, reports)
            &&& phase is CreatingProcessGuard ==> directive == Directive::CreateProcessGuard
            &&& directive is RunInterface ==> guard_stands(platform, reports)
        }),
    decreases reports.len(),
{
    if reports.len() > 0 {
        let rest = reports.drop_last();
        lemma_guard_or_nothing_run(platform, rest);
        let (before, asked) = progress(platform, rest);
        if guard_stands(platform, rest) {
            lemma_guard_keeps_standing(platform, reports);
        } else if before is CreatingProcessGuard && reports.last() is Done {
            assert(reports.take(reports.len() - 1) =~= rest);
            assert(guard_reported(platform, reports, reports.len() - 1));
        }
    }
}

/// Where children would outlive the launcher, the interface, and with it
/// the server, is run only after the process guard was asked for and
/// reported to stand, whatever the host reports.
pub proof fn lemma_interface_runs_under_guard(platform: Platform, reports: Seq<Report>)
    requires
        platform.orphans_children(),
        progress(platform, reports).1 is RunInterface,
    ensures
        guard_stands(platform, reports),
{
    lemma_guard_or_nothing_run(platform, reports);
}

/// Whether the directive puts a dialog before the user.
pub open spec fn is_dialog(directive: Directive) -> bool {
    directive is ShowError || directive is Confirm
}

/// How many dialogs the host was asked to show while it gave `reports`.
pub open spec fn dialogs_shown(platform: Platform, reports: Seq<Report>) -> nat
    decreases reports.len(),
{
    if reports.len() == 0 {
        0
    } else {
        dialogs_shown(platform, reports.drop_last()) + if is_dialog(
            progress(platform, reports).1,
        ) {
            1nat
        } else {
            0nat
        }
    }
}

/// The phases that follow a dialog.
pub open spec fn after_dialog(phase: Phase) -> bool {
    phase is ShowingError || phase is Confirming || phase is OpeningDocumentation
        || phase is Finished
}

/// Whatever the host reports, it is asked to show one dialog at most: what
/// ends the launch is presented once and never twice.
pub proof fn lemma_one_dialog_at_most(platform: Platform, reports: Seq<Report>)
    ensures
        dialogs_shown(platform, reports) <= 1,
        dialogs_shown(platform, reports) == 1 ==> after_dialog(progress(platform, reports).0),
    decreases reports.len(),
{
    if reports.len() > 0 {
        lemma_one_dialog_at_most(platform, reports.drop_last());
    }
}

/// Without a launch directory the interface runs without a server.
pub proof fn lemma_no_launch_path_no_server(
    platform: Platform,
    override_path: Option<DirectoryProbe>,
    default_path: Option<DirectoryProbe>,
)
    requires
        launch_path_of(override_path, default_path) is None,
    ensures
        transition(
            platform,
            Phase::ResolvingLaunchPath,
            Report::Directories { override_path, default_path },
        ) == run_interface(None),
{
}

/// A server is started only with a launch directory and a Java binary
/// that is either bundled or the first of the ranked installed ones.
pub proof fn lemma_server_needs_java(platform: Platform, phase: Phase, report: Report)
    requires
        transition(platform, phase, report).1 matches Directive::RunInterface { server }
            && server is Some,
    ensures
        ({
            let command = transition(platform, phase, report).1->server->0;
            ||| phase matches Phase::CheckingBundledJava { launch_path } && report
                == (Report::BundledJava { path: Some(command.program) }) && command.working_dir
                == launch_path
            ||| phase matches Phase::ProbingJava { launch_path } && report
                matches Report::InstalledJava { candidates } && selected(
                None,
                ranking(candidates@),
            ) == Some(command.program) && command.working_dir == launch_path
        }),
{
}

/// A fault is shown once: after an error dialog the launcher leaves, and
/// after a notice it opens the documentation at most and leaves.
pub proof fn lemma_fault_is_shown_once(platform: Platform, phase: Phase, report: Report)
    requires
        phase is ShowingError || phase is Confirming || phase is OpeningDocumentation,
    ensures
        ({
            let (next, directive) = transition(platform, phase, report);
            &&& directive is Exit || (phase is Confirming && directive is OpenDocumentation)
            &&& next is Finished || (phase is Confirming && next is OpeningDocumentation)
        }),
{
}

/// The launcher leaves with a failure only for a command line it does not
/// know, or for a report that does not answer what was asked; after a
/// dialog, and after the interface was closed, it leaves with success.
pub proof fn lemma_dialogs_end_in_success(platform: Platform, phase: Phase, report: Report)
    ensures
        (phase is ShowingError || phase is OpeningDocumentation) && report is Done ==> transition(
            platform,
            phase,
            report,
        ) == leave(ExitStatus::Success),
        phase is Confirming && report == Report::Choice(DialogChoice::Cancel) ==> transition(
            platform,
            phase,
            report,
        ) == leave(ExitStatus::Success),
        phase is RunningInterface && report is InterfaceClosed ==> transition(
            platform,
            phase,
            report,
        ) == leave(ExitStatus::Success),
{
}

/// Where no installed runtime is new enough and none is bundled, the user
/// is told so and the interface is not started.
pub proof fn lemma_too_old_java_ends_the_start(
    platform: Platform,
    launch_path: String,
    candidates: Vec<Candidate>,
)
    requires
        forall|i: int|
            0 <= i < candidates@.len() ==> match (#[trigger] candidates@[i]).version {
                Some(version) => version < crate::probe::MINIMUM_JAVA_VERSION,
                None => true,
            },
    ensures
        transition(
            platform,
            Phase::ProbingJava { launch_path },
            Report::InstalledJava { candidates },
        ) == (Phase::ShowingError, Directive::ShowError(Fault::MissingJava)),
{
    crate::probe::lemma_too_old_is_never_selected(candidates@);
}

} // verus!
