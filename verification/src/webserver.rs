//! The web servers: the commands that look for, install and test them,
//! their configuration files, and the check that one is ready.

use vstd::prelude::*;
use vstd::string::*;
use crate::command::{CheckEvent, CommandLine, CommandView, Outcome};
use crate::text::{join_path, joined};

verus! {

/// The web servers that can sit in front of the SGI server, or none.
#[derive(Clone, Copy, Debug, PartialEq, Eq, Structural)]
pub enum WebServer {
    Apache,
    NGINX,
    NoServer,
}

/// The pieces of a web server configuration file.
pub struct Template {
    base: String,
    prefetch: String,
    staticfiles: String,
    media: String,
}

impl Template {
    /// The main part of the configuration.
    pub closed spec fn base_view(&self) -> Seq<char> {
        self.base@
    }

    /// The part that answers preflight requests.
    pub closed spec fn prefetch_view(&self) -> Seq<char> {
        self.prefetch@
    }

    /// The part that serves static files.
    pub closed spec fn staticfiles_view(&self) -> Seq<char> {
        self.staticfiles@
    }

    /// The part that serves uploaded media.
    pub closed spec fn media_view(&self) -> Seq<char> {
        self.media@
    }

    /// A template made of the four given pieces.
    pub fn new(base: String, prefetch: String, staticfiles: String, media: String) -> (t: Template)
        ensures
            t.base_view() == base@,
            t.prefetch_view() == prefetch@,
            t.staticfiles_view() == staticfiles@,
            t.media_view() == media@,
    {
        Template { base, prefetch, staticfiles, media }
    }

    /// The main part of the configuration.
    pub fn base(&self) -> (r: &str)
        ensures
            r@ == self.base_view(),
    {
        self.base.as_str()
    }

    /// The part that answers preflight requests.
    pub fn prefetch(&self) -> (r: &str)
        ensures
            r@ == self.prefetch_view(),
    {
        self.prefetch.as_str()
    }

    /// The part that serves static files.
    pub fn staticfiles(&self) -> (r: &str)
        ensures
            r@ == self.staticfiles_view(),
    {
        self.staticfiles.as_str()
    }

    /// The part that serves uploaded media.
    pub fn media(&self) -> (r: &str)
        ensures
            r@ == self.media_view(),
    {
        self.media.as_str()
    }
}

/// Where a check of the web server stands.
#[derive(Clone, Copy, Debug, PartialEq, Eq, Structural)]
pub enum WebCheckState {
    Start,
    Probing,
    AwaitingInstallAnswer,
    Updating,
    Installing,
    Testing,
    AwaitingProceedAnswer,
    Done,
    Exited,
}

/// Why a check of the web server ends the program.
#[derive(Clone, Copy, Debug, PartialEq, Eq, Structural)]
pub enum WebExit {
    /// The package index could not be refreshed: apt could not be started.
    UpdateUnavailable,
    /// apt could not be started to install the server.
    InstallUnavailable,
    /// apt failed to install the server.
    InstallFailed,
    /// The configuration is faulty and the user chose not to go on.
    Declined,
}

/// What to do next in a check of the web server.
pub enum WebCheckAction {
    /// Run the command that tells whether the server is installed.
    RunProbe(CommandLine),
    /// Ask whether to install the missing server with apt.
    AskToInstall,
    /// Run the command that refreshes the package index.
    RunUpdate(CommandLine),
    /// Run the command that installs the server.
    RunInstall(CommandLine),
    /// Run the command that tests the server's configuration.
    RunTest(CommandLine),
    /// Tell the user the configuration is faulty and ask whether to go on.
    AskToProceed,
    /// The check is over.
    Finish,
    /// End the program with status 1.
    Exit(WebExit),
    /// The event does not fit the state; nothing changes.
    Ignored,
}

/// The view of a [`WebCheckAction`].
pub enum WebActionView {
    RunProbe(CommandView),
    AskToInstall,
    RunUpdate(CommandView),
    RunInstall(CommandView),
    RunTest(CommandView),
    AskToProceed,
    Finish,
    Exit(WebExit),
    Ignored,
}

impl View for WebCheckAction {
    type V = WebActionView;

    open spec fn view(&self) -> WebActionView {
        match self {
            WebCheckAction::RunProbe(c) => WebActionView::RunProbe(c@),
            WebCheckAction::AskToInstall => WebActionView::AskToInstall,
            WebCheckAction::RunUpdate(c) => WebActionView::RunUpdate(c@),
            WebCheckAction::RunInstall(c) => WebActionView::RunInstall(c@),
            WebCheckAction::RunTest(c) => WebActionView::RunTest(c@),
            WebCheckAction::AskToProceed => WebActionView::AskToProceed,
            WebCheckAction::Finish => WebActionView::Finish,
            WebCheckAction::Exit(e) => WebActionView::Exit(*e),
            WebCheckAction::Ignored => WebActionView::Ignored,
        }
    }
}

/// The command that refreshes apt's package index.
pub open spec fn update_view() -> CommandView {
    ("apt"@, seq!["update"@])
}

/// The command that refreshes apt's package index.
pub fn update_command() -> (c: CommandLine)
    ensures
        c@ == update_view(),
{
    let mut c = CommandLine::new("apt");
    c.arg("update");
    assert(c@.1 =~= update_view().1);
    c
}

impl WebServer {
    /// The name under which the choice is shown.
    pub open spec fn name_view(self) -> Seq<char> {
        match self {
            WebServer::Apache => "Apache"@,
            WebServer::NGINX => "NGINX"@,
            WebServer::NoServer => "None (Don't configure)"@,
        }
    }

    /// The command that succeeds when the server is installed.
    pub open spec fn probe_view(self) -> CommandView {
        match self {
            WebServer::NGINX => ("nginx"@, seq!["-h"@]),
            _ => ("apache2"@, seq!["-h"@]),
        }
    }

    /// The command that tests the server's configuration.
    pub open spec fn test_view(self) -> CommandView {
        match self {
            WebServer::NGINX => ("nginx"@, seq!["-t"@]),
            _ => ("apachectl"@, seq!["configtest"@]),
        }
    }

    /// The command that installs the server's packages with apt.
    pub open spec fn install_view(self) -> CommandView {
        match self {
            WebServer::NGINX => ("apt"@, seq!["install"@, "-y"@, "nginx-full"@]),
            _ => ("apt"@, seq!["install"@, "-y"@, "apache2"@, "apache2-utils"@]),
        }
    }

    /// The directory that holds the server's configuration by default.
    pub open spec fn default_config_dir_view(self) -> Seq<char> {
        match self {
            WebServer::NGINX => "/etc/nginx"@,
            _ => "/etc/apache2"@,
        }
    }

    /// The configuration file for `domain` under `config_dir`.
    pub open spec fn config_path_view(config_dir: Seq<char>, domain: Seq<char>) -> Seq<char> {
        joined(joined(config_dir, "sites-available/"@), "django-"@ + domain + ".conf"@)
    }

    /// The name under which the choice is shown.
    pub fn name(&self) -> (r: String)
        ensures
            r@ == self.name_view(),
    {
        match self {
            WebServer::Apache => "Apache".to_owned(),
            WebServer::NGINX => "NGINX".to_owned(),
            WebServer::NoServer => "None (Don't configure)".to_owned(),
        }
    }

    /// The command that succeeds when the server is installed.
    pub fn probe_command(&self) -> (c: CommandLine)
        requires
            *self != WebServer::NoServer,
        ensures
            c@ == self.probe_view(),
    {
        let mut c = match self {
            WebServer::NGINX => CommandLine::new("nginx"),
            _ => CommandLine::new("apache2"),
        };
        c.arg("-h");
        assert(c@.1 =~= self.probe_view().1);
        c
    }

    /// The command that tests the server's configuration.
    pub fn test_command(&self) -> (c: CommandLine)
        requires
            *self != WebServer::NoServer,
        ensures
            c@ == self.test_view(),
    {
        let c = match self {
            WebServer::NGINX => {
                let mut c = CommandLine::new("nginx");
                c.arg("-t");
                c
            },
            _ => {
                let mut c = CommandLine::new("apachectl");
                c.arg("configtest");
                c
            },
        };
        assert(c@.1 =~= self.test_view().1);
        c
    }

    /// The command that installs the server's packages.
    pub fn install_command(&self) -> (c: CommandLine)
        requires
            *self != WebServer::NoServer,
        ensures
            c@ == self.install_view(),
    {
        let mut c = CommandLine::new("apt");
        c.arg("install");
        c.arg("-y");
        match self {
            WebServer::NGINX => {
                c.arg("nginx-full");
            },
            _ => {
                c.arg("apache2");
                c.arg("apache2-utils");
            },
        }
        assert(c@.1 =~= self.install_view().1);
        c
    }

    /// The directory that holds the server's configuration by default.
    pub fn default_config_dir(&self) -> (r: String)
        requires
            *self != WebServer::NoServer,
        ensures
            r@ == self.default_config_dir_view(),
    {
        match self {
            WebServer::NGINX => "/etc/nginx".to_owned(),
            _ => "/etc/apache2".to_owned(),
        }
    }

    /// The configuration file to create for the site `domain` under the
    /// server's configuration directory: `sites-available/django-<domain>.conf`
    /// joined onto `config_dir`.  No file is made for `WebServer::NoServer`.
    pub fn create_config(&self, config_dir: &str, domain: &str) -> (r: Option<String>)
        ensures
            *self == WebServer::NoServer ==> r is None,
            *self != WebServer::NoServer ==> (r matches Some(p) && p@ == Self::config_path_view(
                config_dir@,
                domain@,
            )),
    {
        if *self == WebServer::NoServer {
            return None;
        }
        let dir = join_path(config_dir, "sites-available/");
        let file = "django-".to_owned().concat(domain).concat(".conf");
        Some(join_path(dir.as_str(), file.as_str()))
    }

    /// One step of the check of the web server: from where the check stands
    /// and what just happened, where it goes and what to do.
    pub fn run_checks(&self, state: WebCheckState, event: CheckEvent) -> (r: (
        WebCheckState,
        WebCheckAction,
    ))
        ensures
            (r.0, r.1@) == web_check_step(*self, state, event),
    {
        if *self == WebServer::NoServer {
            return match (state, event) {
                (WebCheckState::Start, CheckEvent::Begin) => (WebCheckState::Done, WebCheckAction::Finish),
                _ => (state, WebCheckAction::Ignored),
            };
        }
        match (state, event) {
            (WebCheckState::Start, CheckEvent::Begin) => (
                WebCheckState::Probing,
                WebCheckAction::RunProbe(self.probe_command()),
            ),
            (WebCheckState::Probing, CheckEvent::Ran(Outcome::Succeeded)) => (
                WebCheckState::Testing,
                WebCheckAction::RunTest(self.test_command()),
            ),
            (WebCheckState::Probing, CheckEvent::Ran(_)) => (
                WebCheckState::AwaitingInstallAnswer,
                WebCheckAction::AskToInstall,
            ),
            (WebCheckState::AwaitingInstallAnswer, CheckEvent::Answered(true)) => (
                WebCheckState::Updating,
                WebCheckAction::RunUpdate(update_command()),
            ),
            (WebCheckState::AwaitingInstallAnswer, CheckEvent::Answered(false)) => (
                WebCheckState::Testing,
                WebCheckAction::RunTest(self.test_command()),
            ),
            (WebCheckState::Updating, CheckEvent::Ran(Outcome::SpawnFailed { .. })) => (
                WebCheckState::Exited,
                WebCheckAction::Exit(WebExit::UpdateUnavailable),
            ),
            (WebCheckState::Updating, CheckEvent::Ran(_)) => (
                WebCheckState::Installing,
                WebCheckAction::RunInstall(self.install_command()),
            ),
            (WebCheckState::Installing, CheckEvent::Ran(Outcome::SpawnFailed { .. })) => (
                WebCheckState::Exited,
                WebCheckAction::Exit(WebExit::InstallUnavailable),
            ),
            (WebCheckState::Installing, CheckEvent::Ran(Outcome::Failed)) => (
                WebCheckState::Exited,
                WebCheckAction::Exit(WebExit::InstallFailed),
            ),
            (WebCheckState::Installing, CheckEvent::Ran(Outcome::Succeeded)) => (
                WebCheckState::Testing,
                WebCheckAction::RunTest(self.test_command()),
            ),
            (WebCheckState::Testing, CheckEvent::Ran(Outcome::Succeeded)) => (
                WebCheckState::Done,
                WebCheckAction::Finish,
            ),
            (WebCheckState::Testing, CheckEvent::Ran(_)) => (
                WebCheckState::AwaitingProceedAnswer,
                WebCheckAction::AskToProceed,
            ),
            (WebCheckState::AwaitingProceedAnswer, CheckEvent::Answered(true)) => (
                WebCheckState::Done,
                WebCheckAction::Finish,
            ),
            (WebCheckState::AwaitingProceedAnswer, CheckEvent::Answered(false)) => (
                WebCheckState::Exited,
                WebCheckAction::Exit(WebExit::Declined),
            ),
            _ => (state, WebCheckAction::Ignored),
        }
    }
}

/// The step of the check of `server`: the state it moves to and the action
/// to take, for each state and event.  With no web server the check ends at
/// once.  Otherwise a missing server is installed only when the user agrees
/// (refreshing the package index first); an index refresh or install that
/// apt cannot start, a failed install, or a refusal to go on past a faulty
/// configuration ends the program; the configuration is always tested
/// before the check ends.
pub open spec fn web_check_step(server: WebServer, state: WebCheckState, event: CheckEvent) -> (
    WebCheckState,
    WebActionView,
) {
    if server == WebServer::NoServer {
        match (state, event) {
            (WebCheckState::Start, CheckEvent::Begin) => (WebCheckState::Done, WebActionView::Finish),
            _ => (state, WebActionView::Ignored),
        }
    } else {
        match (state, event) {
            (WebCheckState::Start, CheckEvent::Begin) => (
                WebCheckState::Probing,
                WebActionView::RunProbe(server.probe_view()),
            ),
            (WebCheckState::Probing, CheckEvent::Ran(Outcome::Succeeded)) => (
                WebCheckState::Testing,
                WebActionView::RunTest(server.test_view()),
            ),
            (WebCheckState::Probing, CheckEvent::Ran(_)) => (
                WebCheckState::AwaitingInstallAnswer,
                WebActionView::AskToInstall,
            ),
            (WebCheckState::AwaitingInstallAnswer, CheckEvent::Answered(true)) => (
                WebCheckState::Updating,
                WebActionView::RunUpdate(update_view()),
            ),
            (WebCheckState::AwaitingInstallAnswer, CheckEvent::Answered(false)) => (
                WebCheckState::Testing,
                WebActionView::RunTest(server.test_view()),
            ),
            (WebCheckState::Updating, CheckEvent::Ran(Outcome::SpawnFailed { .. })) => (
                WebCheckState::Exited,
                WebActionView::Exit(WebExit::UpdateUnavailable),
            ),
            (WebCheckState::Updating, CheckEvent::Ran(_)) => (
                WebCheckState::Installing,
                WebActionView::RunInstall(server.install_view()),
            ),
            (WebCheckState::Installing, CheckEvent::Ran(Outcome::SpawnFailed { .. })) => (
                WebCheckState::Exited,
                WebActionView::Exit(WebExit::InstallUnavailable),
            ),
            (WebCheckState::Installing, CheckEvent::Ran(Outcome::Failed)) => (
                WebCheckState::Exited,
                WebActionView::Exit(WebExit::InstallFailed),
            ),
            (WebCheckState::Installing, CheckEvent::Ran(Outcome::Succeeded)) => (
                WebCheckState::Testing,
                WebActionView::RunTest(server.test_view()),
            ),
            (WebCheckState::Testing, CheckEvent::Ran(Outcome::Succeeded)) => (
                WebCheckState::Done,
                WebActionView::Finish,
            ),
            (WebCheckState::Testing, CheckEvent::Ran(_)) => (
                WebCheckState::AwaitingProceedAnswer,
                WebActionView::AskToProceed,
            ),
            (WebCheckState::AwaitingProceedAnswer, CheckEvent::Answered(true)) => (
                WebCheckState::Done,
                WebActionView::Finish,
            ),
            (WebCheckState::AwaitingProceedAnswer, CheckEvent::Answered(false)) => (
                WebCheckState::Exited,
                WebActionView::Exit(WebExit::Declined),
            ),
            _ => (state, WebActionView::Ignored),
        }
    }
}


/// With no web server the check ends at once and never runs a command or
/// asks a question.
pub proof fn lemma_no_server_does_nothing(state: WebCheckState, event: CheckEvent)
    ensures
        web_check_step(WebServer::NoServer, WebCheckState::Start, CheckEvent::Begin) == (
            WebCheckState::Done,
            WebActionView::Finish,
        ),
        web_check_step(WebServer::NoServer, state, event).1 is Finish || web_check_step(
            WebServer::NoServer,
            state,
            event,
        ).1 is Ignored,
{
}

/// Once the check is done or has ended the program, no event moves it or
/// asks for anything more.
pub proof fn lemma_web_check_final(server: WebServer, event: CheckEvent)
    ensures
        web_check_step(server, WebCheckState::Done, event) == (
            WebCheckState::Done,
            WebActionView::Ignored,
        ),
        web_check_step(server, WebCheckState::Exited, event) == (
            WebCheckState::Exited,
            WebActionView::Ignored,
        ),
{
}

/// apt is run only after the user said yes to installing the server, and
/// the install itself only right after the package index refresh.
pub proof fn lemma_web_install_needs_consent(
    server: WebServer,
    state: WebCheckState,
    event: CheckEvent,
)
    ensures
        web_check_step(server, state, event).1 is RunUpdate ==> state
            == WebCheckState::AwaitingInstallAnswer && event == CheckEvent::Answered(true),
        web_check_step(server, state, event).1 is RunInstall ==> state == WebCheckState::Updating,
{
}

/// A web server check ends well only through its configuration test: either
/// the test passed, or it failed and the user chose to go on.
pub proof fn lemma_web_done_after_test(server: WebServer, state: WebCheckState, event: CheckEvent)
    requires
        server != WebServer::NoServer,
        state != WebCheckState::Done,
        web_check_step(server, state, event).0 == WebCheckState::Done,
    ensures
        (state == WebCheckState::Testing && event == CheckEvent::Ran(Outcome::Succeeded)) || (
        state == WebCheckState::AwaitingProceedAnswer && event == CheckEvent::Answered(true)),
{
}

/// For a configuration directory that does not end in `/`, the file is
/// `<dir>/sites-available/django-<domain>.conf`.
pub proof fn lemma_config_path(config_dir: Seq<char>, domain: Seq<char>)
    requires
        config_dir.len() > 0,
        config_dir.last() != '/',
    ensures
        WebServer::config_path_view(config_dir, domain) == config_dir + "/sites-available/django-"@
            + domain + ".conf"@,
{
    reveal_strlit("sites-available/");
    reveal_strlit("django-");
    reveal_strlit("/sites-available/django-");
    let part = "django-"@ + domain + ".conf"@;
    assert(part[0] == 'd');
    let dir = config_dir + seq!['/'] + "sites-available/"@;
    assert(joined(config_dir, "sites-available/"@) == dir);
    assert(dir.last() == '/');
    assert(joined(dir, part) =~= config_dir + "/sites-available/django-"@ + domain + ".conf"@);
}


/// The commands and directories of each web server: NGINX is probed with
/// `nginx -h`, tested with `nginx -t`, installed as `nginx-full` and kept
/// in `/etc/nginx`; Apache is probed with `apache2 -h`, tested with
/// `apachectl configtest`, installed as `apache2` and `apache2-utils` and
/// kept in `/etc/apache2`; apt refreshes its index with `apt update`.
pub proof fn lemma_web_commands()
    ensures
        WebServer::NGINX.probe_view() == ("nginx"@, seq!["-h"@]),
        WebServer::NGINX.test_view() == ("nginx"@, seq!["-t"@]),
        WebServer::NGINX.install_view() == ("apt"@, seq!["install"@, "-y"@, "nginx-full"@]),
        WebServer::NGINX.default_config_dir_view() == "/etc/nginx"@,
        WebServer::Apache.probe_view() == ("apache2"@, seq!["-h"@]),
        WebServer::Apache.test_view() == ("apachectl"@, seq!["configtest"@]),
        WebServer::Apache.install_view() == ("apt"@, seq![
            "install"@,
            "-y"@,
            "apache2"@,
            "apache2-utils"@,
        ]),
        WebServer::Apache.default_config_dir_view() == "/etc/apache2"@,
        update_view() == ("apt"@, seq!["update"@]),
        WebServer::Apache.name_view() == "Apache"@,
        WebServer::NGINX.name_view() == "NGINX"@,
        WebServer::NoServer.name_view() == "None (Don't configure)"@,
{
}

/// Beginning the check of a real web server asks for its probe.
pub proof fn lemma_web_begin(server: WebServer)
    requires
        server != WebServer::NoServer,
    ensures
        web_check_step(server, WebCheckState::Start, CheckEvent::Begin) == (
            WebCheckState::Probing,
            WebActionView::RunProbe(server.probe_view()),
        ),
{
}

/// A server whose probe succeeds goes straight to the configuration test;
/// one whose probe fails or cannot start is offered for installation.
pub proof fn lemma_web_probe_outcomes(server: WebServer, outcome: Outcome)
    requires
        server != WebServer::NoServer,
    ensures
        outcome == Outcome::Succeeded ==> web_check_step(
            server,
            WebCheckState::Probing,
            CheckEvent::Ran(outcome),
        ) == (WebCheckState::Testing, WebActionView::RunTest(server.test_view())),
        outcome != Outcome::Succeeded ==> web_check_step(
            server,
            WebCheckState::Probing,
            CheckEvent::Ran(outcome),
        ) == (WebCheckState::AwaitingInstallAnswer, WebActionView::AskToInstall),
{
}

/// A yes to installing first refreshes apt's index; a no goes on to the
/// configuration test all the same.
pub proof fn lemma_web_install_answers(server: WebServer)
    requires
        server != WebServer::NoServer,
    ensures
        web_check_step(server, WebCheckState::AwaitingInstallAnswer, CheckEvent::Answered(true))
            == (WebCheckState::Updating, WebActionView::RunUpdate(update_view())),
        web_check_step(server, WebCheckState::AwaitingInstallAnswer, CheckEvent::Answered(false))
            == (WebCheckState::Testing, WebActionView::RunTest(server.test_view())),
{
}

/// After the index refresh the server is always installed, whether the
/// refresh succeeded or failed; only an apt that cannot be started ends the
/// program.  The configuration test never comes right after the refresh.
pub proof fn lemma_web_update_outcomes(server: WebServer, outcome: Outcome, event: CheckEvent)
    requires
        server != WebServer::NoServer,
    ensures
        outcome is SpawnFailed ==> web_check_step(
            server,
            WebCheckState::Updating,
            CheckEvent::Ran(outcome),
        ) == (WebCheckState::Exited, WebActionView::Exit(WebExit::UpdateUnavailable)),
        !(outcome is SpawnFailed) ==> web_check_step(
            server,
            WebCheckState::Updating,
            CheckEvent::Ran(outcome),
        ) == (WebCheckState::Installing, WebActionView::RunInstall(server.install_view())),
        !(web_check_step(server, WebCheckState::Updating, event).1 is RunTest),
{
}

/// An install that cannot start or fails ends the program; a successful one
/// goes on to the configuration test.
pub proof fn lemma_web_install_outcomes(server: WebServer, not_found: bool)
    requires
        server != WebServer::NoServer,
    ensures
        web_check_step(
            server,
            WebCheckState::Installing,
            CheckEvent::Ran(Outcome::SpawnFailed { not_found }),
        ) == (WebCheckState::Exited, WebActionView::Exit(WebExit::InstallUnavailable)),
        web_check_step(server, WebCheckState::Installing, CheckEvent::Ran(Outcome::Failed)) == (
            WebCheckState::Exited,
            WebActionView::Exit(WebExit::InstallFailed),
        ),
        web_check_step(server, WebCheckState::Installing, CheckEvent::Ran(Outcome::Succeeded)) == (
            WebCheckState::Testing,
            WebActionView::RunTest(server.test_view()),
        ),
{
}

/// A passing configuration test finishes the check; a failing one, or one
/// that cannot start, asks whether to go on, and only a no to that ends the
/// program.
pub proof fn lemma_web_test_outcomes(server: WebServer, outcome: Outcome)
    requires
        server != WebServer::NoServer,
    ensures
        outcome == Outcome::Succeeded ==> web_check_step(
            server,
            WebCheckState::Testing,
            CheckEvent::Ran(outcome),
        ) == (WebCheckState::Done, WebActionView::Finish),
        outcome != Outcome::Succeeded ==> web_check_step(
            server,
            WebCheckState::Testing,
            CheckEvent::Ran(outcome),
        ) == (WebCheckState::AwaitingProceedAnswer, WebActionView::AskToProceed),
        web_check_step(server, WebCheckState::AwaitingProceedAnswer, CheckEvent::Answered(true)) == (
            WebCheckState::Done,
            WebActionView::Finish,
        ),
        web_check_step(server, WebCheckState::AwaitingProceedAnswer, CheckEvent::Answered(false))
            == (WebCheckState::Exited, WebActionView::Exit(WebExit::Declined)),
{
}

/// An event that does not fit the state changes nothing: the check waits
/// for `Begin` at the start, for a command's outcome while a command runs,
/// and for an answer while asking.
pub proof fn lemma_web_ignored(server: WebServer, state: WebCheckState, event: CheckEvent)
    ensures
        (state == WebCheckState::Start && event != CheckEvent::Begin) || ((state
            == WebCheckState::Probing || state == WebCheckState::Updating || state
            == WebCheckState::Installing || state == WebCheckState::Testing) && !(event is Ran)) || ((
        state == WebCheckState::AwaitingInstallAnswer || state
            == WebCheckState::AwaitingProceedAnswer) && !(event is Answered)) ==> web_check_step(
            server,
            state,
            event,
        ) == (state, WebActionView::Ignored),
        web_check_step(server, state, event).1 is Ignored ==> web_check_step(server, state, event).0
            == state,
{
}

/// The configuration file is `sites-available/django-<domain>.conf` under
/// the configuration directory, with one `/` between them: the directory
/// as given when it is empty or ends with `/`, and a `/` added otherwise.
pub proof fn lemma_config_path_any_dir(config_dir: Seq<char>, domain: Seq<char>)
    ensures
        (config_dir.len() == 0 || config_dir.last() == '/') ==> WebServer::config_path_view(
            config_dir,
            domain,
        ) == config_dir + "sites-available/django-"@ + domain + ".conf"@,
        (config_dir.len() > 0 && config_dir.last() != '/') ==> WebServer::config_path_view(
            config_dir,
            domain,
        ) == config_dir + "/sites-available/django-"@ + domain + ".conf"@,
{
    reveal_strlit("sites-available/");
    reveal_strlit("django-");
    reveal_strlit("sites-available/django-");
    let part = "django-"@ + domain + ".conf"@;
    assert(part[0] == 'd');
    if config_dir.len() == 0 || config_dir.last() == '/' {
        let dir = config_dir + "sites-available/"@;
        assert(joined(config_dir, "sites-available/"@) == dir);
        assert(dir.last() == '/');
        assert(joined(dir, part) =~= config_dir + "sites-available/django-"@ + domain + ".conf"@);
    } else {
        lemma_config_path(config_dir, domain);
    }
}

} // verus!
