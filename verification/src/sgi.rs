//! The SGI servers: their packages, the commands that look for and install
//! them, their systemd services, and the check that one is installed.

use vstd::prelude::*;
use vstd::string::*;
use crate::command::{CheckEvent, CommandLine, CommandView, Outcome};
use crate::text::{
    after_last_slash, ascii_lower, decimal, decimal_string, last_component,
    lemma_absent_without_first_char, lemma_after_last_slash_append, lemma_replace_after_plain_prefix, lemma_decimal_has_no_brace,
    lemma_replace_absent, lemma_replace_whole, lowercase_ascii, occurs_in, replace, replaced,
    slash_free,
};

verus! {

/// The SGI servers that can serve the Django application.
#[derive(Clone, Copy, Debug, PartialEq, Eq, Structural)]
pub enum SGIServer {
    Gunicorn,
    Daphne,
    Uvicorn,
}

/// The texts of the systemd service files, one per SGI server that has one.
pub struct SGITemplate {
    gunicorn: String,
}

impl SGITemplate {
    /// The text of the service file for Gunicorn.
    pub closed spec fn gunicorn_view(&self) -> Seq<char> {
        self.gunicorn@
    }

    /// Templates made of the given service file text for Gunicorn.
    pub fn new(gunicorn: String) -> (t: SGITemplate)
        ensures
            t.gunicorn_view() == gunicorn@,
    {
        SGITemplate { gunicorn }
    }

    /// The service file text for Gunicorn.
    pub fn gunicorn(&self) -> (r: &str)
        ensures
            r@ == self.gunicorn_view(),
    {
        self.gunicorn.as_str()
    }
}

/// A service file template with its placeholders filled in one after the
/// other: `{working_directory}`, then `{port}` (in decimal), then
/// `{project_name}`, then `{sgi_file}`.  Text put in by an earlier step is
/// searched by the later ones.
pub open spec fn rendered_service(
    template: Seq<char>,
    working_directory: Seq<char>,
    port: u16,
    project_name: Seq<char>,
    sgi_file: Seq<char>,
) -> Seq<char> {
    replaced(
        replaced(
            replaced(
                replaced(template, "{working_directory}"@, working_directory),
                "{port}"@,
                decimal(port as nat),
            ),
            "{project_name}"@,
            project_name,
        ),
        "{sgi_file}"@,
        sgi_file,
    )
}

/// Fills the placeholders `{working_directory}`, `{port}`, `{project_name}`
/// and `{sgi_file}` of a service file template, one after the other.
pub fn render_service(
    template: &str,
    working_directory: &str,
    port: u16,
    project_name: &str,
    sgi_file: &str,
) -> (r: String)
    ensures
        r@ == rendered_service(template@, working_directory@, port, project_name@, sgi_file@),
{
    let port_text = decimal_string(port as u64);
    let a = replace(template, "{working_directory}", working_directory);
    let b = replace(a.as_str(), "{port}", port_text.as_str());
    let c = replace(b.as_str(), "{project_name}", project_name);
    replace(c.as_str(), "{sgi_file}", sgi_file)
}

/// What creating a systemd service comes to: the file to write, the unit
/// name to enable and the text to put in the file.
pub struct ServiceFile {
    pub path: String,
    pub unit_name: String,
    pub contents: String,
}

impl ServiceFile {
    /// The command that enables the service: `systemctl enable <unit>`.
    pub fn enable_command(&self) -> (c: CommandLine)
        ensures
            c@ == ("systemctl"@, seq!["enable"@, self.unit_name@]),
    {
        let mut c = CommandLine::new("systemctl");
        c.arg("enable");
        c.arg(self.unit_name.as_str());
        assert(c@.1 =~= seq!["enable"@, self.unit_name@]);
        c
    }
}

/// Where a check that an SGI server is installed stands.
#[derive(Clone, Copy, Debug, PartialEq, Eq, Structural)]
pub enum SgiCheckState {
    Start,
    Probing,
    AwaitingAnswer,
    Installing,
    Done,
    Exited,
}

/// Why a check of an SGI server ends the program.
#[derive(Clone, Copy, Debug, PartialEq, Eq, Structural)]
pub enum SgiExit {
    /// Python could not be started to look for the package;
    /// `python_missing` when `python3` was not found.
    ProbeUnavailable { python_missing: bool },
    /// The user chose not to install the missing server.
    Declined,
    /// pip could not be started.
    InstallUnavailable,
    /// pip failed to install the package.
    InstallFailed,
}

/// What to do next in a check of an SGI server.
pub enum SgiCheckAction {
    /// Run the command that tells whether the package is importable.
    RunProbe(CommandLine),
    /// Tell the user the server is missing and ask whether to install it.
    AskToInstall,
    /// Run the command that installs the package.
    RunInstall(CommandLine),
    /// The server is installed; `installed_now` when this check installed it.
    Finish { installed_now: bool },
    /// End the program with status 1.
    Exit(SgiExit),
    /// The event does not fit the state; nothing changes.
    Ignored,
}

/// The view of an [`SgiCheckAction`].
pub enum SgiActionView {
    RunProbe(CommandView),
    AskToInstall,
    RunInstall(CommandView),
    Finish { installed_now: bool },
    Exit(SgiExit),
    Ignored,
}

impl View for SgiCheckAction {
    type V = SgiActionView;

    open spec fn view(&self) -> SgiActionView {
        match self {
            SgiCheckAction::RunProbe(c) => SgiActionView::RunProbe(c@),
            SgiCheckAction::AskToInstall => SgiActionView::AskToInstall,
            SgiCheckAction::RunInstall(c) => SgiActionView::RunInstall(c@),
            SgiCheckAction::Finish { installed_now } => SgiActionView::Finish { installed_now: *installed_now },
            SgiCheckAction::Exit(e) => SgiActionView::Exit(*e),
            SgiCheckAction::Ignored => SgiActionView::Ignored,
        }
    }
}

impl SGIServer {
    /// The name under which the server is shown.
    pub open spec fn name_view(self) -> Seq<char> {
        match self {
            SGIServer::Gunicorn => "Gunicorn"@,
            SGIServer::Daphne => "Daphne"@,
            SGIServer::Uvicorn => "Uvicorn"@,
        }
    }

    /// The Python package of the server: its shown name in lower case.
    pub open spec fn package_view(self) -> Seq<char> {
        ascii_lower(self.name_view())
    }

    /// The command that succeeds when the package can be imported.
    pub open spec fn probe_view(self) -> CommandView {
        ("python3"@, seq!["-c"@, "import "@ + self.package_view()])
    }

    /// The command that installs the package with pip.
    pub open spec fn install_view(self) -> CommandView {
        ("python3"@, seq!["-m"@, "pip"@, "install"@, self.package_view()])
    }

    /// The path of the systemd service file for a project.
    pub open spec fn service_path_view(self, project_name: Seq<char>) -> Seq<char> {
        "/etc/systemd/system/django-"@ + self.package_view() + "-"@ + project_name + ".service"@
    }

    /// The text of the server's service file: the rendered Gunicorn template
    /// for Gunicorn, nothing for the others.
    pub open spec fn service_contents_view(
        self,
        gunicorn_template: Seq<char>,
        working_directory: Seq<char>,
        port: u16,
        project_name: Seq<char>,
        sgi_file: Seq<char>,
    ) -> Seq<char> {
        match self {
            SGIServer::Gunicorn => rendered_service(
                gunicorn_template,
                working_directory,
                port,
                project_name,
                sgi_file,
            ),
            _ => Seq::<char>::empty(),
        }
    }

    /// The name under which the server is shown.
    pub fn name(&self) -> (r: String)
        ensures
            r@ == self.name_view(),
    {
        match self {
            SGIServer::Gunicorn => "Gunicorn".to_owned(),
            SGIServer::Daphne => "Daphne".to_owned(),
            SGIServer::Uvicorn => "Uvicorn".to_owned(),
        }
    }

    /// The Python package of the server.
    pub fn package_name(&self) -> (r: String)
        ensures
            r@ == self.package_view(),
    {
        let name = self.name();
        lowercase_ascii(name.as_str())
    }

    /// The command that tells whether the server's package is installed.
    pub fn probe_command(&self) -> (c: CommandLine)
        ensures
            c@ == self.probe_view(),
    {
        let package = self.package_name();
        let statement = "import ".to_owned().concat(package.as_str());
        let mut c = CommandLine::new("python3");
        c.arg("-c");
        c.arg_string(statement);
        assert(c@.1 =~= self.probe_view().1);
        c
    }

    /// The command that installs the server's package.
    pub fn install_command(&self) -> (c: CommandLine)
        ensures
            c@ == self.install_view(),
    {
        let package = self.package_name();
        let mut c = CommandLine::new("python3");
        c.arg("-m");
        c.arg("pip");
        c.arg("install");
        c.arg_string(package);
        assert(c@.1 =~= self.install_view().1);
        c
    }

    /// The systemd service for a Django project served by this server: the
    /// file `/etc/systemd/system/django-<package>-<project>.service`, its
    /// unit name (the text after the path's last `/`) and its contents, the
    /// rendered template for Gunicorn and empty for the other servers.
    pub fn create_systemd_service(
        &self,
        templates: &SGITemplate,
        project_name: &str,
        working_directory: &str,
        port: u16,
        sgi_file: &str,
    ) -> (r: ServiceFile)
        ensures
            r.path@ == self.service_path_view(project_name@),
            r.unit_name@ == after_last_slash(r.path@),
            r.contents@ == self.service_contents_view(
                templates.gunicorn_view(),
                working_directory@,
                port,
                project_name@,
                sgi_file@,
            ),
    {
        let package = self.package_name();
        let path = "/etc/systemd/system/django-".to_owned()
            .concat(package.as_str())
            .concat("-")
            .concat(project_name)
            .concat(".service");
        let unit_name = last_component(path.as_str());
        let contents = match self {
            SGIServer::Gunicorn => render_service(
                templates.gunicorn(),
                working_directory,
                port,
                project_name,
                sgi_file,
            ),
            _ => String::new(),
        };
        ServiceFile { path, unit_name, contents }
    }

    /// One step of the check that the server is installed: from where the
    /// check stands and what just happened, where it goes and what to do.
    pub fn run_checks(&self, state: SgiCheckState, event: CheckEvent) -> (r: (
        SgiCheckState,
        SgiCheckAction,
    ))
        ensures
            (r.0, r.1@) == sgi_check_step(*self, state, event),
    {
        match (state, event) {
            (SgiCheckState::Start, CheckEvent::Begin) => (
                SgiCheckState::Probing,
                SgiCheckAction::RunProbe(self.probe_command()),
            ),
            (SgiCheckState::Probing, CheckEvent::Ran(Outcome::SpawnFailed { not_found })) => (
                SgiCheckState::Exited,
                SgiCheckAction::Exit(SgiExit::ProbeUnavailable { python_missing: not_found }),
            ),
            (SgiCheckState::Probing, CheckEvent::Ran(Outcome::Failed)) => (
                SgiCheckState::AwaitingAnswer,
                SgiCheckAction::AskToInstall,
            ),
            (SgiCheckState::Probing, CheckEvent::Ran(Outcome::Succeeded)) => (
                SgiCheckState::Done,
                SgiCheckAction::Finish { installed_now: false },
            ),
            (SgiCheckState::AwaitingAnswer, CheckEvent::Answered(true)) => (
                SgiCheckState::Installing,
                SgiCheckAction::RunInstall(self.install_command()),
            ),
            (SgiCheckState::AwaitingAnswer, CheckEvent::Answered(false)) => (
                SgiCheckState::Exited,
                SgiCheckAction::Exit(SgiExit::Declined),
            ),
            (SgiCheckState::Installing, CheckEvent::Ran(Outcome::SpawnFailed { .. })) => (
                SgiCheckState::Exited,
                SgiCheckAction::Exit(SgiExit::InstallUnavailable),
            ),
            (SgiCheckState::Installing, CheckEvent::Ran(Outcome::Failed)) => (
                SgiCheckState::Exited,
                SgiCheckAction::Exit(SgiExit::InstallFailed),
            ),
            (SgiCheckState::Installing, CheckEvent::Ran(Outcome::Succeeded)) => (
                SgiCheckState::Done,
                SgiCheckAction::Finish { installed_now: true },
            ),
            _ => (state, SgiCheckAction::Ignored),
        }
    }
}

/// The step of the installation check of `server`: the state it moves to
/// and the action to take, for each state and event.  A Python that cannot
/// be started, a refusal to install and a failed install end the program;
/// an importable package, or one that pip installed, ends the check.
pub open spec fn sgi_check_step(server: SGIServer, state: SgiCheckState, event: CheckEvent) -> (
    SgiCheckState,
    SgiActionView,
) {
    match (state, event) {
        (SgiCheckState::Start, CheckEvent::Begin) => (
            SgiCheckState::Probing,
            SgiActionView::RunProbe(server.probe_view()),
        ),
        (SgiCheckState::Probing, CheckEvent::Ran(Outcome::SpawnFailed { not_found })) => (
            SgiCheckState::Exited,
            SgiActionView::Exit(SgiExit::ProbeUnavailable { python_missing: not_found }),
        ),
        (SgiCheckState::Probing, CheckEvent::Ran(Outcome::Failed)) => (
            SgiCheckState::AwaitingAnswer,
            SgiActionView::AskToInstall,
        ),
        (SgiCheckState::Probing, CheckEvent::Ran(Outcome::Succeeded)) => (
            SgiCheckState::Done,
            SgiActionView::Finish { installed_now: false },
        ),
        (SgiCheckState::AwaitingAnswer, CheckEvent::Answered(true)) => (
            SgiCheckState::Installing,
            SgiActionView::RunInstall(server.install_view()),
        ),
        (SgiCheckState::AwaitingAnswer, CheckEvent::Answered(false)) => (
            SgiCheckState::Exited,
            SgiActionView::Exit(SgiExit::Declined),
        ),
        (SgiCheckState::Installing, CheckEvent::Ran(Outcome::SpawnFailed { .. })) => (
            SgiCheckState::Exited,
            SgiActionView::Exit(SgiExit::InstallUnavailable),
        ),
        (SgiCheckState::Installing, CheckEvent::Ran(Outcome::Failed)) => (
            SgiCheckState::Exited,
            SgiActionView::Exit(SgiExit::InstallFailed),
        ),
        (SgiCheckState::Installing, CheckEvent::Ran(Outcome::Succeeded)) => (
            SgiCheckState::Done,
            SgiActionView::Finish { installed_now: true },
        ),
        _ => (state, SgiActionView::Ignored),
    }
}


/// The packages of the servers are `gunicorn`, `daphne` and `uvicorn`: plain
/// lower-case words, with no space to trim and no `/`.
pub proof fn lemma_package_names()
    ensures
        SGIServer::Gunicorn.package_view() == "gunicorn"@,
        SGIServer::Daphne.package_view() == "daphne"@,
        SGIServer::Uvicorn.package_view() == "uvicorn"@,
        SGIServer::Gunicorn.name_view() == "Gunicorn"@,
        SGIServer::Daphne.name_view() == "Daphne"@,
        SGIServer::Uvicorn.name_view() == "Uvicorn"@,
{
    reveal_strlit("Gunicorn");
    reveal_strlit("gunicorn");
    reveal_strlit("Daphne");
    reveal_strlit("daphne");
    reveal_strlit("Uvicorn");
    reveal_strlit("uvicorn");
    assert(SGIServer::Gunicorn.package_view() =~= "gunicorn"@);
    assert(SGIServer::Daphne.package_view() =~= "daphne"@);
    assert(SGIServer::Uvicorn.package_view() =~= "uvicorn"@);
}

/// A template that holds none of the placeholders comes out of rendering
/// unchanged.
pub proof fn lemma_render_without_placeholders(
    template: Seq<char>,
    working_directory: Seq<char>,
    port: u16,
    project_name: Seq<char>,
    sgi_file: Seq<char>,
)
    requires
        !occurs_in(template, "{working_directory}"@),
        !occurs_in(template, "{port}"@),
        !occurs_in(template, "{project_name}"@),
        !occurs_in(template, "{sgi_file}"@),
    ensures
        rendered_service(template, working_directory, port, project_name, sgi_file) == template,
{
    reveal_strlit("{working_directory}");
    reveal_strlit("{port}");
    reveal_strlit("{project_name}");
    reveal_strlit("{sgi_file}");
    lemma_replace_absent(template, "{working_directory}"@, working_directory);
    lemma_replace_absent(template, "{port}"@, decimal(port as nat));
    lemma_replace_absent(template, "{project_name}"@, project_name);
    lemma_replace_absent(template, "{sgi_file}"@, sgi_file);
}


/// For a project name with no `/`, the unit that is enabled is the service
/// file's own name, `django-<package>-<project>.service`.
pub proof fn lemma_unit_name(server: SGIServer, project_name: Seq<char>)
    requires
        slash_free(project_name),
    ensures
        after_last_slash(server.service_path_view(project_name)) == "django-"@
            + server.package_view() + "-"@ + project_name + ".service"@,
{
    lemma_package_names();
    reveal_strlit("/etc/systemd/system/django-");
    reveal_strlit("/etc/systemd/system/");
    reveal_strlit("django-");
    reveal_strlit("-");
    reveal_strlit(".service");
    reveal_strlit("gunicorn");
    reveal_strlit("daphne");
    reveal_strlit("uvicorn");
    let dir = "/etc/systemd/system/"@;
    let name = "django-"@ + server.package_view() + "-"@ + project_name + ".service"@;
    assert(slash_free(name));
    assert(server.service_path_view(project_name) =~= dir + name);
    lemma_after_last_slash_append(dir, name);
}


/// Once the check is done or has ended the program, no event moves it or
/// asks for anything more.
pub proof fn lemma_sgi_check_final(server: SGIServer, event: CheckEvent)
    ensures
        sgi_check_step(server, SgiCheckState::Done, event) == (
            SgiCheckState::Done,
            SgiActionView::Ignored,
        ),
        sgi_check_step(server, SgiCheckState::Exited, event) == (
            SgiCheckState::Exited,
            SgiActionView::Ignored,
        ),
{
}

/// The server is installed only after the user said yes to installing it.
pub proof fn lemma_sgi_install_needs_consent(
    server: SGIServer,
    state: SgiCheckState,
    event: CheckEvent,
)
    requires
        sgi_check_step(server, state, event).1 is RunInstall,
    ensures
        state == SgiCheckState::AwaitingAnswer,
        event == CheckEvent::Answered(true),
{
}

/// A server whose package can be imported passes the check after the probe
/// alone: beginning asks for the probe, and its success finishes the check
/// with nothing installed.
pub proof fn lemma_sgi_installed_passes(server: SGIServer)
    ensures
        sgi_check_step(server, SgiCheckState::Start, CheckEvent::Begin) == (
            SgiCheckState::Probing,
            SgiActionView::RunProbe(server.probe_view()),
        ),
        sgi_check_step(server, SgiCheckState::Probing, CheckEvent::Ran(Outcome::Succeeded)) == (
            SgiCheckState::Done,
            SgiActionView::Finish { installed_now: false },
        ),
{
}

/// The check only ever ends the program for one of four reasons, each from
/// the one place it can arise: Python cannot be started for the probe, the
/// user refuses the install, or pip cannot be started or fails.
pub proof fn lemma_sgi_exit_reasons(server: SGIServer, state: SgiCheckState, event: CheckEvent)
    ensures
        sgi_check_step(server, state, event).0 == SgiCheckState::Exited
            && state != SgiCheckState::Exited ==> {
            ||| state == SgiCheckState::Probing && event matches CheckEvent::Ran(
                Outcome::SpawnFailed { .. },
            )
            ||| state == SgiCheckState::AwaitingAnswer && event == CheckEvent::Answered(false)
            ||| state == SgiCheckState::Installing && event matches CheckEvent::Ran(
                Outcome::SpawnFailed { .. },
            )
            ||| state == SgiCheckState::Installing && event == CheckEvent::Ran(Outcome::Failed)
        },
{
}


/// A placeholder `{..}` does not occur in another placeholder that differs
/// from it in its second character, nor in one shorter than itself.
proof fn lemma_placeholder_absent(s: Seq<char>, pat: Seq<char>)
    requires
        s.len() >= 2,
        pat.len() >= 2,
        s[0] == '{',
        pat[0] == '{',
        forall|i: int| 0 < i < s.len() ==> s[i] != '{',
        s.len() < pat.len() || exists|k: int| 1 <= k < pat.len() && k < s.len() && #[trigger] s[k] != pat[k],
    ensures
        !occurs_in(s, pat),
{
    if occurs_in(s, pat) {
        let i = choose|i: int| 0 <= i && i + pat.len() <= s.len() && #[trigger] s.subrange(i, i + pat.len()) == pat;
        assert(s.subrange(i, i + pat.len())[0] == s[i]);
        let k = choose|k: int| 1 <= k < pat.len() && k < s.len() && #[trigger] s[k] != pat[k];
        assert(s.subrange(i, i + pat.len())[k] == s[i + k]);
    }
}

/// Facts about the four placeholders: none occurs inside another.
proof fn lemma_placeholders_distinct()
    ensures
        !occurs_in("{sgi_file}"@, "{working_directory}"@),
        !occurs_in("{sgi_file}"@, "{port}"@),
        !occurs_in("{sgi_file}"@, "{project_name}"@),
        !occurs_in("{project_name}"@, "{working_directory}"@),
        !occurs_in("{project_name}"@, "{port}"@),
        !occurs_in("{port}"@, "{working_directory}"@),
        "{sgi_file}"@.len() > 0,
        "{project_name}"@.len() > 0,
        "{port}"@.len() > 0,
        "{working_directory}"@.len() > 0,
        "{sgi_file}"@[0] == '{',
        "{project_name}"@[0] == '{',
        "{port}"@[0] == '{',
{
    reveal_strlit("{working_directory}");
    reveal_strlit("{port}");
    reveal_strlit("{project_name}");
    reveal_strlit("{sgi_file}");
    lemma_placeholder_absent("{sgi_file}"@, "{working_directory}"@);
    assert("{sgi_file}"@[1] != "{port}"@[1]);
    lemma_placeholder_absent("{sgi_file}"@, "{port}"@);
    assert("{sgi_file}"@[1] != "{project_name}"@[1]);
    lemma_placeholder_absent("{sgi_file}"@, "{project_name}"@);
    lemma_placeholder_absent("{project_name}"@, "{working_directory}"@);
    assert("{project_name}"@[2] != "{port}"@[2]);
    lemma_placeholder_absent("{project_name}"@, "{port}"@);
    lemma_placeholder_absent("{port}"@, "{working_directory}"@);
}

/// The `{sgi_file}` placeholder becomes the chosen SGI file itself, whatever
/// the other arguments are.
pub proof fn lemma_render_sgi_file(
    working_directory: Seq<char>,
    port: u16,
    project_name: Seq<char>,
    sgi_file: Seq<char>,
)
    ensures
        rendered_service("{sgi_file}"@, working_directory, port, project_name, sgi_file) == sgi_file,
{
    lemma_placeholders_distinct();
    let t = "{sgi_file}"@;
    lemma_replace_absent(t, "{working_directory}"@, working_directory);
    lemma_replace_absent(t, "{port}"@, decimal(port as nat));
    lemma_replace_absent(t, "{project_name}"@, project_name);
    lemma_replace_whole(t, sgi_file);
}

/// The `{project_name}` placeholder becomes the project name itself, when
/// the name does not hold the later `{sgi_file}` placeholder.
pub proof fn lemma_render_project_name(
    working_directory: Seq<char>,
    port: u16,
    project_name: Seq<char>,
    sgi_file: Seq<char>,
)
    requires
        !occurs_in(project_name, "{sgi_file}"@),
    ensures
        rendered_service("{project_name}"@, working_directory, port, project_name, sgi_file)
            == project_name,
{
    lemma_placeholders_distinct();
    let t = "{project_name}"@;
    lemma_replace_absent(t, "{working_directory}"@, working_directory);
    lemma_replace_absent(t, "{port}"@, decimal(port as nat));
    lemma_replace_whole(t, project_name);
    lemma_replace_absent(project_name, "{sgi_file}"@, sgi_file);
}

/// The `{port}` placeholder becomes the port in decimal.
pub proof fn lemma_render_port(
    working_directory: Seq<char>,
    port: u16,
    project_name: Seq<char>,
    sgi_file: Seq<char>,
)
    ensures
        rendered_service("{port}"@, working_directory, port, project_name, sgi_file) == decimal(
            port as nat,
        ),
{
    lemma_placeholders_distinct();
    let t = "{port}"@;
    let d = decimal(port as nat);
    lemma_replace_absent(t, "{working_directory}"@, working_directory);
    lemma_replace_whole(t, d);
    lemma_decimal_has_no_brace(port as nat);
    lemma_absent_without_first_char(d, "{project_name}"@);
    lemma_absent_without_first_char(d, "{sgi_file}"@);
    lemma_replace_absent(d, "{project_name}"@, project_name);
    lemma_replace_absent(d, "{sgi_file}"@, sgi_file);
}

/// The `{working_directory}` placeholder becomes the working directory
/// itself, when it holds none of the later placeholders.
pub proof fn lemma_render_working_directory(
    working_directory: Seq<char>,
    port: u16,
    project_name: Seq<char>,
    sgi_file: Seq<char>,
)
    requires
        !occurs_in(working_directory, "{port}"@),
        !occurs_in(working_directory, "{project_name}"@),
        !occurs_in(working_directory, "{sgi_file}"@),
    ensures
        rendered_service("{working_directory}"@, working_directory, port, project_name, sgi_file)
            == working_directory,
{
    lemma_placeholders_distinct();
    lemma_replace_whole("{working_directory}"@, working_directory);
    lemma_replace_absent(working_directory, "{port}"@, decimal(port as nat));
    lemma_replace_absent(working_directory, "{project_name}"@, project_name);
    lemma_replace_absent(working_directory, "{sgi_file}"@, sgi_file);
}


/// Text without `{` in front of a template is kept in front of its
/// rendering: rendering works only on what follows.
pub proof fn lemma_render_after_plain_prefix(
    prefix: Seq<char>,
    template: Seq<char>,
    working_directory: Seq<char>,
    port: u16,
    project_name: Seq<char>,
    sgi_file: Seq<char>,
)
    requires
        forall|i: int| 0 <= i < prefix.len() ==> prefix[i] != '{',
    ensures
        rendered_service(prefix + template, working_directory, port, project_name, sgi_file)
            == prefix + rendered_service(template, working_directory, port, project_name, sgi_file),
{
    lemma_placeholders_distinct();
    reveal_strlit("{working_directory}");
    reveal_strlit("{sgi_file}");
    let d = decimal(port as nat);
    let r1 = replaced(template, "{working_directory}"@, working_directory);
    let r2 = replaced(r1, "{port}"@, d);
    let r3 = replaced(r2, "{project_name}"@, project_name);
    lemma_replace_after_plain_prefix(prefix, template, "{working_directory}"@, working_directory);
    lemma_replace_after_plain_prefix(prefix, r1, "{port}"@, d);
    lemma_replace_after_plain_prefix(prefix, r2, "{project_name}"@, project_name);
    lemma_replace_after_plain_prefix(prefix, r3, "{sgi_file}"@, sgi_file);
}

/// The probe imports the package that the install command installs, and
/// both run `python3`: the probe as `python3 -c "import <package>"`, the
/// install as `python3 -m pip install <package>`.
pub proof fn lemma_sgi_commands(server: SGIServer)
    ensures
        server.install_view() == ("python3"@, seq!["-m"@, "pip"@, "install"@, server.package_view()]),
        server.probe_view() == ("python3"@, seq!["-c"@, "import "@ + server.package_view()]),
        server.probe_view().1[1] == "import "@ + server.install_view().1[3],
        server.package_view() == ascii_lower(server.name_view()),
{
}

/// Every service file lies in systemd's unit directory
/// `/etc/systemd/system/` and is named
/// `django-<package>-<project>.service`; for a project name without `/` the
/// path is that directory followed by the unit name that gets enabled.
pub proof fn lemma_service_path_in_unit_dir(server: SGIServer, project_name: Seq<char>)
    ensures
        server.service_path_view(project_name) == "/etc/systemd/system/"@ + "django-"@
            + server.package_view() + "-"@ + project_name + ".service"@,
        slash_free(project_name) ==> server.service_path_view(project_name)
            == "/etc/systemd/system/"@ + after_last_slash(server.service_path_view(project_name)),
{
    reveal_strlit("/etc/systemd/system/django-");
    reveal_strlit("/etc/systemd/system/");
    reveal_strlit("django-");
    assert("/etc/systemd/system/django-"@ =~= "/etc/systemd/system/"@ + "django-"@);
    assert(server.service_path_view(project_name) =~= "/etc/systemd/system/"@ + "django-"@
        + server.package_view() + "-"@ + project_name + ".service"@);
    if slash_free(project_name) {
        lemma_unit_name(server, project_name);
    }
}

/// Beginning the check asks for the probe of the server's package.
pub proof fn lemma_sgi_begin(server: SGIServer)
    ensures
        sgi_check_step(server, SgiCheckState::Start, CheckEvent::Begin) == (
            SgiCheckState::Probing,
            SgiActionView::RunProbe(server.probe_view()),
        ),
{
}

/// What each outcome of the probe leads to: Python that cannot be started
/// ends the program (with the hint when `python3` was not found), a failed
/// import reports the server missing and asks to install it, a successful
/// one finishes the check with nothing installed.
pub proof fn lemma_sgi_probe_outcomes(server: SGIServer, not_found: bool)
    ensures
        sgi_check_step(
            server,
            SgiCheckState::Probing,
            CheckEvent::Ran(Outcome::SpawnFailed { not_found }),
        ) == (
            SgiCheckState::Exited,
            SgiActionView::Exit(SgiExit::ProbeUnavailable { python_missing: not_found }),
        ),
        sgi_check_step(server, SgiCheckState::Probing, CheckEvent::Ran(Outcome::Failed)) == (
            SgiCheckState::AwaitingAnswer,
            SgiActionView::AskToInstall,
        ),
        sgi_check_step(server, SgiCheckState::Probing, CheckEvent::Ran(Outcome::Succeeded)) == (
            SgiCheckState::Done,
            SgiActionView::Finish { installed_now: false },
        ),
{
}

/// A yes to installing runs pip on the server's package; a no ends the
/// program.
pub proof fn lemma_sgi_answers(server: SGIServer)
    ensures
        sgi_check_step(server, SgiCheckState::AwaitingAnswer, CheckEvent::Answered(true)) == (
            SgiCheckState::Installing,
            SgiActionView::RunInstall(server.install_view()),
        ),
        sgi_check_step(server, SgiCheckState::AwaitingAnswer, CheckEvent::Answered(false)) == (
            SgiCheckState::Exited,
            SgiActionView::Exit(SgiExit::Declined),
        ),
{
}

/// pip that cannot be started, or that fails, ends the program; pip that
/// succeeds finishes the check with the server installed now.
pub proof fn lemma_sgi_install_outcomes(server: SGIServer, not_found: bool)
    ensures
        sgi_check_step(
            server,
            SgiCheckState::Installing,
            CheckEvent::Ran(Outcome::SpawnFailed { not_found }),
        ) == (SgiCheckState::Exited, SgiActionView::Exit(SgiExit::InstallUnavailable)),
        sgi_check_step(server, SgiCheckState::Installing, CheckEvent::Ran(Outcome::Failed)) == (
            SgiCheckState::Exited,
            SgiActionView::Exit(SgiExit::InstallFailed),
        ),
        sgi_check_step(server, SgiCheckState::Installing, CheckEvent::Ran(Outcome::Succeeded)) == (
            SgiCheckState::Done,
            SgiActionView::Finish { installed_now: true },
        ),
{
}

/// The check passes only when the package was found importable or pip has
/// just installed it.
pub proof fn lemma_sgi_done_reasons(server: SGIServer, state: SgiCheckState, event: CheckEvent)
    requires
        state != SgiCheckState::Done,
        sgi_check_step(server, state, event).0 == SgiCheckState::Done,
    ensures
        event == CheckEvent::Ran(Outcome::Succeeded),
        state == SgiCheckState::Probing || state == SgiCheckState::Installing,
{
}

/// An event that does not fit the state changes nothing: the check waits
/// for `Begin` at the start, for a command's outcome while probing or
/// installing, and for an answer while asking.
pub proof fn lemma_sgi_ignored(server: SGIServer, state: SgiCheckState, event: CheckEvent)
    ensures
        (state == SgiCheckState::Start && event != CheckEvent::Begin) || ((state
            == SgiCheckState::Probing || state == SgiCheckState::Installing) && !(event is Ran)) || (
        state == SgiCheckState::AwaitingAnswer && !(event is Answered)) ==> sgi_check_step(
            server,
            state,
            event,
        ) == (state, SgiActionView::Ignored),
        sgi_check_step(server, state, event).1 is Ignored ==> sgi_check_step(server, state, event).0
            == state,
{
}


/// Only Gunicorn's service file gets the rendered template; Daphne's and
/// Uvicorn's are created empty.
pub proof fn lemma_service_contents(
    gunicorn_template: Seq<char>,
    working_directory: Seq<char>,
    port: u16,
    project_name: Seq<char>,
    sgi_file: Seq<char>,
)
    ensures
        SGIServer::Gunicorn.service_contents_view(
            gunicorn_template,
            working_directory,
            port,
            project_name,
            sgi_file,
        ) == rendered_service(gunicorn_template, working_directory, port, project_name, sgi_file),
        SGIServer::Daphne.service_contents_view(
            gunicorn_template,
            working_directory,
            port,
            project_name,
            sgi_file,
        ).len() == 0,
        SGIServer::Uvicorn.service_contents_view(
            gunicorn_template,
            working_directory,
            port,
            project_name,
            sgi_file,
        ).len() == 0,
{
}

} // verus!
