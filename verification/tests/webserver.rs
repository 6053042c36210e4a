use django_deployer::command::{CheckEvent, Outcome};
use django_deployer::webserver::{
    update_command, Template, WebCheckAction, WebCheckState, WebExit, WebServer,
};

fn args(v: &[&str]) -> Vec<String> {
    v.iter().map(|s| s.to_string()).collect()
}

#[test]
fn web_names() {
    assert_eq!(WebServer::Apache.name(), "Apache");
    assert_eq!(WebServer::NGINX.name(), "NGINX");
    assert_eq!(WebServer::NoServer.name(), "None (Don't configure)");
}

#[test]
fn web_commands() {
    let p = WebServer::NGINX.probe_command();
    assert_eq!((p.program.as_str(), p.args), ("nginx", args(&["-h"])));
    let p = WebServer::Apache.probe_command();
    assert_eq!((p.program.as_str(), p.args), ("apache2", args(&["-h"])));
    let t = WebServer::Apache.test_command();
    assert_eq!((t.program.as_str(), t.args), ("apachectl", args(&["configtest"])));
    let t = WebServer::NGINX.test_command();
    assert_eq!((t.program.as_str(), t.args), ("nginx", args(&["-t"])));
    let i = WebServer::Apache.install_command();
    assert_eq!((i.program.as_str(), i.args), ("apt", args(&["install", "-y", "apache2", "apache2-utils"])));
    let i = WebServer::NGINX.install_command();
    assert_eq!((i.program.as_str(), i.args), ("apt", args(&["install", "-y", "nginx-full"])));
    let u = update_command();
    assert_eq!((u.program.as_str(), u.args), ("apt", args(&["update"])));
}

#[test]
fn web_default_config_dirs() {
    assert_eq!(WebServer::Apache.default_config_dir(), "/etc/apache2");
    assert_eq!(WebServer::NGINX.default_config_dir(), "/etc/nginx");
}

#[test]
fn config_file_paths() {
    assert_eq!(
        WebServer::NGINX.create_config("/etc/nginx", "example.com"),
        Some("/etc/nginx/sites-available/django-example.com.conf".to_string())
    );
    assert_eq!(
        WebServer::Apache.create_config("/etc/apache2/", "shop.org"),
        Some("/etc/apache2/sites-available/django-shop.org.conf".to_string())
    );
    assert_eq!(WebServer::NoServer.create_config("/etc/nginx", "example.com"), None);
}

#[test]
fn templates_keep_their_pieces() {
    let t = Template::new("b".to_string(), "p".to_string(), "s".to_string(), "m".to_string());
    assert_eq!((t.base(), t.prefetch(), t.staticfiles(), t.media()), ("b", "p", "s", "m"));
}

#[test]
fn no_server_check_ends_at_once() {
    let (st, a) = WebServer::NoServer.run_checks(WebCheckState::Start, CheckEvent::Begin);
    assert_eq!(st, WebCheckState::Done);
    assert!(matches!(a, WebCheckAction::Finish));
    let (st, a) = WebServer::NoServer.run_checks(WebCheckState::Probing, CheckEvent::Ran(Outcome::Failed));
    assert_eq!(st, WebCheckState::Probing);
    assert!(matches!(a, WebCheckAction::Ignored));
}

#[test]
fn installed_server_with_good_config() {
    let s = WebServer::NGINX;
    let (st, a) = s.run_checks(WebCheckState::Start, CheckEvent::Begin);
    assert_eq!(st, WebCheckState::Probing);
    assert!(matches!(a, WebCheckAction::RunProbe(_)));
    let (st, a) = s.run_checks(st, CheckEvent::Ran(Outcome::Succeeded));
    assert_eq!(st, WebCheckState::Testing);
    match a {
        WebCheckAction::RunTest(c) => assert_eq!(c.args, args(&["-t"])),
        _ => panic!("expected the test"),
    }
    let (st, a) = s.run_checks(st, CheckEvent::Ran(Outcome::Succeeded));
    assert_eq!(st, WebCheckState::Done);
    assert!(matches!(a, WebCheckAction::Finish));
}

#[test]
fn missing_server_install_path() {
    let s = WebServer::Apache;
    let (st, a) = s.run_checks(WebCheckState::Probing, CheckEvent::Ran(Outcome::SpawnFailed { not_found: true }));
    assert_eq!(st, WebCheckState::AwaitingInstallAnswer);
    assert!(matches!(a, WebCheckAction::AskToInstall));
    let (st, a) = s.run_checks(st, CheckEvent::Answered(true));
    assert_eq!(st, WebCheckState::Updating);
    assert!(matches!(a, WebCheckAction::RunUpdate(_)));
    // A failed index refresh does not stop the install.
    let (st, a) = s.run_checks(st, CheckEvent::Ran(Outcome::Failed));
    assert_eq!(st, WebCheckState::Installing);
    assert!(matches!(a, WebCheckAction::RunInstall(_)));
    let (st, a) = s.run_checks(st, CheckEvent::Ran(Outcome::Succeeded));
    assert_eq!(st, WebCheckState::Testing);
    assert!(matches!(a, WebCheckAction::RunTest(_)));
}

#[test]
fn declined_install_still_tests() {
    let s = WebServer::NGINX;
    let (st, a) = s.run_checks(WebCheckState::AwaitingInstallAnswer, CheckEvent::Answered(false));
    assert_eq!(st, WebCheckState::Testing);
    assert!(matches!(a, WebCheckAction::RunTest(_)));
}

#[test]
fn web_check_exits() {
    let s = WebServer::NGINX;
    let (st, a) = s.run_checks(WebCheckState::Updating, CheckEvent::Ran(Outcome::SpawnFailed { not_found: false }));
    assert_eq!(st, WebCheckState::Exited);
    assert!(matches!(a, WebCheckAction::Exit(WebExit::UpdateUnavailable)));
    let (_, a) = s.run_checks(WebCheckState::Installing, CheckEvent::Ran(Outcome::SpawnFailed { not_found: true }));
    assert!(matches!(a, WebCheckAction::Exit(WebExit::InstallUnavailable)));
    let (_, a) = s.run_checks(WebCheckState::Installing, CheckEvent::Ran(Outcome::Failed));
    assert!(matches!(a, WebCheckAction::Exit(WebExit::InstallFailed)));
    let (st, a) = s.run_checks(WebCheckState::AwaitingProceedAnswer, CheckEvent::Answered(false));
    assert_eq!(st, WebCheckState::Exited);
    assert!(matches!(a, WebCheckAction::Exit(WebExit::Declined)));
}

#[test]
fn faulty_config_can_be_accepted() {
    let s = WebServer::Apache;
    let (st, a) = s.run_checks(WebCheckState::Testing, CheckEvent::Ran(Outcome::Failed));
    assert_eq!(st, WebCheckState::AwaitingProceedAnswer);
    assert!(matches!(a, WebCheckAction::AskToProceed));
    let (st, a) = s.run_checks(st, CheckEvent::Answered(true));
    assert_eq!(st, WebCheckState::Done);
    assert!(matches!(a, WebCheckAction::Finish));
}
