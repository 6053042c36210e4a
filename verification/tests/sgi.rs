use django_deployer::command::{CheckEvent, Outcome};
use django_deployer::sgi::{
    render_service, SGIServer, SGITemplate, SgiCheckAction, SgiCheckState, SgiExit,
};

fn args(v: &[&str]) -> Vec<String> {
    v.iter().map(|s| s.to_string()).collect()
}

#[test]
fn sgi_names_and_packages() {
    assert_eq!(SGIServer::Gunicorn.name(), "Gunicorn");
    assert_eq!(SGIServer::Daphne.name(), "Daphne");
    assert_eq!(SGIServer::Uvicorn.name(), "Uvicorn");
    for s in [SGIServer::Gunicorn, SGIServer::Daphne, SGIServer::Uvicorn] {
        assert_eq!(s.package_name(), s.name().to_lowercase());
    }
    assert_eq!(SGIServer::Gunicorn.package_name(), "gunicorn");
}

#[test]
fn sgi_probe_and_install_commands() {
    let probe = SGIServer::Daphne.probe_command();
    assert_eq!(probe.program, "python3");
    assert_eq!(probe.args, args(&["-c", "import daphne"]));
    let install = SGIServer::Uvicorn.install_command();
    assert_eq!(install.program, "python3");
    assert_eq!(install.args, args(&["-m", "pip", "install", "uvicorn"]));
}

#[test]
fn render_service_fills_all_placeholders() {
    let t = "WorkingDirectory={working_directory}\nExecStart=gunicorn {project_name}{sgi_file}:application -b 0.0.0.0:{port}\n";
    let r = render_service(t, "/django-apps/shop", 8000, "shop", ".wsgi");
    assert_eq!(
        r,
        "WorkingDirectory=/django-apps/shop\nExecStart=gunicorn shop.wsgi:application -b 0.0.0.0:8000\n"
    );
}

#[test]
fn render_service_replaces_in_order() {
    // A working directory holding a later placeholder gets it filled too.
    let r = render_service("{working_directory}", "/x/{port}", 81, "p", ".asgi");
    assert_eq!(r, "/x/81");
}

#[test]
fn render_without_placeholders_keeps_template() {
    let t = "[Unit]\nDescription=plain\n";
    assert_eq!(render_service(t, "/a", 1, "b", ".wsgi"), t);
}

#[test]
fn gunicorn_service_file() {
    let templates = SGITemplate::new("dir={working_directory} port={port}".to_string());
    assert_eq!(templates.gunicorn(), "dir={working_directory} port={port}");
    let f = SGIServer::Gunicorn.create_systemd_service(&templates, "shop", "/srv/shop", 8080, ".wsgi");
    assert_eq!(f.path, "/etc/systemd/system/django-gunicorn-shop.service");
    assert_eq!(f.unit_name, "django-gunicorn-shop.service");
    assert_eq!(f.contents, "dir=/srv/shop port=8080");
    let enable = f.enable_command();
    assert_eq!(enable.program, "systemctl");
    assert_eq!(enable.args, args(&["enable", "django-gunicorn-shop.service"]));
}

#[test]
fn other_servers_get_an_empty_service_file() {
    let templates = SGITemplate::new("{port}".to_string());
    let f = SGIServer::Daphne.create_systemd_service(&templates, "blog", "/srv/blog", 9000, ".asgi");
    assert_eq!(f.path, "/etc/systemd/system/django-daphne-blog.service");
    assert_eq!(f.unit_name, "django-daphne-blog.service");
    assert_eq!(f.contents, "");
}

#[test]
fn installed_server_passes_after_probe() {
    let s = SGIServer::Gunicorn;
    let (st, a) = s.run_checks(SgiCheckState::Start, CheckEvent::Begin);
    assert_eq!(st, SgiCheckState::Probing);
    match a {
        SgiCheckAction::RunProbe(c) => assert_eq!(c.args, args(&["-c", "import gunicorn"])),
        _ => panic!("expected the probe"),
    }
    let (st, a) = s.run_checks(st, CheckEvent::Ran(Outcome::Succeeded));
    assert_eq!(st, SgiCheckState::Done);
    assert!(matches!(a, SgiCheckAction::Finish { installed_now: false }));
}

#[test]
fn missing_server_installed_on_consent() {
    let s = SGIServer::Uvicorn;
    let (st, _) = s.run_checks(SgiCheckState::Start, CheckEvent::Begin);
    let (st, a) = s.run_checks(st, CheckEvent::Ran(Outcome::Failed));
    assert_eq!(st, SgiCheckState::AwaitingAnswer);
    assert!(matches!(a, SgiCheckAction::AskToInstall));
    let (st, a) = s.run_checks(st, CheckEvent::Answered(true));
    assert_eq!(st, SgiCheckState::Installing);
    match a {
        SgiCheckAction::RunInstall(c) => assert_eq!(c.args, args(&["-m", "pip", "install", "uvicorn"])),
        _ => panic!("expected the install"),
    }
    let (st, a) = s.run_checks(st, CheckEvent::Ran(Outcome::Succeeded));
    assert_eq!(st, SgiCheckState::Done);
    assert!(matches!(a, SgiCheckAction::Finish { installed_now: true }));
}

#[test]
fn sgi_check_exits() {
    let s = SGIServer::Daphne;
    let (st, a) = s.run_checks(SgiCheckState::Probing, CheckEvent::Ran(Outcome::SpawnFailed { not_found: true }));
    assert_eq!(st, SgiCheckState::Exited);
    assert!(matches!(a, SgiCheckAction::Exit(SgiExit::ProbeUnavailable { python_missing: true })));
    let (st, a) = s.run_checks(SgiCheckState::AwaitingAnswer, CheckEvent::Answered(false));
    assert_eq!(st, SgiCheckState::Exited);
    assert!(matches!(a, SgiCheckAction::Exit(SgiExit::Declined)));
    let (_, a) = s.run_checks(SgiCheckState::Installing, CheckEvent::Ran(Outcome::SpawnFailed { not_found: false }));
    assert!(matches!(a, SgiCheckAction::Exit(SgiExit::InstallUnavailable)));
    let (_, a) = s.run_checks(SgiCheckState::Installing, CheckEvent::Ran(Outcome::Failed));
    assert!(matches!(a, SgiCheckAction::Exit(SgiExit::InstallFailed)));
}

#[test]
fn sgi_check_ignores_events_out_of_place() {
    let s = SGIServer::Gunicorn;
    let (st, a) = s.run_checks(SgiCheckState::Done, CheckEvent::Begin);
    assert_eq!(st, SgiCheckState::Done);
    assert!(matches!(a, SgiCheckAction::Ignored));
    let (st, a) = s.run_checks(SgiCheckState::Probing, CheckEvent::Answered(true));
    assert_eq!(st, SgiCheckState::Probing);
    assert!(matches!(a, SgiCheckAction::Ignored));
}
