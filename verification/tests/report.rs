use django_deployer::report::{install_failure_report, UndecodableOutput};

#[test]
fn report_decodes_both_outputs() {
    let r = install_failure_report(b"done\n".to_vec(), "erreur: é\n".as_bytes().to_vec()).ok().unwrap();
    assert_eq!(r.stdout, "done\n");
    assert_eq!(r.stderr, "erreur: é\n");
}

#[test]
fn report_rejects_bad_stdout_first() {
    let r = install_failure_report(vec![0xff, 0x41], vec![0xc3]);
    assert!(matches!(r, Err(UndecodableOutput::Stdout)));
}

#[test]
fn report_rejects_bad_stderr() {
    let r = install_failure_report(b"ok".to_vec(), vec![0xe2, 0x82]);
    assert!(matches!(r, Err(UndecodableOutput::Stderr)));
}

#[test]
fn report_of_empty_outputs() {
    let r = install_failure_report(Vec::new(), Vec::new()).ok().unwrap();
    assert_eq!((r.stdout.as_str(), r.stderr.as_str()), ("", ""));
}
