use django_deployer::text::{decimal_string, join_path, last_component, lowercase_ascii, replace};
use std::path::Path;

#[test]
fn replace_fills_a_placeholder() {
    assert_eq!(replace("port={port};", "{port}", "8000"), "port=8000;");
}

#[test]
fn replace_every_occurrence() {
    assert_eq!(replace("{p}-{p}-{p}", "{p}", "x"), "x-x-x");
}

#[test]
fn replace_is_non_overlapping_from_the_left() {
    assert_eq!(replace("aaaa", "aa", "b"), "bb");
    assert_eq!(replace("aaa", "aa", "b"), "ba");
}

#[test]
fn replace_with_empty_pattern_surrounds_every_char() {
    assert_eq!(replace("ab", "", "x"), "xaxbx");
    assert_eq!(replace("", "", "x"), "x");
}

#[test]
fn replace_absent_pattern_keeps_text() {
    assert_eq!(replace("no placeholders here", "{port}", "80"), "no placeholders here");
}

#[test]
fn replace_by_itself_keeps_text() {
    assert_eq!(replace("a{x}b{x}", "{x}", "{x}"), "a{x}b{x}");
}

#[test]
fn replace_agrees_with_std() {
    let cases = [
        ("WorkingDirectory={working_directory}\n", "{working_directory}", "/srv/app"),
        ("ééé", "é", "e"),
        ("abcabc", "bc", ""),
        ("short", "longer pattern", "x"),
        ("xyz", "", "-"),
        ("{port}{port}", "{port}", "{port}{port}"),
    ];
    for (s, p, r) in cases.iter() {
        assert_eq!(replace(s, p, r), s.replace(p, r));
    }
}

#[test]
fn decimal_string_writes_numbers() {
    assert_eq!(decimal_string(0), "0");
    assert_eq!(decimal_string(7), "7");
    assert_eq!(decimal_string(8000), "8000");
    assert_eq!(decimal_string(65535), "65535");
    assert_eq!(decimal_string(u64::MAX), format!("{}", u64::MAX));
}

#[test]
fn lowercase_ascii_lowers_letters_only() {
    assert_eq!(lowercase_ascii("Gunicorn"), "gunicorn");
    assert_eq!(lowercase_ascii("NGINX-1.2_X"), "nginx-1.2_x");
    assert_eq!(lowercase_ascii("Ünïcode"), "Ünïcode");
}

#[test]
fn join_path_agrees_with_std() {
    let cases = [
        ("/etc/nginx", "sites-available/"),
        ("/etc/nginx/", "sites-available/"),
        ("", "a"),
        ("rel", "/abs"),
        ("/etc/nginx/sites-available/", "django-example.com.conf"),
        ("a", ""),
    ];
    for (b, p) in cases.iter() {
        let expected = Path::new(b).join(p);
        assert_eq!(join_path(b, p), expected.to_str().unwrap());
    }
}

#[test]
fn last_component_is_the_file_name() {
    assert_eq!(
        last_component("/etc/systemd/system/django-gunicorn-shop.service"),
        "django-gunicorn-shop.service"
    );
    assert_eq!(last_component("plain"), "plain");
    assert_eq!(last_component("dir/"), "");
    let p = "/etc/systemd/system/django-daphne-a/b.service";
    assert_eq!(
        last_component(p),
        Path::new(p).file_name().unwrap().to_str().unwrap()
    );
}
