use sidecar_supervisor::bridge::{get_server_url, navigation_script, server_url, UiBridge};

#[test]
fn server_url_of_the_fixed_port() {
    assert_eq!(get_server_url(), "http://127.0.0.1:3947");
}

#[test]
fn server_url_of_other_ports() {
    assert_eq!(server_url(3947), "http://127.0.0.1:3947");
    assert_eq!(server_url(8080), "http://127.0.0.1:8080");
    assert_eq!(server_url(1), "http://127.0.0.1:1");
}

#[test]
fn navigation_script_sets_the_location() {
    assert_eq!(
        navigation_script("http://127.0.0.1:3947"),
        "window.location.href = 'http://127.0.0.1:3947'"
    );
    assert_eq!(navigation_script(""), "window.location.href = ''");
}

#[test]
fn ready_signal_navigates_once() {
    let mut bridge = UiBridge::new(3947);
    assert!(!bridge.has_navigated());
    assert_eq!(bridge.server_url(), "http://127.0.0.1:3947");
    assert_eq!(bridge.on_ready(), Some(String::from("http://127.0.0.1:3947")));
    assert!(bridge.has_navigated());
    assert_eq!(bridge.on_ready(), None);
    assert_eq!(bridge.on_ready(), None);
    assert!(bridge.has_navigated());
    assert_eq!(bridge.server_url(), "http://127.0.0.1:3947");
}

#[test]
fn navigation_count_over_many_deliveries_is_one() {
    let mut bridge = UiBridge::new(4000);
    let mut navigations = 0;
    for _ in 0..10 {
        if bridge.on_ready().is_some() {
            navigations += 1;
        }
    }
    assert_eq!(navigations, 1);
}
