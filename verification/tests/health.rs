use server_supervisor::health::{
    get_server_status, is_server_running, probe_address, status_text, SERVER_PORT,
};
use server_supervisor::host::HostFacts;

#[test]
fn the_port_is_fixed() {
    assert_eq!(SERVER_PORT, 4847);
}

#[test]
fn probe_address_is_the_local_host_and_the_port() {
    assert_eq!(probe_address(SERVER_PORT), "127.0.0.1:4847");
    assert_eq!(probe_address(80), "127.0.0.1:80");
}

#[test]
fn status_text_goes_by_the_probe() {
    assert_eq!(status_text(true), "running");
    assert_eq!(status_text(false), "stopped");
}

#[test]
fn no_listener_means_not_running() {
    let host = HostFacts::new();
    assert!(!is_server_running(&host, SERVER_PORT));
    assert!(!is_server_running(&host, 1));
    assert_eq!(get_server_status(&host), "stopped");
}

#[test]
fn a_listener_means_running() {
    let mut host = HostFacts::new();
    host.listening.push(SERVER_PORT);
    assert!(is_server_running(&host, SERVER_PORT));
    assert!(!is_server_running(&host, 4848));
    assert_eq!(get_server_status(&host), "running");
}

#[test]
fn only_the_servers_port_counts_for_the_status() {
    let mut host = HostFacts::new();
    host.listening.push(8080);
    assert!(is_server_running(&host, 8080));
    assert_eq!(get_server_status(&host), "stopped");
}
