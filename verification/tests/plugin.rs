use captcha_plugin::plugin::{handshake_line, listening_line, worker_failure_message};

#[test]
fn handshake_announces_grpc_over_tcp() {
    assert_eq!(handshake_line("127.0.0.1:40123"), "1|1|tcp|127.0.0.1:40123|grpc");
    assert_eq!(handshake_line(""), "1|1|tcp||grpc");
}

#[test]
fn worker_failure_names_the_cause() {
    assert_eq!(
        worker_failure_message("task 7 panicked"),
        "spawn_blocking failed: task 7 panicked"
    );
}

#[test]
fn listening_notice_names_the_address() {
    assert_eq!(listening_line("127.0.0.1:5000"), "captcha-plugin: listening on 127.0.0.1:5000");
}
