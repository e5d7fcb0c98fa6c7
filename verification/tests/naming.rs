use zenoh_sandbox::naming::{
    fresh_socket_file_name, log_prefix, socket_file_name, stderr_log_name, stdout_log_name,
    websocket_port_text, worker_binary_name,
};

#[test]
fn socket_names_are_hexadecimal() {
    assert_eq!(socket_file_name(0), "z0.sock");
    assert_eq!(socket_file_name(10), "za.sock");
    assert_eq!(socket_file_name(255), "zff.sock");
    assert_eq!(socket_file_name(0xdead_beef), "zdeadbeef.sock");
    assert_eq!(socket_file_name(u32::MAX), "zffffffff.sock");
}

#[test]
fn socket_names_match_std_formatting() {
    for id in [1u32, 15, 16, 17, 4095, 4096, 65535, 1 << 31, 123456789] {
        assert_eq!(socket_file_name(id), format!("z{:x}.sock", id));
        assert_eq!(log_prefix(id), format!("z{:x}", id));
    }
}

#[test]
fn log_file_names() {
    assert_eq!(log_prefix(0x1f), "z1f");
    assert_eq!(stdout_log_name(0x1f), "z1f-stdout.log");
    assert_eq!(stderr_log_name(0x1f), "z1f-stderr.log");
}

#[test]
fn socket_names_are_short() {
    assert!(socket_file_name(u32::MAX).len() <= 14);
}

#[test]
fn port_text_is_quoted_decimal() {
    assert_eq!(websocket_port_text(10000), "\"10000\"");
    assert_eq!(websocket_port_text(0), "\"0\"");
    assert_eq!(websocket_port_text(9), "\"9\"");
    assert_eq!(websocket_port_text(10), "\"10\"");
    assert_eq!(websocket_port_text(65535), "\"65535\"");
}

#[test]
fn binary_names() {
    assert_eq!(worker_binary_name(false), "zenoh_runtime");
    assert_eq!(worker_binary_name(true), "zenoh_runtime.exe");
}

#[test]
fn fresh_names_follow_their_number() {
    let (id, name) = fresh_socket_file_name();
    assert_eq!(name, socket_file_name(id));
    let (other, _) = fresh_socket_file_name();
    let (third, _) = fresh_socket_file_name();
    assert!(id != other || other != third);
}
