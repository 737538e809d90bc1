use iotedge::dashboard::{config_path, default_config_path, listen_address, modules_response, push_decimal};

#[test]
fn default_path_off_windows() {
    assert_eq!(default_config_path(false, Some("x".to_string()), None), "/etc/iotedge/config.yaml");
}

#[test]
fn default_path_on_windows() {
    assert_eq!(
        default_config_path(true, Some("C:/a".to_string()), Some("C:/b".to_string())),
        "C:/a"
    );
    assert_eq!(default_config_path(true, None, Some("C:/b".to_string())), "C:/b");
    assert_eq!(default_config_path(true, None, None), "C:/ProgramData/iotedge/config.yaml");
}

#[test]
fn given_path_wins() {
    assert_eq!(config_path(Some("/my/config.yaml"), "/etc/iotedge/config.yaml".to_string()), "/my/config.yaml");
    assert_eq!(config_path(None, "/etc/iotedge/config.yaml".to_string()), "/etc/iotedge/config.yaml");
}

#[test]
fn address_is_host_colon_port() {
    assert_eq!(listen_address("0.0.0.0", 8088), "0.0.0.0:8088");
    assert_eq!(listen_address("localhost", 0), "localhost:0");
    assert_eq!(listen_address("h", 65535), "h:65535");
    assert_eq!(listen_address("h", 10), "h:10");
}

#[test]
fn decimal_appends() {
    let mut s = "n=".to_string();
    push_decimal(&mut s, 907);
    assert_eq!(s, "n=907");
}

#[test]
fn modules_ok_and_unavailable() {
    let ok = modules_response(Ok("\"unix:///var/run/docker.sock\"".to_string()));
    assert_eq!(ok.status, 200);
    assert_eq!(ok.content_type, "text/html");
    assert_eq!(ok.body, "\"unix:///var/run/docker.sock\"");
    let err = modules_response(Err("Config".to_string()));
    assert_eq!(err.status, 503);
    assert_eq!(err.content_type, "text/plain");
    assert_eq!(err.body, "Config");
}
