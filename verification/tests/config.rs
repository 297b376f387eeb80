use kube::config::incluster_config::{kube_server, load_cert, load_default_ns, load_token};
use kube::ConfigError;

#[test]
fn test_kube_server() {
    let host = "fake.io";
    let port = "8080";
    let server = kube_server(Some(host.to_string()), Some(port.to_string()));
    assert_eq!(server.unwrap(), "https://fake.io:8080");
}

#[test]
fn kube_server_needs_host_and_port() {
    assert!(kube_server(None, Some("8080".to_string())).is_none());
    assert!(kube_server(Some("fake.io".to_string()), None).is_none());
    assert!(kube_server(None, None).is_none());
}

#[test]
fn kube_server_keeps_empty_parts() {
    let server = kube_server(Some(String::new()), Some(String::new()));
    assert_eq!(server.unwrap(), "https://:");
}

#[test]
fn load_token_returns_content() {
    let token = load_token(Ok("abc.def".to_string()));
    assert_eq!(token.unwrap(), "abc.def");
}

#[test]
fn load_token_reports_unreadable_file() {
    match load_token(Err("No such file or directory".to_string())) {
        Err(ConfigError::KubeConfig(m)) => assert_eq!(m, "No such file or directory"),
        Ok(_) => panic!("a token from a file that was not read"),
    }
}

#[test]
fn load_default_ns_returns_content() {
    assert_eq!(load_default_ns(Ok("kube-system".to_string())).unwrap(), "kube-system");
}

#[test]
fn load_default_ns_reports_unreadable_file() {
    match load_default_ns(Err("permission denied".to_string())) {
        Err(ConfigError::KubeConfig(m)) => assert_eq!(m, "permission denied"),
        Ok(_) => panic!("a namespace from a file that was not read"),
    }
}

#[test]
fn load_cert_reports_unreadable_file() {
    match load_cert(Err("permission denied".to_string())) {
        Err(ConfigError::KubeConfig(m)) => assert_eq!(m, "permission denied"),
        Ok(_) => panic!("a certificate from a file that was not read"),
    }
}

#[test]
fn load_cert_takes_pem() {
    let pem = "-----BEGIN CERTIFICATE-----\nMIIBtjCCAVugAwIBAgITBmyf1XSXNmY/Owua2eiedgPySjAKBggqhkjOPQQDAjA5\nMQswCQYDVQQGEwJVUzEPMA0GA1UEChMGQW1hem9uMRkwFwYDVQQDExBBbWF6b24g\nUm9vdCBDQSAzMB4XDTE1MDUyNjAwMDAwMFoXDTQwMDUyNjAwMDAwMFowOTELMAkG\nA1UEBhMCVVMxDzANBgNVBAoTBkFtYXpvbjEZMBcGA1UEAxMQQW1hem9uIFJvb3Qg\nQ0EgMzBZMBMGByqGSM49AgEGCCqGSM49AwEHA0IABCmXp8ZBf8ANm+gBG1bG8lKl\nui2yEujSLtf6ycXYqm0fc4E7O5hrOXwzpcVOho6AF2hiRVd9RFgdszflZwjrZt6j\nQjBAMA8GA1UdEwEB/wQFMAMBAf8wDgYDVR0PAQH/BAQDAgGGMB0GA1UdDgQWBBSr\nttvXBp43rDCGB5Fwx5zEGbF4wDAKBggqhkjOPQQDAgNJADBGAiEA4IWSoxe3jfkr\nBqWTrBqYaGFy+uGh0PsceGCmQ5nFuMQCIQCcAu/xlJyzlvnrxir4tiz+OpAUFteM\nYyRIHN8wfdVoOw==\n-----END CERTIFICATE-----\n";
    assert!(load_cert(Ok(pem.as_bytes().to_vec())).is_ok());
}
