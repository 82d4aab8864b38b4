use tibco_ems::MockServer;

#[test]
fn test_mock_connection() -> Result<(), String> {
    let mut server = MockServer::new();
    let result = tibco_ems::connect(&mut server, "tcp://example.org:7222", "admin", "admin");
    match result {
        Ok(_val) => {
            return Ok(());
        }
        Err(_err) => {
            return Err("no error was returned".to_string());
        }
    }
}

const USER: &str = "admin";
const PASSWORD: &str = "";
const URL: &str = "tcp://localhost:7222";

#[test]
fn test_connection_success() {
    let mut server = MockServer::new();
    let result = tibco_ems::connect(&mut server, "tcp://localhost:7222", "admin", "");
    assert!(result.is_ok());
}

#[test]
fn test_session_success() {
    let mut server = MockServer::new();
    let con = tibco_ems::connect(&mut server, URL, USER, PASSWORD).unwrap();
    let session = con.session(&mut server);
    assert!(session.is_ok());
}

#[test]
fn test_transacted_session_success() {
    let mut server = MockServer::new();
    let con = tibco_ems::connect(&mut server, URL, USER, PASSWORD).unwrap();
    let session = con.transacted_session(&mut server);
    assert!(session.is_ok());
}

#[test]
fn connection_test_open_stream_success() {
    let mut server = MockServer::new();
    let con = tibco_ems::connect(&mut server, URL, USER, PASSWORD).unwrap();
    let dest = tibco_ems::Destination::Queue("test-success".into());
    let stream = con.open_stream::<tibco_ems::TextMessage>(&mut server, &dest, None);
    assert!(stream.is_ok());
}

#[test]
fn stream_test_open_stream_success() {
    let mut server = MockServer::new();
    let con = tibco_ems::connect(&mut server, URL, USER, PASSWORD).unwrap();
    let dest = tibco_ems::Destination::Queue("test-success".into());
    let stream = con.open_stream::<tibco_ems::TextMessage>(&mut server, &dest, None);
    assert!(stream.is_ok());
}
