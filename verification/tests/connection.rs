use btc5min_limit_order::clob_client::{
    ClientError, ClobClient, LoopStep, ReconnectStep, MAX_RECONNECT_ATTEMPTS,
};
use btc5min_limit_order::config::Config;

const UUID: &str = "936da01f-9abd-4d9d-80c7-02af85c822a8";
const ADDRESS: &str = "0xd8dA6BF26964aF9D7eEd9e03E53415D37aA96045";

fn session(key: &str, address: &str) -> Result<[u8; 16], ClientError> {
    ClobClient::create_authenticated_client(key, "s".to_string(), "p".to_string(), address)
        .map(|session| session.api_key)
}

#[test]
fn the_key_of_the_stream_is_a_uuid() {
    let bytes = session(UUID, ADDRESS).unwrap();
    assert_eq!(bytes[0], 0x93);
    assert_eq!(bytes[4], 0x9a);
    assert_eq!(bytes[15], 0xa8);
    let plain = UUID.replace('-', "");
    for key in [
        plain.as_str(),
        "{936DA01F-9abd-4d9d-80c7-02af85c822a8}",
        "URN:uuid:936da01f-9abd-4d9d-80c7-02af85c822a8",
    ] {
        assert_eq!(session(key, ADDRESS).unwrap(), bytes);
    }
    for key in ["", "936da01f", "936da01f-9abd-4d9d-80c7-02af85c822ag", &UUID[1..]] {
        let error = session(key, ADDRESS).unwrap_err();
        assert!(matches!(error, ClientError::InvalidApiKey(_)));
        assert_eq!(error.message(), uuid::Uuid::parse_str(key).unwrap_err().to_string());
    }
}

#[test]
fn a_session_holds_what_the_stream_is_opened_with() {
    let session = ClobClient::create_authenticated_client(
        UUID,
        "secret".to_string(),
        "phrase".to_string(),
        ADDRESS,
    )
    .unwrap();
    assert_eq!(session.secret, "secret");
    assert_eq!(session.passphrase, "phrase");
    assert_eq!(session.address[0], 0xd8);
    let error = ClobClient::create_authenticated_client(
        UUID,
        String::new(),
        String::new(),
        "0xd8",
    )
    .unwrap_err();
    assert!(matches!(error, ClientError::InvalidAddress(_)));
    assert_eq!(error.message(), "invalid string length");
}

#[test]
fn without_a_key_there_is_no_stream() {
    let mut config = Config::default();
    let error = ClobClient::private_key(&config).unwrap_err();
    assert_eq!(error.message(), "private_key not found in config.polymarket");
    config.polymarket.private_key = Some("key".to_string());
    assert_eq!(ClobClient::private_key(&config).unwrap(), "key");
}

#[test]
fn it_is_tried_ten_times_to_connect() {
    let client = ClobClient::new(Config::default(), false);
    let mut attempts = 0;
    let mut tries = 0;
    while let ReconnectStep::Try(next) = client.reconnect(attempts) {
        assert_eq!(next, attempts + 1);
        attempts = next;
        tries += 1;
    }
    assert_eq!(tries, MAX_RECONNECT_ATTEMPTS);
    assert_eq!(client.reconnect(attempts), ReconnectStep::GiveUp);
    assert_eq!(
        ClientError::ReconnectFailed.message(),
        "Failed to reconnect after 10 attempts"
    );
}

#[test]
fn a_shutdown_ends_all_tries() {
    let mut client = ClobClient::new(Config::default(), true);
    assert!(!client.is_shutdown());
    client.mark_shutdown();
    assert!(client.is_shutdown());
    assert_eq!(client.reconnect(0), ReconnectStep::Stop);
    assert_eq!(client.reconnect(10), ReconnectStep::Stop);
    assert_eq!(client.run_with_reconnect(LoopStep::Round, false), LoopStep::Stop);
    assert_eq!(client.run_with_reconnect(LoopStep::Stop, true), LoopStep::Stop);
}

#[test]
fn the_handler_runs_until_it_is_done() {
    let mut client = ClobClient::new(Config::default(), false);
    assert_eq!(client.run_with_reconnect(LoopStep::Round, false), LoopStep::ReconnectFirst);
    assert_eq!(client.run_with_reconnect(LoopStep::ReconnectFirst, true), LoopStep::Pause);
    assert_eq!(client.run_with_reconnect(LoopStep::Pause, false), LoopStep::Round);
    assert_eq!(client.run_with_reconnect(LoopStep::ReconnectFirst, false), LoopStep::RunHandler);
    client.reconnected();
    assert_eq!(client.run_with_reconnect(LoopStep::Round, false), LoopStep::RunHandler);
    assert_eq!(client.run_with_reconnect(LoopStep::RunHandler, false), LoopStep::Stop);
    assert!(client.connected);
}

#[test]
fn a_failed_handler_runs_again_only_on_a_new_connection() {
    let mut client = ClobClient::new(Config::default(), true);
    assert_eq!(client.run_with_reconnect(LoopStep::RunHandler, true), LoopStep::Reconnect);
    assert!(!client.connected);
    assert_eq!(client.run_with_reconnect(LoopStep::Reconnect, true), LoopStep::Stop);
    client.reconnected();
    assert_eq!(client.run_with_reconnect(LoopStep::Reconnect, false), LoopStep::Round);
    assert_eq!(client.run_with_reconnect(LoopStep::Round, false), LoopStep::RunHandler);
}
