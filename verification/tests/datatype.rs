use sota_client::datatype::update_request::{duplicate_all, ids_of, sort_by_install_pos};
use sota_client::datatype::{
    AccessToken, Auth, ClientId, ClientSecret, Config, Error, Event, Package,
    PendingUpdateRequest, UpdateState, Url,
};
use sota_client::interpreter::surface;
use sota_client::persistence::Transfers;

fn request(id: &str, pos: i32) -> PendingUpdateRequest {
    PendingUpdateRequest {
        requestId: id.to_string(),
        installPos: pos,
        packageId: Package { name: "fake-pkg".to_string(), version: "0.1.1".to_string() },
        createdAt: "2010-01-01".to_string(),
    }
}

#[test]
fn each_error_has_its_message() {
    let t = || "text".to_string();
    assert_eq!(Error::AuthorizationError(t()).to_string(), "Http client authorization error: text");
    assert_eq!(Error::UnknownTransfer(t()).to_string(), "No transfer for package: text");
    assert_eq!(Error::ChunkOutOfBounds(t()).to_string(), "Chunk out of bounds: text");
    assert_eq!(Error::ClientError(t()).to_string(), "Http client error: text");
    assert_eq!(Error::DecodeError(t()).to_string(), "Failed to decode base64: text");
    assert_eq!(Error::IncompleteTransfer(t()).to_string(), "Incomplete transfer: text");
    assert_eq!(Error::IoError(t()).to_string(), "IO error: text");
    assert_eq!(Error::IpcError(t()).to_string(), "IPC error: text");
    assert_eq!(Error::JsonDecoderError(t()).to_string(), "Failed to decode JSON: text");
    assert_eq!(Error::JsonEncoderError(t()).to_string(), "Failed to encode JSON: text");
    assert_eq!(Error::ParseError(t()).to_string(), "text");
}

#[test]
fn the_diagnostic_of_an_error_quotes_its_text() {
    assert_eq!(
        Error::ClientError("http://localhost/a \"b\"".to_string()).debug(),
        r#"ClientError("http://localhost/a \"b\"")"#
    );
    assert_eq!(Error::ParseError("line\nbreak".to_string()).debug(), r#"ParseError("line\nbreak")"#);
    assert_eq!(Error::IoError(String::new()).debug(), r#"IoError("")"#);
}

#[test]
fn only_a_refusal_asks_for_authentication() {
    assert!(Error::AuthorizationError("401".to_string()).is_authorization());
    assert!(!Error::ClientError("401".to_string()).is_authorization());
    assert_eq!(surface(&Error::AuthorizationError("401".to_string())), Event::NotAuthenticated);
    assert_eq!(
        surface(&Error::ClientError("http://localhost".to_string())),
        Event::Error("Http client error: http://localhost".to_string())
    );
    assert_eq!(surface(&Error::ParseError("bad".to_string())), Event::Error("bad".to_string()));
}

#[test]
fn an_update_ends_installed_or_failed() {
    assert!(!UpdateState::Pending.is_terminal());
    assert!(!UpdateState::Downloading.is_terminal());
    assert!(!UpdateState::Installing.is_terminal());
    assert!(UpdateState::Installed.is_terminal());
    assert!(UpdateState::Failed.is_terminal());
}

#[test]
fn requests_are_sorted_by_install_position_and_equal_ones_keep_their_order() {
    let requests = vec![
        request("c", 2),
        request("a", 1),
        request("d", 2),
        request("b", 1),
        request("e", -3),
    ];
    let ordered = sort_by_install_pos(&requests);
    assert_eq!(ids_of(&ordered), vec!["e", "a", "b", "c", "d"]);
    assert_eq!(ordered.len(), 5);
    assert_eq!(ordered[0], request("e", -3));
    assert_eq!(ordered[4], request("d", 2));
}

#[test]
fn sorting_nothing_gives_nothing() {
    assert!(sort_by_install_pos(&Vec::new()).is_empty());
    assert!(ids_of(&Vec::new()).is_empty());
}

#[test]
fn sorting_what_is_sorted_changes_nothing() {
    let requests = vec![request("a", 1), request("b", 1), request("c", 7)];
    assert_eq!(sort_by_install_pos(&requests), requests);
    assert_eq!(sort_by_install_pos(&sort_by_install_pos(&requests)), requests);
}

#[test]
fn copies_hold_the_same_values() {
    let requests = vec![request("a", 1), request("b", 0)];
    assert_eq!(duplicate_all(&requests), requests);
    assert_eq!(requests[0].duplicate(), requests[0]);
    assert_eq!(requests[0].packageId.duplicate(), requests[0].packageId);

    let token = AccessToken {
        access_token: "token".to_string(),
        token_type: "type".to_string(),
        expires_in: 10,
        scope: vec!["scope".to_string(), "other".to_string()],
    };
    assert_eq!(token.duplicate(), token);
    let auth = Auth::Token(token);
    assert_eq!(auth.duplicate(), auth);
    let auth = Auth::Credentials(ClientId("id".to_string()), ClientSecret("secret".to_string()));
    assert_eq!(auth.duplicate(), auth);
    assert_eq!(Auth::NoAuth.duplicate(), Auth::NoAuth);

    let event = Event::UpdateErrored("1".to_string(), "why".to_string());
    assert_eq!(event.duplicate(), event);
    let event = Event::UpdatesAvailable(requests);
    assert_eq!(event.duplicate(), event);
}

#[test]
fn a_url_is_joined_by_putting_the_path_behind_it() {
    let server = Url::new("http://127.0.0.1:9000");
    assert_eq!(server.join("/token"), Url("http://127.0.0.1:9000/token".to_string()));
    assert_eq!(server.join(""), server);
    assert_eq!(server.duplicate(), server);
    assert_eq!(server.to_string(), "http://127.0.0.1:9000");
}

#[test]
fn a_package_is_known_by_name_and_version() {
    let package = Package { name: "hello".to_string(), version: "1.0".to_string() };
    assert_eq!(package.file_name(), "hello-1.0");
    let nameless = Package { name: String::new(), version: String::new() };
    assert_eq!(nameless.file_name(), "-");
}

#[test]
fn the_default_configuration() {
    let config = Config::default();
    let auth = config.auth.expect("authentication is configured");
    assert_eq!(auth.server, Url("http://127.0.0.1:9000".to_string()));
    assert_eq!(config.ota.server, Url("http://127.0.0.1:8080".to_string()));
    assert_eq!(config.ota.packages_dir, "/tmp");
    assert_eq!(config.device.uuid, "123e4567-e89b-12d3-a456-426655440000");
    assert_eq!(config.dbus.timeout, 20);
}

#[test]
fn scratch_files_lie_below_the_prefix() {
    let package = Package { name: "hello".to_string(), version: "1.0".to_string() };
    let transfers = Transfers::new("/tmp/sota".to_string());
    assert_eq!(transfers.path_of(&package), "/tmp/sota/hello-1.0");
    assert_eq!(Transfers::new(String::new()).path_of(&package), "/hello-1.0");
}
