use peerctl::id64::Id64;
use peerctl::protocol::Command;
use peerctl::protocol::Request;
use peerctl::protocol::Response;
use peerctl::protocol::encode_request;
use peerctl::protocol::parse_response;

fn wire_of(cmd: Command) -> Vec<u8> {
    encode_request(&Request {
        id: Id64::from_u64(0),
        cmd,
    })
}

#[test]
fn request_wire_form_is_exact() {
    assert_eq!(
        wire_of(Command::Play),
        b"{\"id\":\"AAAAAAAAAAA\",\"cmd\":\"play\"}".to_vec()
    );
    assert_eq!(
        wire_of(Command::Stop),
        b"{\"id\":\"AAAAAAAAAAA\",\"cmd\":\"stop\"}".to_vec()
    );
    assert_eq!(
        wire_of(Command::Refresh),
        b"{\"id\":\"AAAAAAAAAAA\",\"cmd\":\"refresh\"}".to_vec()
    );
    assert_eq!(
        wire_of(Command::BackgroundRefresh),
        b"{\"id\":\"AAAAAAAAAAA\",\"cmd\":\"background_refresh\"}".to_vec()
    );
    assert_eq!(
        wire_of(Command::Build),
        b"{\"id\":\"AAAAAAAAAAA\",\"cmd\":\"build\"}".to_vec()
    );
    assert_eq!(
        wire_of(Command::CheckAlive),
        b"{\"id\":\"AAAAAAAAAAA\",\"cmd\":\"check_alive\"}".to_vec()
    );
}

#[test]
fn request_wire_carries_the_id_text() {
    let id = Id64::from_bytes([1, 2, 3, 4, 5, 6, 7, 8]);
    let wire = encode_request(&Request {
        id,
        cmd: Command::Build,
    });
    assert_eq!(wire, b"{\"id\":\"AQIDBAUGBwg\",\"cmd\":\"build\"}".to_vec());
}

#[test]
fn parse_the_three_tags() {
    assert_eq!(parse_response(b"\"Success\""), Some(Response::Success));
    assert_eq!(parse_response(b"\"Wait\""), Some(Response::Wait));
    assert_eq!(parse_response(b"\"Error\""), Some(Response::Error(None)));
}

#[test]
fn parse_error_object_with_reason() {
    assert_eq!(
        parse_response(b"{\"Error\":\"busy\"}"),
        Some(Response::Error(Some(b"busy".to_vec())))
    );
    assert_eq!(
        parse_response(b"{\"Error\":\"\"}"),
        Some(Response::Error(Some(Vec::new())))
    );
}

#[test]
fn parse_rejects_unrecognized_values() {
    assert_eq!(parse_response(b""), None);
    assert_eq!(parse_response(b"Success"), None);
    assert_eq!(parse_response(b"\"success\""), None);
    assert_eq!(parse_response(b"\"Waiting\""), None);
    assert_eq!(parse_response(b"{\"Error\":\"a\\\"b\"}"), None);
    assert_eq!(parse_response(b"{\"Error\":1}"), None);
    assert_eq!(parse_response(b"{\"error\":\"busy\"}"), None);
}
