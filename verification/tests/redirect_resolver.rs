use ota_update::error::UpdateError;
use ota_update::redirect::{asset_request, resolve, Resolution, REDIRECT_STATUS};

struct Reply {
    status: u16,
    location: Option<String>,
    body: Vec<u8>,
}

/// Fetches `url` from a scripted server, following the resolver's decision,
/// and returns the body with every URL that was requested.
fn fetch(url: &str, replies: &[Reply]) -> (Result<Vec<u8>, UpdateError>, Vec<String>) {
    let mut asked = Vec::new();
    let first = asset_request(url);
    assert_eq!(first.accept, "application/octet-stream");
    asked.push(first.url.clone());
    let reply = &replies[0];
    match resolve(reply.status, reply.location.as_deref()) {
        Err(e) => (Err(e), asked),
        Ok(Resolution::UseBody) => (Ok(reply.body.clone()), asked),
        Ok(Resolution::Follow(next)) => {
            assert_eq!(next.accept, "application/octet-stream");
            asked.push(next.url.clone());
            (Ok(replies[1].body.clone()), asked)
        }
    }
}

#[test]
fn redirect_is_followed_once() {
    let replies = [
        Reply { status: 302, location: Some(String::from("https://example/real.bin")), body: vec![] },
        Reply { status: 200, location: None, body: vec![1, 2, 3] },
    ];
    let (body, asked) = fetch("https://example/asset/1", &replies);
    assert_eq!(body, Ok(vec![1, 2, 3]));
    assert_eq!(asked, vec!["https://example/asset/1", "https://example/real.bin"]);
}

#[test]
fn redirect_without_location_fails_without_follow_up() {
    let replies = [Reply { status: 302, location: None, body: vec![] }];
    let (body, asked) = fetch("https://example/asset/1", &replies);
    assert_eq!(body, Err(UpdateError::MissingRedirectTarget));
    assert_eq!(asked, vec!["https://example/asset/1"]);
}

#[test]
fn other_status_uses_first_body() {
    for status in [200u16, 204, 301, 303, 307, 404, 500] {
        let replies = [Reply {
            status,
            location: Some(String::from("https://example/elsewhere")),
            body: vec![9, 9],
        }];
        let (body, asked) = fetch("https://example/asset/1", &replies);
        assert_eq!(body, Ok(vec![9, 9]));
        assert_eq!(asked.len(), 1);
    }
}

#[test]
fn second_redirect_is_not_followed() {
    let replies = [
        Reply { status: REDIRECT_STATUS, location: Some(String::from("https://example/hop")), body: vec![] },
        Reply { status: 302, location: Some(String::from("https://example/hop2")), body: vec![7] },
    ];
    let (body, asked) = fetch("https://example/asset/1", &replies);
    assert_eq!(body, Ok(vec![7]));
    assert_eq!(asked.len(), 2);
}

#[test]
fn request_carries_url_and_accept() {
    let request = asset_request("https://example/a.bin");
    assert_eq!(request.url, "https://example/a.bin");
    assert_eq!(request.accept, "application/octet-stream");
}
