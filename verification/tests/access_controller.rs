use chatex_sdk::access_controller::TokenStep;
use chatex_sdk::chatex::{ApiContext, BaseContext};
use chatex_sdk::endpoint::Profile;
use chatex_sdk::error::BuildError;
use chatex_sdk::models::AccessToken;
use chatex_sdk::request::{Header, Method, RequestDescription};
use chatex_sdk::AccessController;

fn api(secret: &str) -> ApiContext {
    ApiContext::new(BaseContext::new("https://api.chatex.com/v1/".to_string()), secret.to_string())
}

fn controller() -> AccessController {
    AccessController::new(Profile::new(&BaseContext::new("https://auth.chatex.com/".to_string())))
}

fn token(text: &str) -> AccessToken {
    AccessToken { access_token: text.to_string(), expires_at: 1 }
}

fn token_request(secret: &str) -> RequestDescription {
    RequestDescription {
        method: Method::Post,
        url: "https://auth.chatex.com/access_token".to_string(),
        headers: vec![Header {
            name: "Authorization".to_string(),
            value: format!("Bearer {}", secret),
        }],
        body: None,
    }
}

#[test]
fn controller_keeps_nothing_at_first() {
    assert_eq!(controller().get_access_token(), None);
}

#[test]
fn controller_asks_for_a_token_until_one_is_stored() {
    let mut controller = controller();
    assert_eq!(controller.get_or_fetch_token(&api("s1")), TokenStep::Fetch(token_request("s1")));
    assert_eq!(controller.get_or_fetch_token(&api("s1")), TokenStep::Fetch(token_request("s1")));
    assert_eq!(controller.get_or_fetch_token(&api("s2")), TokenStep::Fetch(token_request("s2")));
    assert_eq!(controller.get_access_token(), None);
    assert_eq!(controller.store(&api("s1"), token("tok")), "tok");
    assert_eq!(controller.get_or_fetch_token(&api("s1")), TokenStep::Ready("tok".to_string()));
}

#[test]
fn controller_serves_the_stored_token_however_often_it_is_asked() {
    let mut controller = controller();
    controller.store(&api("s1"), token("tok"));
    for secret in ["s1", "s2", "\n", ""] {
        assert_eq!(
            controller.get_or_fetch_token(&api(secret)),
            TokenStep::Ready("tok".to_string())
        );
        assert_eq!(controller.get_access_token(), Some("tok".to_string()));
    }
}

#[test]
fn controller_replaces_the_token_as_a_whole() {
    let mut controller = controller();
    assert_eq!(controller.store(&api("s1"), token("first")), "first");
    assert_eq!(controller.store(&api("s1"), token("second")), "second");
    assert_eq!(controller.get_access_token(), Some("second".to_string()));
    assert_eq!(controller.store(&api("s1"), token("")), "");
    assert_eq!(controller.get_access_token(), Some(String::new()));
}

#[test]
fn controller_says_when_the_request_for_a_token_cannot_be_described() {
    let controller = controller();
    assert_eq!(
        controller.get_or_fetch_token(&api("s\n1")),
        TokenStep::Failed(BuildError::InvalidHeader)
    );
    let nowhere = AccessController::new(Profile::new(&BaseContext::new("nowhere".to_string())));
    assert_eq!(nowhere.get_or_fetch_token(&api("s1")), TokenStep::Failed(BuildError::MalformedUrl));
    assert_eq!(nowhere.get_access_token(), None);
}
