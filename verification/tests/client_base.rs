use chatex_sdk::call::{Action, Call, Event, Phase, Schema, Target};
use chatex_sdk::chatex::{ApiContext, BaseContext};
use chatex_sdk::coin::Coin;
use chatex_sdk::endpoint::{Operation, Profile};
use chatex_sdk::error::{BuildError, Error};
use chatex_sdk::models;
use chatex_sdk::request::{Header, Method, RequestDescription};
use chatex_sdk::{AccessController, ClientBase, CoinClient, ProfileClient};

fn base() -> ClientBase {
    let api = ApiContext::new(
        BaseContext::new("https://api.chatex.com/v1/".to_string()),
        "s3cret".to_string(),
    );
    let auth = BaseContext::new("https://auth.chatex.com/".to_string());
    let controller = AccessController::new(Profile::new(&auth));
    ClientBase::new(api, controller)
}

fn bearer(credential: &str) -> Vec<Header> {
    vec![Header { name: "Authorization".to_string(), value: format!("Bearer {}", credential) }]
}

fn request(method: Method, url: &str, credential: &str) -> RequestDescription {
    RequestDescription { method, url: url.to_string(), headers: bearer(credential), body: None }
}

fn grant(base: &mut ClientBase, call: Call<models::Coins>, token: &str) -> Action<models::Coins> {
    let (call, action) = base.resume(call, Event::Head(200));
    assert_eq!(action, Action::Receive);
    let (call, action) = base.resume(call, Event::Chunk(b"{}".to_vec()));
    assert_eq!(action, Action::Receive);
    let (call, action) = base.resume(call, Event::EndOfBody);
    assert_eq!(action, Action::Decode(Schema::AccessToken, b"{}".to_vec()));
    assert_eq!(call.phase(), Phase::Decode(Target::Token, 200));
    let granted = models::AccessToken { access_token: token.to_string(), expires_at: 7 };
    base.resume(call, Event::Token(Some(granted))).1
}

#[test]
fn token_is_asked_for_where_the_controller_asks_and_used_where_the_client_lies() {
    let mut base = base();
    assert_eq!(base.get_access_token(), None);
    let (call, action) = base.begin::<models::Coins>(Operation::ListCoins);
    assert_eq!(
        action,
        Action::Send(request(Method::Post, "https://auth.chatex.com/access_token", "s3cret"))
    );
    assert_eq!(call.phase(), Phase::Head(Target::Token));
    assert_eq!(call.operation(), &Operation::ListCoins);
    assert_eq!(
        grant(&mut base, call, "tok"),
        Action::Send(request(Method::Get, "https://api.chatex.com/v1/coins", "tok"))
    );
    assert_eq!(base.get_access_token(), Some("tok".to_string()));
}

#[test]
fn operation_without_token_goes_out_under_the_secret() {
    let base = base();
    let (call, action) = base.begin::<models::AccessToken>(Operation::CreateAccessToken);
    assert_eq!(
        action,
        Action::Send(request(Method::Post, "https://api.chatex.com/v1/access_token", "s3cret"))
    );
    assert_eq!(call.phase(), Phase::Head(Target::Endpoint));
}

#[test]
fn facades_begin_the_calls_of_their_operations() {
    let mut base = base();
    let (call, _) = base.begin::<models::Coins>(Operation::ListCoins);
    grant(&mut base, call, "tok");

    let profile = ProfileClient::new(&base);
    assert_eq!(profile.get_account_information(), base.begin(Operation::GetProfile));
    assert_eq!(profile.get_balance_summary(), base.begin(Operation::GetBalance));
    assert_eq!(profile.create_access_token(), base.begin(Operation::CreateAccessToken));
    assert_eq!(
        profile.get_account_information().1,
        Action::Send(request(Method::Get, "https://api.chatex.com/v1/me", "tok"))
    );
    assert_eq!(
        profile.get_balance_summary().1,
        Action::Send(request(Method::Get, "https://api.chatex.com/v1/balance", "tok"))
    );

    let coin = CoinClient::new(&base);
    assert_eq!(coin.get_available_coins(), base.begin(Operation::ListCoins));
    assert_eq!(coin.get_coin(Coin::ETH), base.begin(Operation::GetCoin(Coin::ETH)));
    assert_eq!(
        coin.get_coin(Coin::ETH).1,
        Action::Send(request(Method::Get, "https://api.chatex.com/v1/coins/eth", "tok"))
    );
    assert_eq!(coin.get_coin(Coin::ETH).0.operation(), &Operation::GetCoin(Coin::ETH));
}

#[test]
fn dispatch_sends_what_was_described() {
    let described = request(Method::Get, "https://api.chatex.com/v1/me", "tok");
    let (call, action) =
        Call::<models::BasicInfo>::dispatch(Operation::GetProfile, Ok(described.clone()));
    assert_eq!(action, Action::Send(described));
    assert_eq!(call.phase(), Phase::Head(Target::Endpoint));
    assert_eq!(call.operation(), &Operation::GetProfile);
    assert!(!call.is_finished());
}

#[test]
fn dispatch_ends_the_call_where_nothing_was_described() {
    for reason in [BuildError::MalformedUrl, BuildError::InvalidHeader] {
        let (call, action) =
            Call::<models::BasicInfo>::dispatch(Operation::GetProfile, Err(reason));
        assert_eq!(action, Action::Finish(Err(Error::RequestBuild(reason))));
        assert_eq!(call.phase(), Phase::Finished);
        assert!(call.is_finished());
    }
}

#[test]
fn assemble_puts_the_request_together() {
    assert_eq!(
        RequestDescription::assemble(Method::Post, Some("https://h/p".to_string()), true, "c"),
        Ok(request(Method::Post, "https://h/p", "c"))
    );
    assert_eq!(
        RequestDescription::assemble(Method::Get, Some(String::new()), true, ""),
        Ok(request(Method::Get, "", ""))
    );
}

#[test]
fn assemble_judges_the_url_before_the_credential() {
    assert_eq!(
        RequestDescription::assemble(Method::Get, None, true, "c"),
        Err(BuildError::MalformedUrl)
    );
    assert_eq!(
        RequestDescription::assemble(Method::Get, None, false, "\n"),
        Err(BuildError::MalformedUrl)
    );
    assert_eq!(
        RequestDescription::assemble(Method::Get, Some("https://h/p".to_string()), false, "c"),
        Err(BuildError::MalformedUrl)
    );
    assert_eq!(
        RequestDescription::assemble(Method::Get, Some("https://h/p".to_string()), false, "\n"),
        Err(BuildError::MalformedUrl)
    );
    assert_eq!(
        RequestDescription::assemble(Method::Get, Some("https://h/p".to_string()), true, "\n"),
        Err(BuildError::InvalidHeader)
    );
}

#[test]
fn authorized_resolves_the_path_and_carries_the_credential() {
    assert_eq!(
        RequestDescription::authorized(Method::Get, "https://h/a/b", "c?d=1", "tok"),
        Ok(request(Method::Get, "https://h/a/c?d=1", "tok"))
    );
    assert_eq!(
        RequestDescription::authorized(Method::Post, "HTTPS://H:443/a/", "../x", "tok"),
        Ok(request(Method::Post, "https://h/x", "tok"))
    );
    assert_eq!(
        RequestDescription::authorized(Method::Get, "h/a", "c", "tok"),
        Err(BuildError::MalformedUrl)
    );
}
