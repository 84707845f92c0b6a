use std::collections::VecDeque;

use chatex_sdk::call::{Action, Call, Event, Phase, Schema, Target};
use chatex_sdk::coin::Coin;
use chatex_sdk::error::{BuildError, DecodeStage, Error, ErrorPayload};
use chatex_sdk::models;
use chatex_sdk::request::{Header, Method, RequestDescription};
use chatex_sdk::ChatexClient;

const BASE: &str = "https://api.chatex.com/v1/";
const TOKEN_BODY: &str = r#"{"access_token":"tok-1","expires_at":1700000000}"#;

/// What the scripted transport answers a request with.
enum Reply {
    Refused(&'static str),
    Answer { status: u16, chunks: Vec<Vec<u8>>, broken: bool },
}

fn answer(status: u16, body: &str) -> Reply {
    Reply::Answer { status, chunks: vec![body.as_bytes().to_vec()], broken: false }
}

/// A transport that answers from a script and remembers what it was sent.
struct Script {
    replies: VecDeque<Reply>,
    sent: Vec<RequestDescription>,
    decoded: Vec<(Schema, Vec<u8>)>,
}

impl Script {
    fn new(replies: Vec<Reply>) -> Script {
        Script { replies: replies.into(), sent: Vec::new(), decoded: Vec::new() }
    }

    fn sent_to(&self, url: &str) -> usize {
        self.sent.iter().filter(|request| request.url == url).count()
    }
}

fn text(value: &serde_json::Value, key: &str) -> Option<String> {
    value.get(key)?.as_str().map(str::to_string)
}

fn token_of(bytes: &[u8]) -> Option<models::AccessToken> {
    let value: serde_json::Value = serde_json::from_slice(bytes).ok()?;
    Some(models::AccessToken {
        access_token: text(&value, "access_token")?,
        expires_at: i32::try_from(value.get("expires_at")?.as_i64()?).ok()?,
    })
}

fn payload_of(bytes: &[u8]) -> Option<ErrorPayload> {
    let value: serde_json::Value = serde_json::from_slice(bytes).ok()?;
    Some(ErrorPayload { code: text(&value, "code")?, message: text(&value, "message")? })
}

fn coin_of_value(value: &serde_json::Value) -> Option<models::Coin> {
    Some(models::Coin {
        decimals: u32::try_from(value.get("decimals")?.as_u64()?).ok()?,
        full_name: text(value, "full_name")?,
        name: text(value, "name")?,
    })
}

fn coin_of(bytes: &[u8]) -> Option<models::Coin> {
    coin_of_value(&serde_json::from_slice(bytes).ok()?)
}

fn coins_of(bytes: &[u8]) -> Option<models::Coins> {
    let value: serde_json::Value = serde_json::from_slice(bytes).ok()?;
    value.as_array()?.iter().map(coin_of_value).collect()
}

fn balance_of(bytes: &[u8]) -> Option<models::Balance> {
    let value: serde_json::Value = serde_json::from_slice(bytes).ok()?;
    value
        .as_array()?
        .iter()
        .map(|item| {
            Some(models::Currency {
                amount: text(item, "amount")?,
                coin: text(item, "coin")?,
                held: text(item, "held")?,
            })
        })
        .collect()
}

/// Carries a call through against the script and gives its result.
fn drive<T>(
    client: &mut ChatexClient,
    start: (Call<T>, Action<T>),
    script: &mut Script,
    decode: fn(&[u8]) -> Option<T>,
) -> Result<T, Error> {
    let (mut call, mut action) = start;
    let mut pieces: VecDeque<Vec<u8>> = VecDeque::new();
    let mut broken = false;
    loop {
        let event = match action {
            Action::Send(request) => {
                script.sent.push(request);
                match script.replies.pop_front().expect("the script has no reply left") {
                    Reply::Refused(why) => Event::TransportFailed(why.to_string()),
                    Reply::Answer { status, chunks, broken: breaks } => {
                        pieces = chunks.into();
                        broken = breaks;
                        Event::Head(status)
                    }
                }
            }
            Action::Receive => match pieces.pop_front() {
                Some(piece) => Event::Chunk(piece),
                None if broken => Event::BodyFailed,
                None => Event::EndOfBody,
            },
            Action::Decode(schema, bytes) => {
                script.decoded.push((schema, bytes.clone()));
                match schema {
                    Schema::AccessToken => Event::Token(token_of(&bytes)),
                    Schema::ErrorPayload => Event::Payload(payload_of(&bytes)),
                    Schema::Model => Event::Model(decode(&bytes)),
                }
            }
            Action::Finish(result) => {
                assert!(call.is_finished());
                return result;
            }
        };
        let next = client.resume(call, event);
        call = next.0;
        action = next.1;
    }
}

fn client() -> ChatexClient {
    ChatexClient::new(BASE.to_string(), "s3cret".to_string())
}

fn bearer(credential: &str) -> Vec<Header> {
    vec![Header { name: "Authorization".to_string(), value: format!("Bearer {}", credential) }]
}

fn token_request() -> RequestDescription {
    RequestDescription {
        method: Method::Post,
        url: format!("{}access_token", BASE),
        headers: bearer("s3cret"),
        body: None,
    }
}

fn get(path: &str, credential: &str) -> RequestDescription {
    RequestDescription {
        method: Method::Get,
        url: format!("{}{}", BASE, path),
        headers: bearer(credential),
        body: None,
    }
}

fn bitcoin() -> models::Coin {
    models::Coin { decimals: 8, full_name: "Bitcoin".to_string(), name: "btc".to_string() }
}

const BITCOIN_BODY: &str = r#"{"decimals":8,"full_name":"Bitcoin","name":"btc"}"#;

const BALANCE_BODY: &str = "[{\"amount\":\"1.5\",\"coin\":\"btc\",\"held\":\"0\"},\
    {\"amount\":\"0\",\"coin\":\"eth\",\"held\":\"2\"}]";

#[test]
fn fresh_client_keeps_no_token() {
    assert_eq!(client().get_access_token(), None);
}

#[test]
fn first_call_fetches_the_token_once_and_later_calls_reuse_it() {
    let mut client = client();
    let mut script = Script::new(vec![
        answer(200, TOKEN_BODY),
        answer(200, BITCOIN_BODY),
        answer(200, "[]"),
        answer(200, BITCOIN_BODY),
    ]);

    let start = client.coin().get_coin(Coin::BTC);
    assert_eq!(start.0.phase(), Phase::Head(Target::Token));
    assert_eq!(start.1, Action::Send(token_request()));
    assert_eq!(drive(&mut client, start, &mut script, coin_of), Ok(bitcoin()));
    assert_eq!(script.sent, vec![token_request(), get("coins/btc", "tok-1")]);
    assert_eq!(client.get_access_token(), Some("tok-1".to_string()));

    let start = client.coin().get_available_coins();
    assert_eq!(start.0.phase(), Phase::Head(Target::Endpoint));
    assert_eq!(drive(&mut client, start, &mut script, coins_of), Ok(vec![]));
    let start = client.coin().get_coin(Coin::BTC);
    assert_eq!(drive(&mut client, start, &mut script, coin_of), Ok(bitcoin()));

    assert_eq!(script.sent_to("https://api.chatex.com/v1/access_token"), 1);
    assert_eq!(
        script.sent,
        vec![
            token_request(),
            get("coins/btc", "tok-1"),
            get("coins", "tok-1"),
            get("coins/btc", "tok-1"),
        ]
    );
    assert_eq!(client.get_access_token(), Some("tok-1".to_string()));
}

#[test]
fn failed_fetch_is_not_remembered() {
    let mut client = client();
    let mut script = Script::new(vec![
        Reply::Refused("connection refused"),
        answer(200, TOKEN_BODY),
        answer(200, BITCOIN_BODY),
    ]);

    let start = client.coin().get_coin(Coin::BTC);
    assert_eq!(drive(&mut client, start, &mut script, coin_of), Err(Error::AuthUnavailable));
    assert_eq!(script.sent, vec![token_request()]);
    assert_eq!(client.get_access_token(), None);

    let start = client.coin().get_coin(Coin::BTC);
    assert_eq!(start.1, Action::Send(token_request()));
    assert_eq!(drive(&mut client, start, &mut script, coin_of), Ok(bitcoin()));
    assert_eq!(script.sent, vec![token_request(), token_request(), get("coins/btc", "tok-1")]);
    assert_eq!(client.get_access_token(), Some("tok-1".to_string()));
}

#[test]
fn refused_token_is_auth_unavailable_and_the_operation_is_not_sent() {
    for reply in [
        answer(401, r#"{"code":"BAD_SECRET","message":"no"}"#),
        answer(500, ""),
        answer(302, TOKEN_BODY),
        answer(200, r#"{"access_token":"tok-1""#),
        answer(200, r#"{"expires_at":1}"#),
        Reply::Answer { status: 200, chunks: vec![b"{\"access".to_vec()], broken: true },
        Reply::Refused("timed out"),
    ] {
        let mut client = client();
        let mut script = Script::new(vec![reply]);
        let start = client.profile().get_balance_summary();
        assert_eq!(
            drive(&mut client, start, &mut script, balance_of),
            Err(Error::AuthUnavailable)
        );
        assert_eq!(script.sent, vec![token_request()]);
        assert_eq!(client.get_access_token(), None);
    }
}

#[test]
fn failure_status_on_the_token_request_ends_the_call_at_once() {
    let mut client = client();
    let (call, _) = client.profile().get_account_information();
    let (call, action) = client.resume(call, Event::Head(401));
    assert_eq!(action, Action::Finish(Err(Error::AuthUnavailable)));
    assert!(call.is_finished());
}

#[test]
fn success_status_gives_the_decoded_model() {
    let mut client = client();
    let mut script = Script::new(vec![answer(200, TOKEN_BODY), answer(200, BITCOIN_BODY)]);
    let start = client.coin().get_coin(Coin::BTC);
    assert_eq!(drive(&mut client, start, &mut script, coin_of), Ok(bitcoin()));
    assert_eq!(
        script.decoded,
        vec![
            (Schema::AccessToken, TOKEN_BODY.as_bytes().to_vec()),
            (Schema::Model, BITCOIN_BODY.as_bytes().to_vec()),
        ]
    );
}

#[test]
fn failure_status_gives_the_payload_of_the_exchange() {
    let mut client = client();
    let mut script =
        Script::new(vec![answer(200, TOKEN_BODY), answer(403, r#"{"code":"X","message":"Y"}"#)]);
    let start = client.profile().get_account_information();
    assert_eq!(
        drive(&mut client, start, &mut script, |_| Some(models::BasicInfo::default())),
        Err(Error::Http {
            status: 403,
            payload: Some(ErrorPayload { code: "X".to_string(), message: "Y".to_string() }),
        })
    );
    assert_eq!(script.decoded[1].0, Schema::ErrorPayload);
}

#[test]
fn failure_status_without_a_payload_keeps_the_status() {
    let answers = [(500u16, "<html>oops</html>"), (404, ""), (301, BITCOIN_BODY), (199, "{}")];
    for (status, body) in answers {
        let mut client = client();
        let mut script = Script::new(vec![answer(200, TOKEN_BODY), answer(status, body)]);
        let start = client.coin().get_coin(Coin::BTC);
        assert_eq!(
            drive(&mut client, start, &mut script, coin_of),
            Err(Error::Http { status, payload: None })
        );
    }
}

#[test]
fn failure_status_with_a_broken_body_keeps_the_status() {
    let mut client = client();
    let mut script = Script::new(vec![
        answer(200, TOKEN_BODY),
        Reply::Answer { status: 503, chunks: vec![b"{\"code\":".to_vec()], broken: true },
    ]);
    let start = client.coin().get_coin(Coin::BTC);
    assert_eq!(
        drive(&mut client, start, &mut script, coin_of),
        Err(Error::Http { status: 503, payload: None })
    );
}

#[test]
fn truncated_body_is_a_parse_failure() {
    let bodies =
        ["", "{", r#"{"decimals":8,"full_name":"Bitcoin","#, r#"{"decimals":"8"}"#, "null", "[]"];
    for body in bodies {
        let mut client = client();
        let mut script = Script::new(vec![answer(200, TOKEN_BODY), answer(200, body)]);
        let start = client.coin().get_coin(Coin::BTC);
        assert_eq!(
            drive(&mut client, start, &mut script, coin_of),
            Err(Error::Decode(DecodeStage::Parse))
        );
    }
}

#[test]
fn broken_body_is_a_read_failure() {
    let mut client = client();
    let mut script = Script::new(vec![
        answer(200, TOKEN_BODY),
        Reply::Answer { status: 200, chunks: vec![BITCOIN_BODY.as_bytes().to_vec()], broken: true },
    ]);
    let start = client.coin().get_coin(Coin::BTC);
    assert_eq!(
        drive(&mut client, start, &mut script, coin_of),
        Err(Error::Decode(DecodeStage::Read))
    );
    assert_eq!(script.decoded.len(), 1);
}

#[test]
fn transport_failure_is_reported_in_the_transports_words() {
    let mut client = client();
    let mut script = Script::new(vec![answer(200, TOKEN_BODY), Reply::Refused("connection reset")]);
    let start = client.coin().get_coin(Coin::BTC);
    assert_eq!(
        drive(&mut client, start, &mut script, coin_of),
        Err(Error::Transport("connection reset".to_string()))
    );
    assert_eq!(client.get_access_token(), Some("tok-1".to_string()));
}

#[test]
fn body_is_gathered_from_its_pieces_in_order() {
    let mut client = client();
    let pieces: Vec<Vec<u8>> = vec![
        b"{\"decimals\":8,".to_vec(),
        Vec::new(),
        b"\"full_name\":\"Bit".to_vec(),
        b"coin\",\"name\":\"btc\"}".to_vec(),
    ];
    let mut script = Script::new(vec![
        Reply::Answer {
            status: 200,
            chunks: TOKEN_BODY.as_bytes().chunks(3).map(<[u8]>::to_vec).collect(),
            broken: false,
        },
        Reply::Answer { status: 200, chunks: pieces, broken: false },
    ]);
    let start = client.coin().get_coin(Coin::BTC);
    assert_eq!(drive(&mut client, start, &mut script, coin_of), Ok(bitcoin()));
    assert_eq!(
        script.decoded,
        vec![
            (Schema::AccessToken, TOKEN_BODY.as_bytes().to_vec()),
            (Schema::Model, BITCOIN_BODY.as_bytes().to_vec()),
        ]
    );
}

#[test]
fn empty_body_is_handed_to_the_decoder_empty() {
    let mut client = client();
    let (call, _) = client.profile().create_access_token();
    let (call, action) =
        client.resume::<models::AccessToken>(call, Event::Head(204));
    assert_eq!(action, Action::Receive);
    assert_eq!(call.phase(), Phase::Body(Target::Endpoint, 204));
    let (call, action) = client.resume::<models::AccessToken>(call, Event::EndOfBody);
    assert_eq!(action, Action::Decode(Schema::Model, Vec::new()));
    assert_eq!(call.phase(), Phase::Decode(Target::Endpoint, 204));
}

#[test]
fn create_access_token_gives_the_token_and_keeps_nothing() {
    let mut client = client();
    let mut script = Script::new(vec![answer(200, TOKEN_BODY)]);
    let start = client.profile().create_access_token();
    assert_eq!(start.0.phase(), Phase::Head(Target::Endpoint));
    assert_eq!(start.1, Action::Send(token_request()));
    assert_eq!(
        drive(&mut client, start, &mut script, token_of),
        Ok(models::AccessToken { access_token: "tok-1".to_string(), expires_at: 1_700_000_000 })
    );
    assert_eq!(script.decoded[0].0, Schema::Model);
    assert_eq!(client.get_access_token(), None);
}

#[test]
fn create_access_token_reports_why_it_was_refused() {
    let mut client = client();
    let mut script =
        Script::new(vec![answer(401, r#"{"code":"BAD_SECRET","message":"unknown secret"}"#)]);
    let start = client.profile().create_access_token();
    assert_eq!(
        drive(&mut client, start, &mut script, token_of),
        Err(Error::Http {
            status: 401,
            payload: Some(ErrorPayload {
                code: "BAD_SECRET".to_string(),
                message: "unknown secret".to_string(),
            }),
        })
    );
}

#[test]
fn balance_and_coins_are_lists() {
    let mut client = client();
    let mut script = Script::new(vec![
        answer(200, TOKEN_BODY),
        answer(200, BALANCE_BODY),
        answer(200, r#"[{"decimals":8,"full_name":"Bitcoin","name":"btc"}]"#),
    ]);
    let start = client.profile().get_balance_summary();
    assert_eq!(
        drive(&mut client, start, &mut script, balance_of),
        Ok(vec![
            models::Currency {
                amount: "1.5".to_string(),
                coin: "btc".to_string(),
                held: "0".to_string(),
            },
            models::Currency {
                amount: "0".to_string(),
                coin: "eth".to_string(),
                held: "2".to_string(),
            },
        ])
    );
    let start = client.coin().get_available_coins();
    assert_eq!(drive(&mut client, start, &mut script, coins_of), Ok(vec![bitcoin()]));
    assert_eq!(
        script.sent,
        vec![token_request(), get("balance", "tok-1"), get("coins", "tok-1")]
    );
}

#[test]
fn base_that_is_no_url_ends_the_call_before_anything_is_sent() {
    let client = ChatexClient::new("nowhere".to_string(), "s3cret".to_string());
    let (call, action) = client.profile().create_access_token();
    assert_eq!(action, Action::Finish(Err(Error::RequestBuild(BuildError::MalformedUrl))));
    assert!(call.is_finished());
    let (call, action) = client.profile().get_account_information();
    assert_eq!(action, Action::Finish(Err(Error::AuthUnavailable)));
    assert!(call.is_finished());
}

#[test]
fn secret_that_no_header_can_carry_ends_the_call_before_anything_is_sent() {
    let client = ChatexClient::new(BASE.to_string(), "s3\ncret".to_string());
    let (_, action) = client.profile().create_access_token();
    assert_eq!(action, Action::Finish(Err(Error::RequestBuild(BuildError::InvalidHeader))));
    let (_, action) = client.coin().get_available_coins();
    assert_eq!(action, Action::Finish(Err(Error::AuthUnavailable)));
}

#[test]
fn token_that_no_header_can_carry_is_kept_but_the_request_is_not_built() {
    let mut client = client();
    let mut script =
        Script::new(vec![answer(200, r#"{"access_token":"tok\n1","expires_at":0}"#)]);
    let start = client.coin().get_coin(Coin::BTC);
    assert_eq!(
        drive(&mut client, start, &mut script, coin_of),
        Err(Error::RequestBuild(BuildError::InvalidHeader))
    );
    assert_eq!(script.sent, vec![token_request()]);
    assert_eq!(client.get_access_token(), Some("tok\n1".to_string()));
    let (_, action) = client.coin().get_coin(Coin::BTC);
    assert_eq!(action, Action::Finish(Err(Error::RequestBuild(BuildError::InvalidHeader))));
}

#[test]
fn later_token_replaces_the_earlier_one() {
    let mut client = client();
    let (first, _) = client.coin().get_coin(Coin::BTC);
    let (second, _) = client.coin().get_coin(Coin::ETH);
    assert_eq!(first.phase(), Phase::Head(Target::Token));
    assert_eq!(second.phase(), Phase::Head(Target::Token));

    let grant = |client: &mut ChatexClient, call: Call<models::Coin>, token: &str| {
        let (call, _) = client.resume::<models::Coin>(call, Event::Head(200));
        let (call, _) = client.resume::<models::Coin>(call, Event::EndOfBody);
        client.resume::<models::Coin>(
            call,
            Event::Token(Some(models::AccessToken {
                access_token: token.to_string(),
                expires_at: 0,
            })),
        )
    };
    let (_, action) = grant(&mut client, first, "tok-a");
    assert_eq!(action, Action::Send(get("coins/btc", "tok-a")));
    assert_eq!(client.get_access_token(), Some("tok-a".to_string()));
    let (_, action) = grant(&mut client, second, "tok-b");
    assert_eq!(action, Action::Send(get("coins/eth", "tok-b")));
    assert_eq!(client.get_access_token(), Some("tok-b".to_string()));
}

#[test]
fn event_out_of_turn_ends_the_call_as_a_transport_failure() {
    let out_of_turn = Error::Transport("unexpected event".to_string());
    let mut client = client();

    let (call, _) = client.profile().create_access_token();
    let (call, action) = client.resume::<models::AccessToken>(call, Event::EndOfBody);
    assert_eq!(action, Action::Finish(Err(out_of_turn.clone())));
    assert!(call.is_finished());

    let (call, _) = client.profile().create_access_token();
    let (call, _) = client.resume::<models::AccessToken>(call, Event::Head(200));
    let (call, action) = client.resume::<models::AccessToken>(call, Event::Head(200));
    assert_eq!(action, Action::Finish(Err(out_of_turn.clone())));
    assert!(call.is_finished());

    let (call, _) = client.profile().create_access_token();
    let (call, _) = client.resume::<models::AccessToken>(call, Event::Head(200));
    let (call, _) = client.resume::<models::AccessToken>(call, Event::EndOfBody);
    let (call, action) = client.resume::<models::AccessToken>(call, Event::Payload(None));
    assert_eq!(action, Action::Finish(Err(out_of_turn.clone())));
    assert!(call.is_finished());

    let (call, _) = client.profile().create_access_token();
    let (call, _) = client.resume::<models::AccessToken>(call, Event::Head(500));
    let (call, _) = client.resume::<models::AccessToken>(call, Event::EndOfBody);
    let (call, action) = client.resume(call, Event::Model(Some(models::AccessToken::default())));
    assert_eq!(action, Action::Finish(Err(out_of_turn.clone())));
    assert!(call.is_finished());

    let (call, _) = client.profile().create_access_token();
    let (call, _) = client.resume::<models::AccessToken>(call, Event::Head(200));
    let (call, _) = client.resume::<models::AccessToken>(call, Event::EndOfBody);
    let (call, action) = client.resume::<models::AccessToken>(
        call,
        Event::Token(Some(models::AccessToken::default())),
    );
    assert_eq!(action, Action::Finish(Err(out_of_turn.clone())));
    assert!(call.is_finished());
    assert_eq!(client.get_access_token(), None);

    let (call, _) = client.profile().get_account_information();
    let (call, action) = client.resume::<models::BasicInfo>(call, Event::Chunk(vec![1, 2, 3]));
    assert_eq!(action, Action::Finish(Err(Error::AuthUnavailable)));
    assert!(call.is_finished());
}

#[test]
fn finished_call_stays_finished() {
    let mut client = client();
    let mut script = Script::new(vec![answer(200, TOKEN_BODY)]);
    let (call, action) = client.profile().create_access_token();
    assert_eq!(call.operation(), &chatex_sdk::endpoint::Operation::CreateAccessToken);
    let (mut call, mut action) = (call, action);
    loop {
        let event = match action {
            Action::Send(_) => match script.replies.pop_front().unwrap() {
                Reply::Answer { status, .. } => Event::Head(status),
                Reply::Refused(why) => Event::TransportFailed(why.to_string()),
            },
            Action::Receive => Event::EndOfBody,
            Action::Decode(_, _) => Event::Model(Some(models::AccessToken::default())),
            Action::Finish(result) => {
                assert_eq!(result, Ok(models::AccessToken::default()));
                break;
            }
        };
        let next = client.resume(call, event);
        call = next.0;
        action = next.1;
    }
    assert!(call.is_finished());
    for event in [
        Event::Head(200),
        Event::EndOfBody,
        Event::Chunk(vec![0]),
        Event::BodyFailed,
        Event::TransportFailed("late".to_string()),
        Event::Model(Some(models::AccessToken::default())),
        Event::Model(None),
        Event::Token(None),
        Event::Payload(None),
    ] {
        let next = client.resume::<models::AccessToken>(call, event);
        assert_eq!(
            next.1,
            Action::Finish(Err(Error::Transport("unexpected event".to_string())))
        );
        assert!(next.0.is_finished());
        call = next.0;
    }
}
