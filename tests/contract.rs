use issue_fungible_token::contract::{execute, instantiate, query, query_info, reply, QueryStep};
use issue_fungible_token::decimal::decimal_string;
use issue_fungible_token::error::{ContractError, StdError};
use issue_fungible_token::msg::{
    AssetMsg, AssetQuery, Attribute, CountResponse, ExecuteMsg, FungibleTokenResponse,
    InfoResponse, InstantiateMsg, QueryMsg, Reply, ReplyOn, SubMsg,
};
use issue_fungible_token::state::State;

fn issue(symbol: &str, subunit: &str, precision: u32, amount: u128) -> ExecuteMsg {
    ExecuteMsg::Issue {
        symbol: symbol.to_string(),
        subunit: subunit.to_string(),
        precision,
        amount,
    }
}

fn ack() -> Reply {
    Reply { id: 0, succeeded: true }
}

fn count_of(state: &Option<State>) -> Result<CountResponse, StdError> {
    match query(state, QueryMsg::GetCount {}) {
        QueryStep::Count(r) => r,
        QueryStep::AskAsset(_) => panic!("count query asked the asset module"),
    }
}

fn attr(key: &str, value: &str) -> Attribute {
    Attribute { key: key.to_string(), value: value.to_string() }
}

#[test]
fn instantiate_reports_method_and_owner() {
    let r = instantiate("creator".to_string(), InstantiateMsg {});
    assert_eq!(r.attributes, vec![attr("method", "instantiate"), attr("owner", "creator")]);
    assert!(r.messages.is_empty());
}

#[test]
fn issue_then_two_replies_counts_two() {
    for amount in [1u128, 1000, u128::MAX] {
        let mut state: Option<State> = None;
        assert!(execute(&mut state, issue("TKN", "utkn", 3, amount)).is_ok());
        assert!(reply(&mut state, ack()).is_ok());
        assert!(reply(&mut state, Reply { id: 0, succeeded: false }).is_ok());
        assert_eq!(count_of(&state), Ok(CountResponse { count: 2 }));
    }
}

#[test]
fn zero_amount_is_refused_without_state() {
    let mut state: Option<State> = None;
    let r = execute(&mut state, issue("ABC", "abc", 6, 0));
    assert!(matches!(r, Err(ContractError::InvalidZeroAmount {})));
    assert_eq!(state, None);
}

#[test]
fn zero_amount_is_refused_and_keeps_state() {
    let mut state: Option<State> = Some(State { count: 5 });
    let r = execute(&mut state, issue("ABC", "abc", 6, 0));
    assert!(matches!(r, Err(ContractError::InvalidZeroAmount {})));
    assert_eq!(state, Some(State { count: 5 }));
}

#[test]
fn count_before_issue_is_not_found() {
    let state: Option<State> = None;
    assert_eq!(count_of(&state), Err(StdError::NotFound { kind: "State".to_string() }));
}

#[test]
fn reply_before_issue_is_not_found() {
    let mut state: Option<State> = None;
    let r = reply(&mut state, ack());
    assert!(matches!(
        r,
        Err(ContractError::Std(StdError::NotFound { ref kind })) if kind == "State"
    ));
    assert_eq!(state, None);
}

#[test]
fn reissue_resets_count() {
    let mut state: Option<State> = None;
    execute(&mut state, issue("ABC", "abc", 6, 1000)).unwrap();
    for _ in 0..7 {
        reply(&mut state, ack()).unwrap();
    }
    assert_eq!(count_of(&state), Ok(CountResponse { count: 7 }));
    execute(&mut state, issue("XYZ", "xyz", 2, 5)).unwrap();
    assert_eq!(state, Some(State { count: 0 }));
    assert_eq!(count_of(&state), Ok(CountResponse { count: 0 }));
}

#[test]
fn replies_beyond_two_keep_counting() {
    let mut state: Option<State> = None;
    execute(&mut state, issue("ABC", "abc", 6, 1000)).unwrap();
    for _ in 0..5 {
        reply(&mut state, ack()).unwrap();
    }
    assert_eq!(count_of(&state), Ok(CountResponse { count: 5 }));
}

#[test]
fn reply_counts_up_to_the_largest_count() {
    let mut state: Option<State> = Some(State { count: i32::MAX - 1 });
    reply(&mut state, ack()).unwrap();
    assert_eq!(state, Some(State { count: i32::MAX }));
}

#[test]
fn info_query_asks_the_asset_module() {
    let state: Option<State> = None;
    let step = query(&state, QueryMsg::GetInfo { denom: "abc1-core1xyz".to_string() });
    assert_eq!(
        step,
        QueryStep::AskAsset(AssetQuery::AssetFTGetToken { denom: "abc1-core1xyz".to_string() })
    );
}

#[test]
fn info_query_returns_the_issuer() {
    let answer: Result<FungibleTokenResponse, String> =
        Ok(FungibleTokenResponse { issuer: "core1issuer".to_string() });
    assert_eq!(query_info(answer), Ok(InfoResponse { issuer: "core1issuer".to_string() }));
}

#[test]
fn info_query_passes_module_error_through() {
    let answer: Result<FungibleTokenResponse, String> =
        Err("token not found: unknown denom".to_string());
    assert_eq!(query_info(answer), Err("token not found: unknown denom".to_string()));
}

#[test]
fn issue_abc_scenario() {
    let mut state: Option<State> = Some(State { count: 9 });
    let r = execute(&mut state, issue("ABC", "abc", 6, 1000)).unwrap();
    assert_eq!(state, Some(State { count: 0 }));
    assert_eq!(
        r.attributes,
        vec![attr("method", "issue_token"), attr("symbol", "ABC"), attr("amount", "1000")]
    );
    let expected = |symbol: &str, subunit: &str| SubMsg {
        id: 0,
        msg: AssetMsg::AssetFTMsgIssue {
            symbol: symbol.to_string(),
            subunit: subunit.to_string(),
            precision: 6,
            initial_amount: 1000,
        },
        reply_on: ReplyOn::Always,
    };
    assert_eq!(r.messages, vec![expected("ABC1", "abc1"), expected("ABC2", "abc2")]);
}

#[test]
fn decimal_string_writes_amounts() {
    assert_eq!(decimal_string(0), "0");
    assert_eq!(decimal_string(7), "7");
    assert_eq!(decimal_string(10), "10");
    assert_eq!(decimal_string(1000), "1000");
    assert_eq!(decimal_string(u128::MAX), u128::MAX.to_string());
}
