use vstd::prelude::*;

use crate::decimal::{decimal, decimal_string};
use crate::error::{state_kind, state_not_found, ContractError, StdError};
use crate::msg::{
    AssetMsg, AssetQuery, Attribute, CountResponse, ExecuteMsg, FungibleTokenResponse,
    InfoResponse, InstantiateMsg, QueryMsg, Reply, ReplyOn, Response, SubMsg,
};
use crate::state::{can_count_reply, issue_next, reply_next, State};

verus! {

pub open spec fn attr_is(a: Attribute, key: Seq<char>, value: Seq<char>) -> bool {
    a.key@ == key && a.value@ == value
}

/// `m` asks the asset module to issue a token with these fields, with a reply
/// callback whatever its outcome.
pub open spec fn is_issue_submsg(
    m: SubMsg,
    symbol: Seq<char>,
    subunit: Seq<char>,
    precision: u32,
    amount: u128,
) -> bool {
    &&& m.id == 0
    &&& m.reply_on == ReplyOn::Always
    &&& match m.msg {
        AssetMsg::AssetFTMsgIssue { symbol: s, subunit: u, precision: p, initial_amount: a } => {
            s@ == symbol && u@ == subunit && p == precision && a == amount
        },
    }
}

/// The response to a successful issue: three attributes, and two submessages
/// whose symbol and subunit carry the suffixes "1" and "2".
pub open spec fn is_issue_response(
    r: Response,
    symbol: Seq<char>,
    subunit: Seq<char>,
    precision: u32,
    amount: u128,
) -> bool {
    &&& r.attributes@.len() == 3
    &&& attr_is(r.attributes@[0], "method"@, "issue_token"@)
    &&& attr_is(r.attributes@[1], "symbol"@, symbol)
    &&& attr_is(r.attributes@[2], "amount"@, decimal(amount as nat))
    &&& r.messages@.len() == 2
    &&& is_issue_submsg(
        r.messages@[0],
        symbol + seq!['1'],
        subunit + seq!['1'],
        precision,
        amount,
    )
    &&& is_issue_submsg(
        r.messages@[1],
        symbol + seq!['2'],
        subunit + seq!['2'],
        precision,
        amount,
    )
}

/// `e` reports that no state is stored.
pub open spec fn is_state_not_found(e: StdError) -> bool {
    e matches StdError::NotFound { kind } && kind@ == state_kind()
}

/// What a count query answers on the stored state `s`.
pub open spec fn is_count_answer(s: Option<State>, r: Result<CountResponse, StdError>) -> bool {
    match s {
        Some(st) => r == Ok::<CountResponse, StdError>(CountResponse { count: st.count }),
        None => r matches Err(e) && is_state_not_found(e),
    }
}

/// What `query` leaves to do: answer at once, or ask the asset module and
/// hand its answer to `query_info`.
#[derive(Debug, PartialEq, Eq)]
pub enum QueryStep {
    Count(Result<CountResponse, StdError>),
    AskAsset(AssetQuery),
}

/// Starts the contract. It writes no state and reports who created it.
pub fn instantiate(sender: String, msg: InstantiateMsg) -> (r: Response)
    ensures
        r.attributes@.len() == 2,
        attr_is(r.attributes@[0], "method"@, "instantiate"@),
        attr_is(r.attributes@[1], "owner"@, sender@),
        r.messages@.len() == 0,
{
    Response::new().add_attribute("method", String::from_str("instantiate")).add_attribute(
        "owner",
        sender,
    )
}

/// Runs a user's call on the stored state.
pub fn execute(state: &mut Option<State>, msg: ExecuteMsg) -> (r: Result<Response, ContractError>)
    ensures
        match msg {
            ExecuteMsg::Issue { symbol, subunit, precision, amount } => {
                &&& *final(state) == issue_next(*old(state), amount)
                &&& r is Err <==> amount == 0
                &&& r is Err ==> r->Err_0 is InvalidZeroAmount
                &&& r is Ok ==> is_issue_response(
                    r->Ok_0,
                    symbol@,
                    subunit@,
                    precision,
                    amount,
                )
            },
        },
{
    match msg {
        ExecuteMsg::Issue { symbol, subunit, precision, amount } => issue_tokens(
            state,
            symbol,
            subunit,
            precision,
            amount,
        ),
    }
}

fn issue_submsg(symbol: &String, subunit: &String, suffix: &str, precision: u32, amount: u128) -> (r: SubMsg)
    ensures
        is_issue_submsg(r, symbol@ + suffix@, subunit@ + suffix@, precision, amount),
{
    SubMsg {
        id: 0,
        msg: AssetMsg::AssetFTMsgIssue {
            symbol: symbol.clone().concat(suffix),
            subunit: subunit.clone().concat(suffix),
            precision,
            initial_amount: amount,
        },
        reply_on: ReplyOn::Always,
    }
}

fn issue_tokens(
    state: &mut Option<State>,
    symbol: String,
    subunit: String,
    precision: u32,
    amount: u128,
) -> (r: Result<Response, ContractError>)
    ensures
        *final(state) == issue_next(*old(state), amount),
        r is Err <==> amount == 0,
        r is Err ==> r matches Err(ContractError::InvalidZeroAmount {  }),
        r matches Ok(resp) ==> is_issue_response(resp, symbol@, subunit@, precision, amount),
{
    if amount == 0 {
        return Err(ContractError::InvalidZeroAmount {  });
    }
    *state = Some(State::new());

    proof {
        reveal_strlit("1");
        reveal_strlit("2");
    }
    let msg1 = issue_submsg(&symbol, &subunit, "1", precision, amount);
    let msg2 = issue_submsg(&symbol, &subunit, "2", precision, amount);

    let res = Response::new().add_attribute("method", String::from_str("issue_token")).add_attribute(
        "symbol",
        symbol,
    ).add_attribute("amount", decimal_string(amount)).add_submessage(msg1).add_submessage(msg2);
    proof {
        let a = res.attributes@;
        assert(a.drop_last().drop_last().drop_last().len() == 0);
        assert(a[0] == a.drop_last().drop_last().last());
        assert(a[1] == a.drop_last().last());
        let m = res.messages@;
        assert(m.drop_last().drop_last().len() == 0);
        assert(m[0] == m.drop_last().last());
        assert("1"@ =~= seq!['1']);
        assert("2"@ =~= seq!['2']);
    }
    Ok(res)
}

/// Counts one reply callback. The content of the callback is not read.
pub fn reply(state: &mut Option<State>, msg: Reply) -> (r: Result<Response, ContractError>)
    requires
        can_count_reply(*old(state)),
    ensures
        *final(state) == reply_next(*old(state)),
        r is Err <==> old(state).is_none(),
        r matches Err(e) ==> e matches ContractError::Std(se) && is_state_not_found(se),
        r matches Ok(resp) ==> resp.attributes@.len() == 0 && resp.messages@.len() == 0,
{
    match state {
        Some(st) => {
            st.count = st.count + 1;
            Ok(Response::new())
        },
        None => Err(ContractError::Std(state_not_found())),
    }
}

/// Answers a query: the count from the stored state, or, for a token's
/// issuer, the query to put to the asset module.
pub fn query(state: &Option<State>, msg: QueryMsg) -> (r: QueryStep)
    ensures
        match msg {
            QueryMsg::GetCount {  } => r matches QueryStep::Count(res) && is_count_answer(
                *state,
                res,
            ),
            QueryMsg::GetInfo { denom } => r matches QueryStep::AskAsset(
                AssetQuery::AssetFTGetToken { denom: d },
            ) && d@ == denom@,
        },
{
    match msg {
        QueryMsg::GetCount {  } => QueryStep::Count(query_count(state)),
        QueryMsg::GetInfo { denom } => QueryStep::AskAsset(info_request(denom)),
    }
}

fn query_count(state: &Option<State>) -> (r: Result<CountResponse, StdError>)
    ensures
        is_count_answer(*state, r),
{
    match state {
        Some(st) => Ok(CountResponse { count: st.count }),
        None => Err(state_not_found()),
    }
}

fn info_request(denom: String) -> (r: AssetQuery)
    ensures
        r == (AssetQuery::AssetFTGetToken { denom }),
{
    AssetQuery::AssetFTGetToken { denom }
}

/// Turns the asset module's answer into the contract's: the issuer on
/// success, and the module's own error, unchanged, on failure.
pub fn query_info<E>(answer: Result<FungibleTokenResponse, E>) -> (r: Result<InfoResponse, E>)
    ensures
        match answer {
            Ok(t) => r == Ok::<InfoResponse, E>(InfoResponse { issuer: t.issuer }),
            Err(e) => r == Err::<InfoResponse, E>(e),
        },
{
    match answer {
        Ok(t) => Ok(InfoResponse { issuer: t.issuer }),
        Err(e) => Err(e),
    }
}

} // verus!
