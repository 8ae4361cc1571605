use vstd::prelude::*;

use crate::json::{JsonNumber, JsonValue, json_field, json_u64, member_value};
use crate::solana_balance::SolanaBalance;
use crate::solana_wallet::SolanaPublicAddress;

verus! {

/// The JSON-RPC 2.0 request `getBalance` for `address`, with id 1:
/// `{"jsonrpc": "2.0", "id": 1, "method": "getBalance", "params": [address]}`.
pub open spec fn is_get_balance_request(request: JsonValue, address: Seq<char>) -> bool {
    &&& request matches JsonValue::Object(members)
    &&& members@.len() == 4
    &&& members@[0].0@ == "jsonrpc"@
    &&& members@[0].1 matches JsonValue::String(version) && version@ == "2.0"@
    &&& members@[1].0@ == "id"@
    &&& members@[1].1 matches JsonValue::Number(JsonNumber::Unsigned(id)) && id == 1
    &&& members@[2].0@ == "method"@
    &&& members@[2].1 matches JsonValue::String(method) && method@ == "getBalance"@
    &&& members@[3].0@ == "params"@
    &&& members@[3].1 matches JsonValue::Array(params) && (params@.len() == 1 && (
    params@[0] matches JsonValue::String(a) && a@ == address))
}

/// The lamports a `getBalance` response reports under `result.value`, when
/// that is a non-negative integer.
pub open spec fn reported_lamports(response: JsonValue) -> Option<u64> {
    match json_field(response, "result"@) {
        Some(result) => match json_field(result, "value"@) {
            Some(value) => json_u64(value),
            None => None,
        },
        None => None,
    }
}

pub fn build_get_balance_request(address: &SolanaPublicAddress) -> (request: JsonValue)
    ensures
        is_get_balance_request(request, address@),
{
    let mut params: Vec<JsonValue> = Vec::new();
    params.push(JsonValue::String(String::from_str(address.as_str())));
    let mut members: Vec<(String, JsonValue)> = Vec::new();
    members.push((String::from_str("jsonrpc"), JsonValue::String(String::from_str("2.0"))));
    members.push((String::from_str("id"), JsonValue::Number(JsonNumber::Unsigned(1))));
    members.push(
        (String::from_str("method"), JsonValue::String(String::from_str("getBalance"))),
    );
    members.push((String::from_str("params"), JsonValue::Array(params)));
    JsonValue::Object(members)
}

/// The balance in a `getBalance` response: `None` when `result.value` is
/// missing or not a non-negative integer, as in an error response.
pub fn parse_get_balance_response(response: &JsonValue) -> (balance: Option<SolanaBalance>)
    ensures
        match balance {
            Some(b) => reported_lamports(*response) == Some(b.spec_lamports()),
            None => reported_lamports(*response) is None,
        },
{
    let result = match response.get("result") {
        Some(r) => r,
        None => {
            return None;
        },
    };
    let value = match result.get("value") {
        Some(v) => v,
        None => {
            return None;
        },
    };
    match value.as_u64() {
        Some(lamports) => Some(SolanaBalance::new(lamports)),
        None => None,
    }
}

/// The balance a `getBalance` response reports is the unsigned integer under
/// `result.value`, exactly as it stands; a response without one reports none.
pub proof fn lemma_reported_lamports_is_result_value(response: JsonValue)
    ensures
        forall|result: JsonValue, n: u64|
            json_field(response, "result"@) == Some(result) && json_field(result, "value"@)
                == Some(JsonValue::Number(JsonNumber::Unsigned(n))) ==> reported_lamports(response)
                == Some(n),
        reported_lamports(response) is Some ==> exists|result: JsonValue, n: u64|
            json_field(response, "result"@) == Some(result) && json_field(result, "value"@)
                == Some(JsonValue::Number(JsonNumber::Unsigned(n))) && reported_lamports(response)
                == Some(n),
{
    if reported_lamports(response) is Some {
        let result = json_field(response, "result"@)->0;
        let n = reported_lamports(response)->0;
        assert(json_field(result, "value"@) == Some(JsonValue::Number(JsonNumber::Unsigned(n))));
    }
}

/// A `getBalance` request for an address, looked up by member name: its
/// `jsonrpc` is `"2.0"`, its `id` is 1, its `method` is `"getBalance"`, and its
/// `params` hold one element, the address as a string.
pub proof fn lemma_get_balance_request_fields(request: JsonValue, address: Seq<char>)
    requires
        is_get_balance_request(request, address),
    ensures
        json_field(request, "jsonrpc"@) matches Some(JsonValue::String(v)) && v@ == "2.0"@,
        json_field(request, "id"@) == Some(JsonValue::Number(JsonNumber::Unsigned(1))),
        json_field(request, "method"@) matches Some(JsonValue::String(m)) && m@ == "getBalance"@,
        json_field(request, "params"@) matches Some(JsonValue::Array(params)) && params@.len() == 1,
        json_field(request, "params"@) matches Some(JsonValue::Array(params)) && params@.len() > 0
            && (params@[0] matches JsonValue::String(a) && a@ == address),
{
    reveal_strlit("jsonrpc");
    reveal_strlit("id");
    reveal_strlit("method");
    reveal_strlit("params");
    let members = request->Object_0@;
    let rest1 = members.drop_first();
    let rest2 = rest1.drop_first();
    let rest3 = rest2.drop_first();
    assert(rest1[0] == members[1] && rest2[0] == members[2] && rest3[0] == members[3]);
    assert(members.len() == 4 && members[0].0@ == "jsonrpc"@ && members[1].0@ == "id"@);
    assert(members[0].0@.len() != "id"@.len() && members[0].0@.len() != "method"@.len());
    assert(member_value(members, "id"@) == member_value(rest1, "id"@));
    assert(member_value(members, "method"@) == member_value(rest1, "method"@));
    assert(member_value(rest1, "method"@) == member_value(rest2, "method"@));
    assert(member_value(members, "params"@) == member_value(rest1, "params"@));
    assert(member_value(rest1, "params"@) == member_value(rest2, "params"@));
    assert(rest2[0].0@ == "method"@ && rest2[0].0@[0] != "params"@[0]);
    assert(member_value(rest2, "params"@) == member_value(rest3, "params"@));
}

} // verus!
