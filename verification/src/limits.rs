use vstd::prelude::*;
use vstd::string::*;

use crate::error::AppError;
use crate::text::{append_decimal, decimal_spec, text_eq};

verus! {

/// Requests a client address may make per minute.
pub const IP_REQUESTS_PER_MINUTE: i32 = 100;

/// Seconds a rate-limit counter lives.
pub const WINDOW_SECONDS: i32 = 60;

/// Requests per minute a user may make for an action.
pub open spec fn action_limit_spec(action: Seq<char>) -> i32 {
    if action == "combat"@ {
        30
    } else if action == "chat"@ {
        20
    } else if action == "trade"@ {
        10
    } else {
        60
    }
}

/// Requests per minute a user may make for an action: 30 fights, 20 chat messages,
/// 10 trades, 60 of anything else.
pub fn user_action_limit(action: &str) -> (r: i32)
    ensures
        r == action_limit_spec(action@),
{
    if text_eq(action, "combat") {
        30
    } else if text_eq(action, "chat") {
        20
    } else if text_eq(action, "trade") {
        10
    } else {
        60
    }
}

/// Whether requests from a client address are counted: an unknown (empty) address is
/// let through uncounted.
pub fn counts_address(ip: &str) -> (r: bool)
    ensures
        r == (ip@.len() > 0),
{
    ip.unicode_len() > 0
}

/// Whether a counter needs its expiry set: on the first request of a window.
pub fn starts_window(count: i32) -> (r: bool)
    ensures
        r == (count == 1),
{
    count == 1
}

/// Checks a client address's request count for the current minute.
pub fn check_ip_count(count: i32) -> (r: Result<(), AppError>)
    ensures
        r is Ok <==> count <= 100,
        r matches Err(e) ==> (e matches AppError::Validation(m) && m@
            == "rate limit por IP excedido (100/min)"@),
{
    if count > IP_REQUESTS_PER_MINUTE {
        return Err(AppError::Validation(String::from_str("rate limit por IP excedido (100/min)")));
    }
    Ok(())
}

/// Checks a user's request count for an action in the current minute.
pub fn check_user_count(action: &str, count: i32) -> (r: Result<(), AppError>)
    ensures
        r is Ok <==> count <= action_limit_spec(action@),
        r matches Err(e) ==> (e matches AppError::Validation(m) && m@ == "rate limit "@ + action@
            + " excedido ("@ + decimal_spec(action_limit_spec(action@) as int) + "/min)"@),
{
    let limit = user_action_limit(action);
    if count > limit {
        let mut message = String::from_str("rate limit ");
        message.append(action);
        message.append(" excedido (");
        append_decimal(&mut message, limit as i64);
        message.append("/min)");
        return Err(AppError::Validation(message));
    }
    Ok(())
}

} // verus!
