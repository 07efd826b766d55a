use vstd::prelude::*;
use vstd::string::*;

use crate::error::{conflict_with, rejected_with, AppError};
use crate::text::{
    contains_control, has_control, is_control_spec, lemma_trim_idempotent, trim, trim_spec,
};

verus! {

/// Longest chat message or report reason, in characters.
pub const MAX_MESSAGE_CHARS: usize = 280;

/// Seconds a player waits between two chat messages.
pub const RATE_LIMIT_SECONDS: usize = 3;

/// Number of global messages kept in the hot cache.
pub const GLOBAL_HISTORY_LIMIT: isize = 100;

/// Most friends a player may have.
pub const MAX_FRIENDS: i64 = 100;

/// Messages shown when a history query gives no limit.
pub fn default_limit() -> (r: i64)
    ensures
        r == 50,
{
    50
}

/// Number of global messages returned for a requested limit, clamped to 1..=100.
pub fn history_limit(requested: i64) -> (r: i64)
    ensures
        r == if requested < 1 {
            1
        } else if requested > 100 {
            100
        } else {
            requested
        },
{
    if requested < 1 {
        1
    } else if requested > 100 {
        100
    } else {
        requested
    }
}

/// Whether a text is accepted as a chat message: it holds no control character
/// anywhere (a trailing line break included), and once trimmed it is not empty and has
/// at most 280 characters.
pub open spec fn message_acceptable(value: Seq<char>) -> bool {
    let text = trim_spec(value);
    text.len() > 0 && text.len() <= 280 && !has_control(value)
}

/// Trims a chat message and rejects it when it holds a control character, or when
/// once trimmed it is empty or longer than 280 characters.
pub fn sanitize(value: &str) -> (r: Result<String, AppError>)
    ensures
        r is Ok <==> message_acceptable(value@),
        r matches Ok(text) ==> text@ == trim_spec(value@),
        r matches Err(e) ==> (e matches AppError::Validation(m) && m@ == "mensagem inválida"@),
{
    let text = trim(value);
    let count = text.unicode_len();
    if count == 0 || count > 280 || contains_control(value) {
        return Err(AppError::Validation(String::from_str("mensagem inválida")));
    }
    Ok(text.to_owned())
}

/// Sanitizing is idempotent: the text of an accepted message is itself accepted, and
/// sanitizing it again gives it back unchanged.
pub proof fn lemma_sanitize_idempotent(value: Seq<char>)
    requires
        message_acceptable(value),
    ensures
        message_acceptable(trim_spec(value)),
        trim_spec(trim_spec(value)) == trim_spec(value),
{
    lemma_trim_idempotent(value);
    let t = trim_spec(value);
    let (a, b) = choose|a: int, b: int|
        0 <= a <= b <= value.len() && t == #[trigger] value.subrange(a, b);
    assert forall|i: int| 0 <= i < t.len() implies !is_control_spec(#[trigger] t[i]) by {
        assert(t[i] == value[a + i]);
    }
}

/// Whether the raw text has between `min` and `max` characters.
pub fn length_within(value: &str, min: usize, max: usize) -> (r: bool)
    ensures
        r == (min <= value@.len() <= max),
{
    let n = value.unicode_len();
    min <= n && n <= max
}

/// Checks the raw content of a chat message: 1 to 280 characters.
pub fn check_message_length(content: &str) -> (r: Result<(), AppError>)
    ensures
        r is Ok <==> 1 <= content@.len() <= 280,
        !(1 <= content@.len() <= 280) ==> rejected_with(r, "content: tamanho inválido"@),
{
    if !length_within(content, 1, 280) {
        return Err(AppError::Validation(String::from_str("content: tamanho inválido")));
    }
    Ok(())
}

/// Checks the raw reason of a report: 3 to 280 characters.
pub fn check_report_reason(reason: &str) -> (r: Result<(), AppError>)
    ensures
        r is Ok <==> 3 <= reason@.len() <= 280,
        !(3 <= reason@.len() <= 280) ==> rejected_with(r, "reason: tamanho inválido"@),
{
    if !length_within(reason, 3, 280) {
        return Err(AppError::Validation(String::from_str("reason: tamanho inválido")));
    }
    Ok(())
}

/// A player may not whisper to, block or befriend themselves; ids are compared as
/// 128-bit values.
pub fn check_not_self(actor: u128, other: u128, message: &str) -> (r: Result<(), AppError>)
    ensures
        r is Ok <==> actor != other,
        r matches Err(e) ==> (e matches AppError::Validation(m) && m@ == message@),
{
    if actor == other {
        return Err(AppError::Validation(String::from_str(message)));
    }
    Ok(())
}

/// Checks a friend request: not already friends, no pending request, and fewer than
/// 100 friends. Whether the target exists is checked between the second and third rule.
pub fn check_friend_request(already_friends: bool, request_pending: bool) -> (r: Result<
    (),
    AppError,
>)
    ensures
        r is Ok <==> (!already_friends && !request_pending),
        already_friends ==> conflict_with(r, "já são amigos"@),
        !already_friends && request_pending ==> conflict_with(r, "pedido já enviado"@),
{
    if already_friends {
        return Err(AppError::Conflict(String::from_str("já são amigos")));
    }
    if request_pending {
        return Err(AppError::Conflict(String::from_str("pedido já enviado")));
    }
    Ok(())
}

/// Checks that the acting player is the one entitled to act (the recipient of a friend
/// request, the seller of a listing); anyone else is unauthorized.
pub fn check_actor_is(entitled: u128, actor: u128) -> (r: Result<(), AppError>)
    ensures
        r is Ok <==> entitled == actor,
        r matches Err(e) ==> e is Unauthorized,
{
    if entitled != actor {
        return Err(AppError::Unauthorized);
    }
    Ok(())
}

/// Checks that a player has room for another friend.
pub fn check_friend_capacity(friend_count: i64) -> (r: Result<(), AppError>)
    ensures
        r is Ok <==> friend_count < 100,
        friend_count >= 100 ==> rejected_with(r, "limite 100 amigos"@),
{
    if friend_count >= 100 {
        return Err(AppError::Validation(String::from_str("limite 100 amigos")));
    }
    Ok(())
}

} // verus!
