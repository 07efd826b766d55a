use vstd::prelude::*;
use vstd::string::*;

use crate::error::{rejected_with, AppError};
use crate::text::{text_eq, trim, trim_spec};

verus! {

/// Most members a guild holds.
pub const GUILD_CAPACITY: i16 = 50;

/// Leader level needed to found a guild.
pub const GUILD_REQUIRED_LEVEL: i16 = 20;

/// Gold a guild costs to found.
pub const GUILD_COST: i64 = 1000;

/// Checks a guild name and gives it trimmed: 3 to 40 bytes once trimmed.
pub fn check_guild_name(name: &str) -> (r: Result<&str, AppError>)
    ensures
        r is Ok <==> {
            let t = trim_spec(name@);
            &&& 3 <= vstd::utf8::encode_utf8(t).len() as usize
            &&& vstd::utf8::encode_utf8(t).len() as usize <= 40
        },
        r matches Ok(t) ==> t@ == trim_spec(name@),
        !(3 <= vstd::utf8::encode_utf8(trim_spec(name@)).len() as usize <= 40) ==> rejected_with(r, "nome da guilda deve ter 3-40 caracteres"@),
{
    let trimmed = trim(name);
    let bytes = trimmed.len();
    if bytes < 3 || bytes > 40 {
        return Err(AppError::Validation(String::from_str("nome da guilda deve ter 3-40 caracteres")));
    }
    Ok(trimmed)
}

/// Checks the founder of a guild: leader level 20, then 1000 gold.
pub fn check_guild_founder(level: i16, gold: i64) -> (r: Result<(), AppError>)
    ensures
        r is Ok <==> (level >= 20 && gold >= 1000),
        level < 20 ==> rejected_with(r, "level 20 necessário para criar guilda"@),
        level >= 20 && gold < 1000 ==> rejected_with(r, "1000 Gold necessários"@),
{
    if level < GUILD_REQUIRED_LEVEL {
        return Err(AppError::Validation(String::from_str("level 20 necessário para criar guilda")));
    }
    if gold < GUILD_COST {
        return Err(AppError::Validation(String::from_str("1000 Gold necessários")));
    }
    Ok(())
}

/// Checks that a player has not already joined (a guild, a tournament): a conflict with
/// the given message otherwise.
pub fn check_not_joined(already: bool, message: &str) -> (r: Result<(), AppError>)
    ensures
        r is Ok <==> !already,
        r matches Err(e) ==> (e matches AppError::Conflict(m) && m@ == message@),
{
    if already {
        return Err(AppError::Conflict(String::from_str(message)));
    }
    Ok(())
}

/// Checks that a guild has room for another member.
pub fn check_guild_capacity(member_count: i16) -> (r: Result<(), AppError>)
    ensures
        r is Ok <==> member_count < 50,
        member_count >= 50 ==> rejected_with(r, "guilda cheia (50)"@),
{
    if member_count >= GUILD_CAPACITY {
        return Err(AppError::Validation(String::from_str("guilda cheia (50)")));
    }
    Ok(())
}

/// Checks that a player may leave their guild: they are in one (`role` is their role
/// there), and they are not its leader.
pub fn check_can_leave(role: Option<&str>) -> (r: Result<(), AppError>)
    ensures
        r is Ok <==> (role matches Some(x) && x@ != "leader"@),
        role is None ==> rejected_with(r, "você não está em guilda"@),
        role matches Some(x) && x@ == "leader"@ ==> rejected_with(
            r,
            "líder não pode sair; transfira liderança ou delete"@,
        ),
{
    match role {
        None => Err(AppError::Validation(String::from_str("você não está em guilda"))),
        Some(x) => {
            if text_eq(x, "leader") {
                return Err(
                    AppError::Validation(
                        String::from_str("líder não pode sair; transfira liderança ou delete"),
                    ),
                );
            }
            Ok(())
        },
    }
}

/// Member count of a guild after a member leaves: one less, never below one.
pub fn members_after_leave(member_count: i16) -> (r: i16)
    ensures
        r == if member_count - 1 > 1 {
            member_count - 1
        } else {
            1
        },
{
    if member_count > 2 {
        member_count - 1
    } else {
        1
    }
}

/// Guild roles that may declare war.
pub open spec fn may_declare_war(role: Seq<char>) -> bool {
    role == "leader"@ || role == "vice"@ || role == "officer"@
}

/// Checks a war declaration: a leader, vice or officer, against another guild.
pub fn check_war_challenge(role: &str, own_guild: u128, target_guild: u128) -> (r: Result<
    (),
    AppError,
>)
    ensures
        r is Ok <==> (may_declare_war(role@) && own_guild != target_guild),
        !may_declare_war(role@) ==> rejected_with(r, "apenas Líder/Vice/Oficial pode desafiar"@),
        may_declare_war(role@) && own_guild == target_guild ==> rejected_with(r, "não pode desafiar própria guilda"@),
{
    if !(text_eq(role, "leader") || text_eq(role, "vice") || text_eq(role, "officer")) {
        return Err(
            AppError::Validation(String::from_str("apenas Líder/Vice/Oficial pode desafiar")),
        );
    }
    if own_guild == target_guild {
        return Err(AppError::Validation(String::from_str("não pode desafiar própria guilda")));
    }
    Ok(())
}

/// Players a tournament bracket holds.
pub const TOURNAMENT_SIZE: i64 = 32;

/// Checks that a tournament bracket has room.
pub fn check_tournament_capacity(participants: i64) -> (r: Result<(), AppError>)
    ensures
        r is Ok <==> participants < 32,
        participants >= 32 ==> rejected_with(r, "bracket cheio 32"@),
{
    if participants >= TOURNAMENT_SIZE {
        return Err(AppError::Validation(String::from_str("bracket cheio 32")));
    }
    Ok(())
}

} // verus!
