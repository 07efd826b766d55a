use vstd::prelude::*;

verus! {

/// Longest offline time paid to a regular player: twelve hours.
pub const STANDARD_CAP_SECONDS: i64 = 43_200;

/// Longest offline time paid to a VIP player: twenty-four hours.
pub const VIP_CAP_SECONDS: i64 = 86_400;

/// Offline time cap for a VIP level: any VIP level gets the longer cap.
pub fn offline_cap(vip_level: i16) -> (r: i64)
    ensures
        r == if vip_level > 0 {
            86_400i64
        } else {
            43_200i64
        },
{
    if vip_level > 0 {
        VIP_CAP_SECONDS
    } else {
        STANDARD_CAP_SECONDS
    }
}

/// Seconds paid for an offline period: the elapsed time clamped to `0..=cap`.
pub fn clamp_elapsed(elapsed_seconds: i64, cap: i64) -> (r: i64)
    requires
        cap >= 0,
    ensures
        r == if elapsed_seconds < 0 {
            0
        } else if elapsed_seconds > cap {
            cap
        } else {
            elapsed_seconds
        },
{
    if elapsed_seconds < 0 {
        0
    } else if elapsed_seconds > cap {
        cap
    } else {
        elapsed_seconds
    }
}

/// `num / den` rounded down, saturating at `i64::MAX`.
pub open spec fn floor_div_capped(num: int, den: int) -> int {
    if num / den > i64::MAX {
        i64::MAX as int
    } else {
        num / den
    }
}

/// Gold and experience for an offline period: half of the stage's hourly production
/// (10 + 2 * stage gold and 5 + stage experience per hour), rounded down; nothing
/// before the first stage or for no time.
pub open spec fn rewards_spec(stage: int, elapsed_seconds: int) -> (int, int) {
    if stage <= 0 || elapsed_seconds <= 0 {
        (0, 0)
    } else {
        (
            floor_div_capped((10 + 2 * stage) * elapsed_seconds, 7200),
            floor_div_capped((5 + stage) * elapsed_seconds, 7200),
        )
    }
}

/// Gold and experience for an offline period at a stage.
pub fn rewards(stage: i16, elapsed_seconds: i64) -> (r: (i64, i64))
    ensures
        (r.0 as int, r.1 as int) == rewards_spec(stage as int, elapsed_seconds as int),
{
    if stage <= 0 || elapsed_seconds <= 0 {
        return (0, 0);
    }
    let s = stage as i128;
    let e = elapsed_seconds as i128;
    assert(0 < (10 + 2 * s) * e <= 70_000 * 9_223_372_036_854_775_807) by (nonlinear_arith)
        requires
            0 < s <= 32767,
            0 < e <= 9_223_372_036_854_775_807,
    ;
    assert(0 < (5 + s) * e <= 70_000 * 9_223_372_036_854_775_807) by (nonlinear_arith)
        requires
            0 < s <= 32767,
            0 < e <= 9_223_372_036_854_775_807,
    ;
    let gold = (10 + 2 * s) * e / 7200;
    let experience = (5 + s) * e / 7200;
    let max = i64::MAX as i128;
    (
        if gold > max {
            i64::MAX
        } else {
            gold as i64
        },
        if experience > max {
            i64::MAX
        } else {
            experience as i64
        },
    )
}

/// More offline time never pays less, and a whole number of hours pays exactly half of
/// the stage's production for those hours (rounded down).
pub proof fn lemma_offline_rewards(stage: int, low: int, high: int, hours: int)
    requires
        0 < stage <= i16::MAX,
        0 <= low <= high <= i64::MAX,
        0 < hours <= 24,
    ensures
        rewards_spec(stage, low).0 <= rewards_spec(stage, high).0,
        rewards_spec(stage, low).1 <= rewards_spec(stage, high).1,
        rewards_spec(stage, 3600 * hours) == ((10 + 2 * stage) * hours / 2, (5 + stage) * hours
            / 2),
{
    if low > 0 {
        assert((10 + 2 * stage) * low / 7200 <= (10 + 2 * stage) * high / 7200) by (
        nonlinear_arith)
            requires
                0 < stage,
                0 < low <= high,
        ;
        assert((5 + stage) * low / 7200 <= (5 + stage) * high / 7200) by (nonlinear_arith)
            requires
                0 < stage,
                0 < low <= high,
        ;
    } else {
        assert(0 <= (10 + 2 * stage) * high / 7200 && 0 <= (5 + stage) * high / 7200) by (
        nonlinear_arith)
            requires
                0 < stage,
                0 <= high,
        ;
    }
    assert((10 + 2 * stage) * (3600 * hours) / 7200 == (10 + 2 * stage) * hours / 2) by (
    nonlinear_arith)
        requires
            0 < stage,
            0 < hours,
    ;
    assert((5 + stage) * (3600 * hours) / 7200 == (5 + stage) * hours / 2) by (nonlinear_arith)
        requires
            0 < stage,
            0 < hours,
    ;
    assert((10 + 2 * stage) * hours / 2 <= i64::MAX && (5 + stage) * hours / 2 <= i64::MAX) by (
    nonlinear_arith)
        requires
            0 < stage <= 32767,
            0 < hours <= 24,
    ;
}

/// Receipt of an offline reward claim: the seconds paid and the gold and experience.
#[derive(Clone, Copy, Debug, PartialEq, Eq, Structural)]
pub struct OfflineReceipt {
    pub elapsed_seconds: i32,
    pub gold: i64,
    pub experience: i64,
}

/// Receipt a claim is answered with, and whether it replays an earlier claim: a claim
/// whose idempotency key was already used gets that claim's receipt again; a new claim
/// is paid for the elapsed time clamped to the VIP level's cap, at the highest stage
/// cleared.
pub open spec fn claim_spec(
    existing: Option<OfflineReceipt>,
    vip_level: i16,
    elapsed_seconds: i64,
    stage: i16,
) -> (OfflineReceipt, bool) {
    match existing {
        Some(receipt) => (receipt, true),
        None => {
            let cap: int = if vip_level > 0 {
                86_400
            } else {
                43_200
            };
            let paid: int = if elapsed_seconds < 0 {
                0
            } else if elapsed_seconds > cap {
                cap
            } else {
                elapsed_seconds as int
            };
            let (gold, experience) = rewards_spec(stage as int, paid);
            (
                OfflineReceipt {
                    elapsed_seconds: paid as i32,
                    gold: gold as i64,
                    experience: experience as i64,
                },
                false,
            )
        },
    }
}

/// Answers an offline reward claim; `existing` is the receipt stored under the claim's
/// idempotency key, if any.
pub fn claim(existing: Option<OfflineReceipt>, vip_level: i16, elapsed_seconds: i64, stage: i16) -> (r: (
    OfflineReceipt,
    bool,
))
    ensures
        r == claim_spec(existing, vip_level, elapsed_seconds, stage),
        existing matches Some(receipt) ==> r == (receipt, true),
        existing is None ==> 0 <= r.0.elapsed_seconds <= 86_400 && !r.1,
{
    match existing {
        Some(receipt) => (receipt, true),
        None => {
            let cap = offline_cap(vip_level);
            let paid = clamp_elapsed(elapsed_seconds, cap);
            let (gold, experience) = rewards(stage, paid);
            (OfflineReceipt { elapsed_seconds: paid as i32, gold, experience }, false)
        },
    }
}

/// Claims are idempotent: the receipt of a first claim, stored under its key, is what a
/// retry under that key is answered with, whatever the VIP level, time or stage by then.
pub proof fn lemma_claim_idempotent(
    vip_level: i16,
    elapsed_first: i64,
    stage: i16,
    vip_later: i16,
    elapsed_later: i64,
    stage_later: i16,
)
    ensures
        ({
            let first = claim_spec(None, vip_level, elapsed_first, stage);
            &&& !first.1
            &&& claim_spec(Some(first.0), vip_later, elapsed_later, stage_later) == (first.0, true)
        }),
{
}

} // verus!
