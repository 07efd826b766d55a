use vstd::prelude::*;
use vstd::string::*;

use crate::error::{rejected_with, AppError};
use crate::text::{decimal_spec, text_eq, with_decimal};

verus! {

// ---------------------------------------------------------------- marketplace

/// Listings shown when a marketplace query gives no limit.
pub fn default_limit() -> (r: i64)
    ensures
        r == 20,
{
    20
}

/// Offset and size of a marketplace page: the size clamped to 1..=50, the offset not
/// below zero.
pub fn listing_page(offset: i64, limit: i64) -> (r: (i64, i64))
    ensures
        r.0 == if offset < 0 {
            0
        } else {
            offset
        },
        r.1 == if limit < 1 {
            1
        } else if limit > 50 {
            50
        } else {
            limit
        },
{
    (
        if offset < 0 {
            0
        } else {
            offset
        },
        if limit < 1 {
            1
        } else if limit > 50 {
            50
        } else {
            limit
        },
    )
}

/// Checks a listing price: positive.
pub fn check_listing_price(price_diamonds: i64) -> (r: Result<(), AppError>)
    ensures
        r is Ok <==> price_diamonds > 0,
        price_diamonds <= 0 ==> rejected_with(r, "preço deve ser positivo"@),
{
    if price_diamonds <= 0 {
        return Err(AppError::Validation(String::from_str("preço deve ser positivo")));
    }
    Ok(())
}

/// Active listings a seller may hold: 50 from VIP 5, otherwise 20.
pub fn max_active_listings(vip_level: i16) -> (r: i64)
    ensures
        r == if vip_level >= 5 {
            50i64
        } else {
            20i64
        },
{
    if vip_level >= 5 {
        50
    } else {
        20
    }
}

/// Checks that an item may be listed, in order: not bound, no trade lock in force, not
/// equipped, and a free listing slot.
pub fn check_listing(
    bound: bool,
    trade_locked: bool,
    equipped: bool,
    active_listings: i64,
    max_listings: i64,
) -> (r: Result<(), AppError>)
    ensures
        r is Ok <==> (!bound && !trade_locked && !equipped && active_listings < max_listings),
        bound ==> rejected_with(r, "item bound não pode ser vendido"@),
        !bound && trade_locked ==> rejected_with(r, "trade lock ativo 24h"@),
        !bound && !trade_locked && equipped ==> rejected_with(r, "desequipe antes de vender"@),
        !bound && !trade_locked && !equipped && active_listings >= max_listings ==> (r matches Err(
            AppError::Validation(m),
        ) && m@ == "limite de listagens ativas atingido ("@ + decimal_spec(max_listings as int)
            + ")"@),
{
    if bound {
        return Err(AppError::Validation(String::from_str("item bound não pode ser vendido")));
    }
    if trade_locked {
        return Err(AppError::Validation(String::from_str("trade lock ativo 24h")));
    }
    if equipped {
        return Err(AppError::Validation(String::from_str("desequipe antes de vender")));
    }
    if active_listings >= max_listings {
        let mut message = with_decimal("limite de listagens ativas atingido (", max_listings);
        message.append(")");
        return Err(AppError::Validation(message));
    }
    Ok(())
}

/// Fee burned on a sale: a tenth of the price, rounded toward zero.
pub open spec fn fee_spec(price: i64) -> int {
    if price >= 0 {
        price / 10
    } else {
        -((-price) / 10)
    }
}

/// Fee burned on a sale and the seller's share, which together make the price.
pub fn sale_split(price: i64) -> (r: (i64, i64))
    ensures
        r.0 == fee_spec(price),
        r.1 == price - fee_spec(price),
        r.0 + r.1 == price,
{
    let fee = price / 10;
    (fee, price - fee)
}

/// Checks a purchase: not one's own listing, then enough diamonds.
pub fn check_purchase(is_seller: bool, diamonds: i64, price: i64) -> (r: Result<(), AppError>)
    ensures
        r is Ok <==> (!is_seller && diamonds >= price),
        is_seller ==> rejected_with(r, "não pode comprar próprio item"@),
        !is_seller && diamonds < price ==> rejected_with(r, "diamantes insuficientes"@),
{
    if is_seller {
        return Err(AppError::Validation(String::from_str("não pode comprar próprio item")));
    }
    if diamonds < price {
        return Err(AppError::Validation(String::from_str("diamantes insuficientes")));
    }
    Ok(())
}

// ---------------------------------------------------------------- auctions

/// Checks an auction length: 6, 12, 24 or 48 hours.
pub fn check_auction_duration(hours: i64) -> (r: Result<(), AppError>)
    ensures
        r is Ok <==> (hours == 6 || hours == 12 || hours == 24 || hours == 48),
        !(hours == 6 || hours == 12 || hours == 24 || hours == 48) ==> rejected_with(r, "duração 6/12/24/48h"@),
{
    if !(hours == 6 || hours == 12 || hours == 24 || hours == 48) {
        return Err(AppError::Validation(String::from_str("duração 6/12/24/48h")));
    }
    Ok(())
}

/// Rarities that may be auctioned: legendary and above.
pub open spec fn auctionable_spec(rarity: Seq<char>) -> bool {
    rarity == "legendary"@ || rarity == "mythic"@ || rarity == "divine"@ || rarity
        == "primordial"@
}

/// Checks an auctioned item's rarity: primordial items go only to 48-hour auctions, and
/// only legendary and rarer items may be auctioned.
pub fn check_auction_item(rarity: &str, hours: i64) -> (r: Result<(), AppError>)
    ensures
        r is Ok <==> (auctionable_spec(rarity@) && (rarity@ == "primordial"@ ==> hours == 48)),
        rarity@ == "primordial"@ && hours != 48 ==> rejected_with(r, "Primordial exige leilão 48h"@),
        !auctionable_spec(rarity@) ==> rejected_with(r, "apenas Lendário+ pode ir a leilão"@),
{
    let primordial = text_eq(rarity, "primordial");
    if primordial && hours != 48 {
        return Err(AppError::Validation(String::from_str("Primordial exige leilão 48h")));
    }
    if !(text_eq(rarity, "legendary") || text_eq(rarity, "mythic") || text_eq(rarity, "divine")
        || primordial) {
        return Err(AppError::Validation(String::from_str("apenas Lendário+ pode ir a leilão")));
    }
    Ok(())
}

/// Checks a bid, in order: the auction is active, the bidder is not the seller, the
/// auction has not ended, and the bid beats the current price.
pub fn check_bid(active: bool, is_seller: bool, expired: bool, amount: i64, current: i64) -> (r:
    Result<(), AppError>)
    ensures
        r is Ok <==> (active && !is_seller && !expired && amount > current),
        !active ==> rejected_with(r, "leilão não ativo"@),
        active && is_seller ==> rejected_with(r, "não pode dar lance no próprio leilão"@),
        active && !is_seller && expired ==> rejected_with(r, "leilão expirado"@),
        active && !is_seller && !expired && amount <= current ==> (r matches Err(
            AppError::Validation(m),
        ) && m@ == "lance deve superar "@ + decimal_spec(current as int)),
{
    if !active {
        return Err(AppError::Validation(String::from_str("leilão não ativo")));
    }
    if is_seller {
        return Err(AppError::Validation(String::from_str("não pode dar lance no próprio leilão")));
    }
    if expired {
        return Err(AppError::Validation(String::from_str("leilão expirado")));
    }
    if amount <= current {
        return Err(AppError::Validation(with_decimal("lance deve superar ", current)));
    }
    Ok(())
}

/// Checks that a bidder's diamonds cover the bid.
pub fn check_bid_funds(diamonds: i64, amount: i64) -> (r: Result<(), AppError>)
    ensures
        r is Ok <==> diamonds >= amount,
        diamonds < amount ==> rejected_with(r, "diamantes insuficientes"@),
{
    if diamonds < amount {
        return Err(AppError::Validation(String::from_str("diamantes insuficientes")));
    }
    Ok(())
}

/// Minutes before the end under which a bid extends the auction.
pub const ANTI_SNIPE_MINUTES: i64 = 30;

/// Whether a bid placed `minutes_left` minutes before the end extends the auction to
/// thirty minutes from now.
pub fn anti_snipe_extends(minutes_left: i64) -> (r: bool)
    ensures
        r == (minutes_left < 30),
{
    minutes_left < ANTI_SNIPE_MINUTES
}

// ---------------------------------------------------------------- trades

/// Seconds a trade offer stays open.
pub const TRADE_EXPIRES_SECONDS: i64 = 60;

/// Checks a trade offer: not with oneself, and offering items or diamonds.
pub fn check_trade_offer(from: u128, to: u128, offers_items: bool, offer_diamonds: i64) -> (r:
    Result<(), AppError>)
    ensures
        r is Ok <==> (from != to && (offers_items || offer_diamonds != 0)),
        from == to ==> rejected_with(r, "não pode negociar consigo mesmo"@),
        from != to && !offers_items && offer_diamonds == 0 ==> rejected_with(r, "oferta vazia"@),
{
    if from == to {
        return Err(AppError::Validation(String::from_str("não pode negociar consigo mesmo")));
    }
    if !offers_items && offer_diamonds == 0 {
        return Err(AppError::Validation(String::from_str("oferta vazia")));
    }
    Ok(())
}

/// Checks that an offered item can be traded: owned by the offerer, and not bound.
pub fn check_offered_item(owned_by_offerer: bool, bound: bool) -> (r: Result<(), AppError>)
    ensures
        r is Ok <==> (owned_by_offerer && !bound),
        !owned_by_offerer ==> rejected_with(r, "item não pertence a você"@),
        owned_by_offerer && bound ==> rejected_with(r, "item bound não pode ser trocado"@),
{
    if !owned_by_offerer {
        return Err(AppError::Validation(String::from_str("item não pertence a você")));
    }
    if bound {
        return Err(AppError::Validation(String::from_str("item bound não pode ser trocado")));
    }
    Ok(())
}

/// What accepting a trade leads to.
#[derive(Clone, Copy, Debug, PartialEq, Eq, Structural)]
pub enum TradeDecision {
    /// The trade goes ahead.
    Proceed,
    /// The trade is no longer pending.
    NotPending,
    /// The trade expired; it is cancelled.
    Expired,
    /// Only the recipient may accept.
    NotRecipient,
}

/// Decides an acceptance, in order: the trade is pending, it has not expired (an
/// expired trade is cancelled), and the acceptor is the recipient.
pub fn decide_acceptance(pending: bool, expired: bool, acceptor: u128, recipient: u128) -> (r:
    TradeDecision)
    ensures
        r == if !pending {
            TradeDecision::NotPending
        } else if expired {
            TradeDecision::Expired
        } else if acceptor != recipient {
            TradeDecision::NotRecipient
        } else {
            TradeDecision::Proceed
        },
{
    if !pending {
        TradeDecision::NotPending
    } else if expired {
        TradeDecision::Expired
    } else if acceptor != recipient {
        TradeDecision::NotRecipient
    } else {
        TradeDecision::Proceed
    }
}

/// Error a refused acceptance is answered with; `None` when the trade goes ahead.
pub fn acceptance_error(decision: TradeDecision) -> (r: Option<AppError>)
    ensures
        decision == TradeDecision::Proceed <==> r is None,
        decision == TradeDecision::NotPending ==> (r matches Some(AppError::Validation(m)) && m@
            == "trade não pendente"@),
        decision == TradeDecision::Expired ==> (r matches Some(AppError::Validation(m)) && m@
            == "trade expirou (60s anti-scam)"@),
        decision == TradeDecision::NotRecipient ==> (r matches Some(e) && e is Unauthorized),
{
    match decision {
        TradeDecision::Proceed => None,
        TradeDecision::NotPending => Some(AppError::Validation(String::from_str("trade não pendente"))),
        TradeDecision::Expired => Some(
            AppError::Validation(String::from_str("trade expirou (60s anti-scam)")),
        ),
        TradeDecision::NotRecipient => Some(AppError::Unauthorized),
    }
}

/// Checks that both sides hold the diamonds they trade.
pub fn check_trade_funds(
    offerer_diamonds: i64,
    offered: i64,
    recipient_diamonds: i64,
    requested: i64,
) -> (r: Result<(), AppError>)
    ensures
        r is Ok <==> (offerer_diamonds >= offered && recipient_diamonds >= requested),
        offerer_diamonds < offered ==> rejected_with(r, "oferente sem diamantes"@),
        offerer_diamonds >= offered && recipient_diamonds < requested ==> rejected_with(r, "você sem diamantes"@),
{
    if offerer_diamonds < offered {
        return Err(AppError::Validation(String::from_str("oferente sem diamantes")));
    }
    if recipient_diamonds < requested {
        return Err(AppError::Validation(String::from_str("você sem diamantes")));
    }
    Ok(())
}

/// New owner of a traded item: the other side of the trade.
pub fn traded_item_owner(owner: u128, from: u128, to: u128) -> (r: u128)
    ensures
        r == if owner == from {
            to
        } else {
            from
        },
{
    if owner == from {
        to
    } else {
        from
    }
}

} // verus!
