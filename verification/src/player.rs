use vstd::prelude::*;
use vstd::string::*;

use crate::error::{rejected_with, AppError};
use crate::text::{decimal_spec, text_eq, with_decimal};

pub use crate::auth::Gender;

verus! {

/// Class of a recruitable soldier.
#[derive(Clone, Copy, Debug, PartialEq, Eq, Structural)]
pub enum SoldierClass {
    Warrior,
    Archer,
}

/// Subclasses a soldier class may take.
pub open spec fn subclass_of(class: SoldierClass, value: Seq<char>) -> bool {
    match class {
        SoldierClass::Warrior => value == "guardian"@ || value == "berserker"@ || value
            == "paladin"@,
        SoldierClass::Archer => value == "marksman"@ || value == "crossbowman"@ || value
            == "ranger"@,
    }
}

/// Leader level at which a class can be recruited.
pub open spec fn unlock_level_spec(class: SoldierClass) -> i16 {
    match class {
        SoldierClass::Warrior => 5,
        SoldierClass::Archer => 15,
    }
}

impl SoldierClass {
    /// Stored name of the class.
    pub fn as_str(&self) -> (r: &'static str)
        ensures
            r@ == match *self {
                SoldierClass::Warrior => "warrior"@,
                SoldierClass::Archer => "archer"@,
            },
    {
        match self {
            SoldierClass::Warrior => "warrior",
            SoldierClass::Archer => "archer",
        }
    }

    /// Leader level at which the class can be recruited.
    pub fn unlock_level(&self) -> (r: i16)
        ensures
            r == unlock_level_spec(*self),
    {
        match self {
            SoldierClass::Warrior => 5,
            SoldierClass::Archer => 15,
        }
    }

    /// Whether `value` is a subclass of this class.
    pub fn valid_subclass(&self, value: &str) -> (r: bool)
        ensures
            r == subclass_of(*self, value@),
    {
        match self {
            SoldierClass::Warrior => text_eq(value, "guardian") || text_eq(value, "berserker")
                || text_eq(value, "paladin"),
            SoldierClass::Archer => text_eq(value, "marksman") || text_eq(value, "crossbowman")
                || text_eq(value, "ranger"),
        }
    }
}

/// Leader level at which a squad slot opens.
pub open spec fn slot_unlock_spec(slot: i16) -> i16 {
    if slot == 1 {
        1
    } else if slot == 2 {
        5
    } else if slot == 3 {
        15
    } else if slot == 4 {
        35
    } else if slot == 5 {
        55
    } else if slot == 6 {
        80
    } else {
        i16::MAX
    }
}

/// Leader level at which a squad slot opens.
pub fn slot_unlock_level(slot: i16) -> (r: i16)
    ensures
        r == slot_unlock_spec(slot),
{
    if slot == 1 {
        1
    } else if slot == 2 {
        5
    } else if slot == 3 {
        15
    } else if slot == 4 {
        35
    } else if slot == 5 {
        55
    } else if slot == 6 {
        80
    } else {
        i16::MAX
    }
}

/// Whether a new soldier may be recruited: a name of 3 to 24 characters, a subclass
/// of the class, and a leader who reached the class's unlock level.
pub open spec fn recruit_allowed(
    name: Seq<char>,
    class: SoldierClass,
    subclass: Seq<char>,
    leader_level: i16,
) -> bool {
    &&& 3 <= name.len() <= 24
    &&& subclass_of(class, subclass)
    &&& leader_level >= unlock_level_spec(class)
}

/// Checks a recruitment, in the order the rules are applied: name length, subclass,
/// then the leader's level.
pub fn check_recruit(name: &str, class: SoldierClass, subclass: &str, leader_level: i16) -> (r:
    Result<(), AppError>)
    ensures
        r is Ok <==> recruit_allowed(name@, class, subclass@, leader_level),
        !(3 <= name@.len() <= 24) ==> rejected_with(r, "name: tamanho inválido"@),
        3 <= name@.len() <= 24 && !subclass_of(class, subclass@) ==> rejected_with(r, "subclasse incompatível com a classe"@),
        (3 <= name@.len() <= 24 && subclass_of(class, subclass@) && leader_level
            < unlock_level_spec(class)) ==> (r matches Err(AppError::Validation(m)) && m@
            == "classe desbloqueia no level "@ + decimal_spec(unlock_level_spec(class) as int)),
{
    let n = name.unicode_len();
    if n < 3 || n > 24 {
        return Err(AppError::Validation(String::from_str("name: tamanho inválido")));
    }
    if !class.valid_subclass(subclass) {
        return Err(AppError::Validation(String::from_str("subclasse incompatível com a classe")));
    }
    let unlock = class.unlock_level();
    if leader_level < unlock {
        return Err(AppError::Validation(with_decimal("classe desbloqueia no level ", unlock as i64)));
    }
    Ok(())
}

/// Who a squad slot should hold after a change.
#[derive(Clone, Copy, Debug, PartialEq, Eq, Structural)]
pub enum SlotTarget {
    /// Empty the slot.
    Empty,
    /// Put a character there; whether it is the leader matters.
    Character { is_leader: bool },
}

/// Checks that a squad slot number is 1 to 6.
pub fn check_slot_number(slot: i16) -> (r: Result<(), AppError>)
    ensures
        r is Ok <==> 1 <= slot <= 6,
        !(1 <= slot <= 6) ==> rejected_with(r, "slot deve estar entre 1 e 6"@),
{
    if !(1 <= slot && slot <= 6) {
        return Err(AppError::Validation(String::from_str("slot deve estar entre 1 e 6")));
    }
    Ok(())
}

/// Whether a squad change is allowed: the slot is open at the leader's level, the
/// leader's slot (slot 1) is never emptied, and slot 1 holds the leader and only it.
pub open spec fn slot_change_allowed(slot: i16, leader_level: i16, target: SlotTarget) -> bool {
    &&& leader_level >= slot_unlock_spec(slot)
    &&& match target {
        SlotTarget::Empty => slot != 1,
        SlotTarget::Character { is_leader } => (slot == 1) == is_leader,
    }
}

/// Checks a squad change.
pub fn check_slot_change(slot: i16, leader_level: i16, target: SlotTarget) -> (r: Result<
    (),
    AppError,
>)
    ensures
        r is Ok <==> slot_change_allowed(slot, leader_level, target),
        leader_level < slot_unlock_spec(slot) ==> rejected_with(
            r,
            "slot "@ + decimal_spec(slot as int) + " desbloqueia no level "@ + decimal_spec(
                slot_unlock_spec(slot) as int,
            ),
        ),
        leader_level >= slot_unlock_spec(slot) && target == SlotTarget::Empty && slot == 1
            ==> rejected_with(r, "o Líder não pode ser removido"@),
        leader_level >= slot_unlock_spec(slot) && (target matches SlotTarget::Character {
            is_leader,
        } && (slot == 1) != is_leader) ==> rejected_with(r, "slot 1 é exclusivo do Líder"@),
{
    let required = slot_unlock_level(slot);
    if leader_level < required {
        let mut message = with_decimal("slot ", slot as i64);
        message.append(" desbloqueia no level ");
        crate::text::append_decimal(&mut message, required as i64);
        return Err(AppError::Validation(message));
    }
    match target {
        SlotTarget::Empty => {
            if slot == 1 {
                return Err(AppError::Validation(String::from_str("o Líder não pode ser removido")));
            }
        },
        SlotTarget::Character { is_leader } => {
            if (slot == 1) != is_leader {
                return Err(AppError::Validation(String::from_str("slot 1 é exclusivo do Líder")));
            }
        },
    }
    Ok(())
}

/// Arrangement of the squad.
#[derive(Clone, Copy, Debug, PartialEq, Eq, Structural)]
pub enum Formation {
    Balanced,
    Vanguard,
    Assault,
}

/// The formation a stored name denotes.
pub open spec fn formation_spec(name: Seq<char>) -> Option<Formation> {
    if name == "balanced"@ {
        Some(Formation::Balanced)
    } else if name == "vanguard"@ {
        Some(Formation::Vanguard)
    } else if name == "assault"@ {
        Some(Formation::Assault)
    } else {
        None
    }
}

impl Formation {
    /// The formation a stored name denotes.
    pub fn parse(name: &str) -> (r: Option<Formation>)
        ensures
            r == formation_spec(name@),
    {
        if text_eq(name, "balanced") {
            Some(Formation::Balanced)
        } else if text_eq(name, "vanguard") {
            Some(Formation::Vanguard)
        } else if text_eq(name, "assault") {
            Some(Formation::Assault)
        } else {
            None
        }
    }
}

/// Checks a requested formation name.
pub fn check_formation(name: &str) -> (r: Result<Formation, AppError>)
    ensures
        r is Ok <==> formation_spec(name@) is Some,
        r matches Ok(f) ==> formation_spec(name@) == Some(f),
        formation_spec(name@) is None ==> rejected_with(r, "formação inválida"@),
{
    match Formation::parse(name) {
        Some(f) => Ok(f),
        None => Err(AppError::Validation(String::from_str("formação inválida"))),
    }
}

} // verus!
