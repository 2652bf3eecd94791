//! The attack damage a character deals.
//!
//! The damage is the strength of the character, its dexterity scaled by the
//! dexterity influence, and what the weapons in its two hands add: the amount
//! of each weapon's influence, scaled by the dexterity influence where the
//! weapon influences dexterity, and by one where it influences anything else.
//! Every scaling is a binary64 product cut down to a whole number.

use vstd::prelude::*;
use vstd::arithmetic::div_mod::{lemma_fundamental_div_mod, lemma_mod_multiples_basic};
use vstd::arithmetic::power2::{lemma2_to64, lemma2_to64_rest, pow2};

use crate::attributes::AttributeStore;
use crate::character::Attribute;
use crate::item::Item;
use crate::scaling::{
    lemma_nearest_binary64_of_significand, lemma_round_half_even_between, lemma_scaled_by_one,
    lemma_spacing_divides, nearest_binary64, scale, scaled, scaled_magnitude, spacing, Factor,
    SIGNIFICAND_LIMIT,
};
use crate::types::AttributeValue;

verus! {

/// The influence the `Attribute::Dexterity` has on the attack damage of the
/// character is the binary64 number nearest to one fifth:
/// `DEXTERITY_INFLUENCE_SIGNIFICAND / 2^DEXTERITY_INFLUENCE_SCALE_BITS`.
/// Five times the significand is `2^54 + 1`.
pub const DEXTERITY_INFLUENCE_SIGNIFICAND: u64 = 3602879701896397;

/// The binary logarithm of the denominator of the dexterity influence.
pub const DEXTERITY_INFLUENCE_SCALE_BITS: u32 = 54;

/// The magnitude below which the dexterity influence is a plain division by
/// five: three times `2^51`.
pub const FIFTH_LIMIT: i64 = 0x18_0000_0000_0000;

/// The factor by which an influence on `attribute` enters the attack damage:
/// the dexterity influence for `Attribute::Dexterity`, one for every other
/// attribute.
pub open spec fn influence_factor(attribute: Attribute) -> Factor {
    if attribute == Attribute::Dexterity {
        Factor {
            significand: DEXTERITY_INFLUENCE_SIGNIFICAND,
            scale_bits: DEXTERITY_INFLUENCE_SCALE_BITS,
        }
    } else {
        Factor { significand: 1, scale_bits: 0 }
    }
}

/// What the content of a weapon slot adds to the attack damage: the amount of
/// the item's influence, scaled by the factor of the attribute it influences.
/// An empty slot adds nothing, and neither does an item without influence.
pub open spec fn weapon_damage(slot: Option<Item>) -> int {
    match slot {
        Some(item) => match item.influence {
            Some(influence) => scaled(
                influence.amount as int,
                influence_factor(influence.attribute),
            ),
            None => 0,
        },
        None => 0,
    }
}

/// The attack damage of a character with the given attributes and weapons.
pub open spec fn attack_damage_of(
    attributes: Map<Attribute, AttributeValue>,
    weapon_left: Option<Item>,
    weapon_right: Option<Item>,
) -> int {
    attributes[Attribute::Strength] + scaled(
        attributes[Attribute::Dexterity] as int,
        influence_factor(Attribute::Dexterity),
    ) + weapon_damage(weapon_left) + weapon_damage(weapon_right)
}

/// `value / divisor`, rounded toward zero.
pub open spec fn quotient_toward_zero(value: int, divisor: int) -> int {
    if value >= 0 {
        value / divisor
    } else {
        -((-value) / divisor)
    }
}

/// The factor of `attribute`, ready to scale with.
fn factor_of(attribute: &Attribute) -> (factor: Factor)
    ensures
        factor == influence_factor(*attribute),
        factor.wf(),
{
    match attribute {
        Attribute::Dexterity => Factor {
            significand: DEXTERITY_INFLUENCE_SIGNIFICAND,
            scale_bits: DEXTERITY_INFLUENCE_SCALE_BITS,
        },
        _ => Factor { significand: 1, scale_bits: 0 },
    }
}

/// What the content of a weapon slot adds to the attack damage.
fn damage_of_weapon(slot: &Option<Item>) -> (damage: AttributeValue)
    ensures
        damage == weapon_damage(*slot),
{
    match slot {
        Some(item) => match &item.influence {
            Some(influence) => scale(influence.amount, factor_of(&influence.attribute)),
            None => 0,
        },
        None => 0,
    }
}

/// Calculates the attack damage from the attributes and the weapons in the
/// two hands. The sum is handed out in a type that is wide enough for it,
/// whatever the attributes and the weapons are.
pub fn calculate_attack_damage(
    attributes: &AttributeStore,
    weapon_left: &Option<Item>,
    weapon_right: &Option<Item>,
) -> (damage: i128)
    ensures
        damage == attack_damage_of(attributes@, *weapon_left, *weapon_right),
{
    let base_dexterity = scale(
        attributes.get(&Attribute::Dexterity),
        factor_of(&Attribute::Dexterity),
    );
    let base_strength = attributes.get(&Attribute::Strength);
    let additional_damage = damage_of_weapon(weapon_left) as i128 + damage_of_weapon(
        weapon_right,
    ) as i128;
    base_strength as i128 + base_dexterity as i128 + additional_damage
}

/// Below `FIFTH_LIMIT`, the whole part of the product of a magnitude and the
/// dexterity influence is the magnitude divided by five.
proof fn lemma_fifth_of_magnitude(magnitude: nat)
    requires
        magnitude < FIFTH_LIMIT,
    ensures
        scaled_magnitude(magnitude, influence_factor(Attribute::Dexterity)) == magnitude / 5,
{
    let fifth = DEXTERITY_INFLUENCE_SIGNIFICAND as nat;
    let whole: nat = 0x40_0000_0000_0000;
    let count = magnitude / 5;
    let rest = magnitude % 5;
    let product = magnitude * fifth;
    lemma2_to64();
    lemma2_to64_rest();
    assert(pow2(54) == whole && pow2(52) * 4 == whole);
    lemma_nearest_binary64_of_significand(magnitude);

    // Five times the influence is one more than `2^54`.
    assert(product == count * whole + count + rest * fifth) by (nonlinear_arith)
        requires
            product == magnitude * fifth,
            magnitude == 5 * count + rest,
            5 * fifth == whole + 1,
    ;
    assert(product < SIGNIFICAND_LIMIT * pow2(52)) by (nonlinear_arith)
        requires
            product == magnitude * fifth,
            magnitude < 0x18_0000_0000_0000,
            fifth < 0x10_0000_0000_0000,
            pow2(52) == 0x10_0000_0000_0000,
    ;

    // The spacing at the size of the product divides `2^52`, so the
    // multiples of `2^54` around the product are multiples of it.
    lemma_spacing_divides(product, 52);
    let unit = spacing(product);
    let units = pow2(52) / unit;
    lemma_fundamental_div_mod(pow2(52) as int, unit as int);
    assert(unit == pow2(52) || 2 * unit <= pow2(52)) by (nonlinear_arith)
        requires
            pow2(52) == unit * units,
            0 < unit <= pow2(52),
    ;
    let lower = count * whole;
    let upper = (count + 1) * whole;
    assert(lower == (count * 4 * units) * unit && upper == ((count + 1) * 4 * units) * unit)
        by (nonlinear_arith)
        requires
            lower == count * whole,
            upper == (count + 1) * whole,
            whole == 4 * (unit * units),
    ;
    lemma_mod_multiples_basic((count * 4 * units) as int, unit as int);
    lemma_mod_multiples_basic(((count + 1) * 4 * units) as int, unit as int);

    // The product lies more than half a unit below the upper multiple.
    assert(upper - product == whole - count - rest * fifth) by (nonlinear_arith)
        requires
            upper == (count + 1) * whole,
            product == count * whole + count + rest * fifth,
    ;
    assert(2 * (upper - product) > unit);
    lemma_round_half_even_between(product, unit, lower, upper);
    assert(nearest_binary64(product) / whole == count);
}

/// Scaling by the dexterity influence is a division by five, rounded toward
/// zero, for every value below `FIFTH_LIMIT` in magnitude. At `FIFTH_LIMIT`
/// itself the product lies halfway between two binary64 numbers, and the one
/// it is rounded to is the whole number above the fifth.
pub proof fn lemma_dexterity_influence_is_a_fifth(value: int)
    requires
        -FIFTH_LIMIT < value < FIFTH_LIMIT,
    ensures
        scaled(value, influence_factor(Attribute::Dexterity)) == quotient_toward_zero(value, 5),
{
    if value >= 0 {
        lemma_fifth_of_magnitude(value as nat);
    } else {
        lemma_fifth_of_magnitude((-value) as nat);
    }
}

/// Scaling by the influence of any attribute but dexterity leaves every
/// value up to `2^53` in magnitude as it is.
pub proof fn lemma_full_influence_is_the_amount(value: int, attribute: Attribute)
    requires
        attribute != Attribute::Dexterity,
        -SIGNIFICAND_LIMIT <= value <= SIGNIFICAND_LIMIT,
    ensures
        scaled(value, influence_factor(attribute)) == value,
{
    let magnitude = if value >= 0 {
        value as nat
    } else {
        (-value) as nat
    };
    lemma_scaled_by_one(magnitude);
    lemma_nearest_binary64_of_significand(magnitude);
}

/// A weapon whose influence is below `FIFTH_LIMIT` in magnitude adds a fifth
/// of the amount, rounded toward zero, where it influences dexterity, and the
/// whole amount where it influences anything else.
pub proof fn lemma_weapon_damage_below_the_limit(item: Item)
    requires
        item.influence is Some,
        -FIFTH_LIMIT < item.influence->0.amount < FIFTH_LIMIT,
    ensures
        weapon_damage(Some(item)) == if item.influence->0.attribute == Attribute::Dexterity {
            quotient_toward_zero(item.influence->0.amount as int, 5)
        } else {
            item.influence->0.amount as int
        },
{
    let influence = item.influence->0;
    if influence.attribute == Attribute::Dexterity {
        lemma_dexterity_influence_is_a_fifth(influence.amount as int);
    } else {
        lemma_full_influence_is_the_amount(influence.amount as int, influence.attribute);
    }
}

/// The attack damage is a sum over the two hands: it stays the same when the
/// weapons change hands.
pub proof fn lemma_attack_damage_ignores_the_hand(
    attributes: Map<Attribute, AttributeValue>,
    weapon_left: Option<Item>,
    weapon_right: Option<Item>,
)
    ensures
        attack_damage_of(attributes, weapon_left, weapon_right) == attack_damage_of(
            attributes,
            weapon_right,
            weapon_left,
        ),
{
}

/// The attack damage depends on no attribute but strength and dexterity.
pub proof fn lemma_attack_damage_ignores_other_attributes(
    attributes: Map<Attribute, AttributeValue>,
    weapon_left: Option<Item>,
    weapon_right: Option<Item>,
    attribute: Attribute,
    value: AttributeValue,
)
    requires
        attribute != Attribute::Strength,
        attribute != Attribute::Dexterity,
    ensures
        attack_damage_of(attributes.insert(attribute, value), weapon_left, weapon_right)
            == attack_damage_of(attributes, weapon_left, weapon_right),
{
}

/// With the attributes of a new character and nothing in its hands, the
/// attack damage is the strength and a fifth of the dexterity: 20 and 2.
pub proof fn lemma_attack_damage_of_default_attributes()
    ensures
        attack_damage_of(crate::attributes::default_attribute_values(), None, None) == 22,
{
    lemma_dexterity_influence_is_a_fifth(10);
}

} // verus!
