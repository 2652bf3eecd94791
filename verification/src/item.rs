//! Items a character can carry and equip.

use vstd::prelude::*;

use crate::character::Attribute;
use crate::types::AttributeValue;

verus! {

/// The category of an item. Each armor slot of a character takes exactly one
/// of the armor categories; the weapon slots take any category.
#[derive(Clone, Copy, Debug, PartialEq, Eq, Hash, Structural)]
pub enum ItemType {
    /// Armor worn on the head
    ArmorHead,
    /// Armor worn on the chest
    ArmorChest,
    /// Armor worn on the legs
    ArmorLegs,
    /// Armor worn on the feet
    ArmorFeet,
    /// A hammer
    WeaponHammer,
    /// A sword
    WeaponSword,
}

/// The effect an equipped item has on one attribute of its bearer.
#[derive(Clone, Copy, Debug, PartialEq, Eq, Structural)]
pub struct ItemInfluence {
    /// The attribute that is influenced
    pub attribute: Attribute,
    /// The magnitude of the influence
    pub amount: AttributeValue,
}

impl ItemInfluence {
    /// An influence of `amount` on `attribute`.
    pub fn new(attribute: Attribute, amount: AttributeValue) -> (influence: ItemInfluence)
        ensures
            influence == (ItemInfluence { attribute, amount }),
    {
        ItemInfluence { attribute, amount }
    }
}

/// An item: a category and, optionally, an influence on its bearer.
#[derive(Clone, Debug, PartialEq, Eq)]
pub struct Item {
    /// The category of the item
    pub item_type: ItemType,
    /// The influence the item has while it is equipped, if any
    pub influence: Option<ItemInfluence>,
}

impl Item {
    /// An item of category `item_type` that carries `influence`.
    pub fn new(item_type: ItemType, influence: Option<ItemInfluence>) -> (item: Item)
        ensures
            item == (Item { item_type, influence }),
    {
        Item { item_type, influence }
    }
}

} // verus!
