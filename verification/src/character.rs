//! The character the player is impersonating.

use vstd::prelude::*;

use crate::attributes::{default_attribute_values, AttributeStore};
use crate::damage::{
    attack_damage_of, calculate_attack_damage, lemma_attack_damage_of_default_attributes,
};
use crate::inventory::{Inventory, InventoryView};
use crate::item::{Item, ItemType};
use crate::types::{AttributeValue, Health};

verus! {

/// The number of slots of a new character's inventory.
pub const INVENTORY_SLOTS: usize = 30;

/// A list of all possible attributes
#[derive(Clone, Copy, Debug, PartialEq, Eq, Hash, Structural)]
pub enum Attribute {
    /// The charisma of a character
    Charisma,
    /// The constitution of a character
    Constitution,
    /// The defense of a character
    Defense,
    /// The dexterity of a character
    Dexterity,
    /// The intelligence of a character
    Intelligence,
    /// The luck of a character
    Luck,
    /// The perception of a character
    Perception,
    /// The strength of a character
    Strength,
    /// The willpower of a character
    Willpower,
    /// The wisdom of a character
    Wisdom,
}

/// Why an item was not equipped.
#[derive(Clone, Copy, Debug, PartialEq, Eq, Structural)]
pub enum EquipError {
    /// The category of the item is not the one the armor slot takes.
    SlotTypeMismatch {
        /// The category the slot takes
        expected: ItemType,
        /// The category of the item
        found: ItemType,
    },
}

/// What `item` does to an armor slot that takes items of category
/// `slot_type`: an item of another category is refused, anything else is
/// accepted.
pub open spec fn armor_assignment(item: Option<Item>, slot_type: ItemType) -> Result<
    (),
    EquipError,
> {
    match item {
        Some(piece) => if piece.item_type == slot_type {
            Ok(())
        } else {
            Err(EquipError::SlotTypeMismatch { expected: slot_type, found: piece.item_type })
        },
        None => Ok(()),
    }
}

/// The character the player is impersonating
pub struct Character {
    name: String,
    health: Health,
    attributes: AttributeStore,
    armor_slot_head: Option<Item>,
    armor_slot_chest: Option<Item>,
    armor_slot_legs: Option<Item>,
    armor_slot_feet: Option<Item>,
    weapon_slot_left: Option<Item>,
    weapon_slot_right: Option<Item>,
    inventory: Inventory,
}

/// What a character is, mathematically.
pub struct CharacterView {
    /// The name of the character
    pub name: Seq<char>,
    /// The health of the character
    pub health: Health,
    /// The value of every attribute
    pub attributes: Map<Attribute, AttributeValue>,
    /// The armor worn on the head
    pub armor_slot_head: Option<Item>,
    /// The armor worn on the chest
    pub armor_slot_chest: Option<Item>,
    /// The armor worn on the legs
    pub armor_slot_legs: Option<Item>,
    /// The armor worn on the feet
    pub armor_slot_feet: Option<Item>,
    /// The weapon in the left hand
    pub weapon_slot_left: Option<Item>,
    /// The weapon in the right hand
    pub weapon_slot_right: Option<Item>,
    /// The inventory of the character
    pub inventory: InventoryView,
}

impl CharacterView {
    /// The character as `Character::new` makes it.
    pub open spec fn new(name: Seq<char>) -> CharacterView {
        CharacterView {
            name,
            health: default_attribute_values()[Attribute::Constitution] as Health,
            attributes: default_attribute_values(),
            armor_slot_head: None,
            armor_slot_chest: None,
            armor_slot_legs: None,
            armor_slot_feet: None,
            weapon_slot_left: None,
            weapon_slot_right: None,
            inventory: InventoryView { capacity: INVENTORY_SLOTS as nat, items: Seq::empty() },
        }
    }

    /// Every attribute has a value.
    pub open spec fn wf(self) -> bool {
        forall|attribute: Attribute| self.attributes.contains_key(attribute)
    }

    /// The character after `attribute` got the value `value`.
    pub open spec fn update_attribute(
        self,
        attribute: Attribute,
        value: AttributeValue,
    ) -> CharacterView {
        CharacterView { attributes: self.attributes.insert(attribute, value), ..self }
    }

    /// The value of `attribute`.
    pub open spec fn attribute_value(self, attribute: Attribute) -> AttributeValue {
        self.attributes[attribute]
    }

    /// The character with `item` as the content of the head armor slot.
    pub open spec fn with_armor_slot_head(self, item: Option<Item>) -> CharacterView {
        CharacterView { armor_slot_head: item, ..self }
    }

    /// The character with `item` as the content of the chest armor slot.
    pub open spec fn with_armor_slot_chest(self, item: Option<Item>) -> CharacterView {
        CharacterView { armor_slot_chest: item, ..self }
    }

    /// The character with `item` as the content of the legs armor slot.
    pub open spec fn with_armor_slot_legs(self, item: Option<Item>) -> CharacterView {
        CharacterView { armor_slot_legs: item, ..self }
    }

    /// The character with `item` as the content of the feet armor slot.
    pub open spec fn with_armor_slot_feet(self, item: Option<Item>) -> CharacterView {
        CharacterView { armor_slot_feet: item, ..self }
    }

    /// The character with `item` as the content of the left weapon slot.
    pub open spec fn with_weapon_slot_left(self, item: Option<Item>) -> CharacterView {
        CharacterView { weapon_slot_left: item, ..self }
    }

    /// The character with `item` as the content of the right weapon slot.
    pub open spec fn with_weapon_slot_right(self, item: Option<Item>) -> CharacterView {
        CharacterView { weapon_slot_right: item, ..self }
    }

    /// The attack damage of the character: that of its attributes and of the
    /// weapons in its two hands.
    pub open spec fn attack_damage(self) -> int {
        attack_damage_of(self.attributes, self.weapon_slot_left, self.weapon_slot_right)
    }
}

impl View for Character {
    type V = CharacterView;

    closed spec fn view(&self) -> CharacterView {
        CharacterView {
            name: self.name@,
            health: self.health,
            attributes: self.attributes@,
            armor_slot_head: self.armor_slot_head,
            armor_slot_chest: self.armor_slot_chest,
            armor_slot_legs: self.armor_slot_legs,
            armor_slot_feet: self.armor_slot_feet,
            weapon_slot_left: self.weapon_slot_left,
            weapon_slot_right: self.weapon_slot_right,
            inventory: self.inventory@,
        }
    }
}

/// Whether an armor slot that takes `slot_type` takes `item`.
fn check_armor(item: &Option<Item>, slot_type: ItemType) -> (result: Result<(), EquipError>)
    ensures
        result == armor_assignment(*item, slot_type),
{
    match item {
        Some(piece) => if piece.item_type == slot_type {
            Ok(())
        } else {
            Err(EquipError::SlotTypeMismatch { expected: slot_type, found: piece.item_type })
        },
        None => Ok(()),
    }
}

impl Character {
    /// Constructs a new `Character`.
    ///
    /// By default, the character has an attribute set given by
    /// `Character::default_attributes()`, and its health is its constitution.
    /// Its slots are empty, and its inventory has `INVENTORY_SLOTS` slots.
    pub fn new(name: &str) -> (character: Character)
        ensures
            character@ == CharacterView::new(name@),
            character@.wf(),
    {
        let attributes = Self::default_attributes();
        Character {
            name: name.to_owned(),
            health: attributes.get(&Attribute::Constitution) as Health,
            attributes,
            armor_slot_head: None,
            armor_slot_chest: None,
            armor_slot_legs: None,
            armor_slot_feet: None,
            weapon_slot_left: None,
            weapon_slot_right: None,
            inventory: Inventory::new(INVENTORY_SLOTS),
        }
    }

    /// Updates the given attribute
    pub fn update_attribute(&mut self, attribute: &Attribute, value: AttributeValue)
        ensures
            final(self)@ == old(self)@.update_attribute(*attribute, value),
            final(self)@.attribute_value(*attribute) == value,
            final(self)@.wf(),
    {
        self.attributes.set(attribute, value);
    }

    /// Calculates and returns the current attack damage of the character
    /// based on the attributes and the weapons in its hands. The damage has to
    /// be an `AttributeValue`; where that is not known of a character,
    /// `checked_attack_damage` finds out.
    pub fn attack_damage(&self) -> (damage: AttributeValue)
        requires
            AttributeValue::MIN <= self@.attack_damage() <= AttributeValue::MAX,
        ensures
            damage == self@.attack_damage(),
    {
        calculate_attack_damage(
            &self.attributes,
            &self.weapon_slot_left,
            &self.weapon_slot_right,
        ) as AttributeValue
    }

    /// The attack damage of the character, or `None` where it is no
    /// `AttributeValue`.
    pub fn checked_attack_damage(&self) -> (damage: Option<AttributeValue>)
        ensures
            damage == if AttributeValue::MIN <= self@.attack_damage() <= AttributeValue::MAX {
                Some(self@.attack_damage() as AttributeValue)
            } else {
                None
            },
    {
        let total = calculate_attack_damage(
            &self.attributes,
            &self.weapon_slot_left,
            &self.weapon_slot_right,
        );
        if AttributeValue::MIN as i128 <= total && total <= AttributeValue::MAX as i128 {
            Some(total as AttributeValue)
        } else {
            None
        }
    }

    /// Returns the value of the specified attribute
    pub fn get_attribute_value(&self, attribute: &Attribute) -> (value: AttributeValue)
        ensures
            value == self@.attribute_value(*attribute),
    {
        self.attributes.get(attribute)
    }

    /// A setter method for the head armor slot. An item that is not of type
    /// `ItemType::ArmorHead` is refused, and the character stays as it is.
    pub fn set_armor_slot_head(&mut self, item: Option<Item>) -> (result: Result<(), EquipError>)
        ensures
            result == armor_assignment(item, ItemType::ArmorHead),
            final(self)@ == if result is Ok {
                old(self)@.with_armor_slot_head(item)
            } else {
                old(self)@
            },
    {
        check_armor(&item, ItemType::ArmorHead)?;
        self.armor_slot_head = item;
        Ok(())
    }

    /// A setter method for the chest armor slot. An item that is not of type
    /// `ItemType::ArmorChest` is refused, and the character stays as it is.
    pub fn set_armor_slot_chest(&mut self, item: Option<Item>) -> (result: Result<
        (),
        EquipError,
    >)
        ensures
            result == armor_assignment(item, ItemType::ArmorChest),
            final(self)@ == if result is Ok {
                old(self)@.with_armor_slot_chest(item)
            } else {
                old(self)@
            },
    {
        check_armor(&item, ItemType::ArmorChest)?;
        self.armor_slot_chest = item;
        Ok(())
    }

    /// A setter method for the legs armor slot. An item that is not of type
    /// `ItemType::ArmorLegs` is refused, and the character stays as it is.
    pub fn set_armor_slot_legs(&mut self, item: Option<Item>) -> (result: Result<(), EquipError>)
        ensures
            result == armor_assignment(item, ItemType::ArmorLegs),
            final(self)@ == if result is Ok {
                old(self)@.with_armor_slot_legs(item)
            } else {
                old(self)@
            },
    {
        check_armor(&item, ItemType::ArmorLegs)?;
        self.armor_slot_legs = item;
        Ok(())
    }

    /// A setter method for the feet armor slot. An item that is not of type
    /// `ItemType::ArmorFeet` is refused, and the character stays as it is.
    pub fn set_armor_slot_feet(&mut self, item: Option<Item>) -> (result: Result<(), EquipError>)
        ensures
            result == armor_assignment(item, ItemType::ArmorFeet),
            final(self)@ == if result is Ok {
                old(self)@.with_armor_slot_feet(item)
            } else {
                old(self)@
            },
    {
        check_armor(&item, ItemType::ArmorFeet)?;
        self.armor_slot_feet = item;
        Ok(())
    }

    /// A setter method for the right weapon slot, which takes items of every
    /// type
    pub fn set_weapon_slot_right(&mut self, item: Option<Item>)
        ensures
            final(self)@ == old(self)@.with_weapon_slot_right(item),
    {
        self.weapon_slot_right = item;
    }

    /// A setter method for the left weapon slot, which takes items of every
    /// type
    pub fn set_weapon_slot_left(&mut self, item: Option<Item>)
        ensures
            final(self)@ == old(self)@.with_weapon_slot_left(item),
    {
        self.weapon_slot_left = item;
    }

    /// Returns the default attributes for a character
    pub fn default_attributes() -> (attributes: AttributeStore)
        ensures
            attributes@ == default_attribute_values(),
    {
        AttributeStore::defaults()
    }

    /// The name of the character
    pub fn name(&self) -> (name: &str)
        ensures
            name@ == self@.name,
    {
        self.name.as_str()
    }

    /// The health of the character
    pub fn health(&self) -> (health: Health)
        ensures
            health == self@.health,
    {
        self.health
    }

    /// The item in the head armor slot
    pub fn armor_slot_head(&self) -> (item: &Option<Item>)
        ensures
            *item == self@.armor_slot_head,
    {
        &self.armor_slot_head
    }

    /// The item in the chest armor slot
    pub fn armor_slot_chest(&self) -> (item: &Option<Item>)
        ensures
            *item == self@.armor_slot_chest,
    {
        &self.armor_slot_chest
    }

    /// The item in the legs armor slot
    pub fn armor_slot_legs(&self) -> (item: &Option<Item>)
        ensures
            *item == self@.armor_slot_legs,
    {
        &self.armor_slot_legs
    }

    /// The item in the feet armor slot
    pub fn armor_slot_feet(&self) -> (item: &Option<Item>)
        ensures
            *item == self@.armor_slot_feet,
    {
        &self.armor_slot_feet
    }

    /// The item in the left weapon slot
    pub fn weapon_slot_left(&self) -> (item: &Option<Item>)
        ensures
            *item == self@.weapon_slot_left,
    {
        &self.weapon_slot_left
    }

    /// The item in the right weapon slot
    pub fn weapon_slot_right(&self) -> (item: &Option<Item>)
        ensures
            *item == self@.weapon_slot_right,
    {
        &self.weapon_slot_right
    }

    /// The inventory of the character
    pub fn inventory(&self) -> (inventory: &Inventory)
        ensures
            inventory@ == self@.inventory,
    {
        &self.inventory
    }

    /// A character has a value for every attribute, whatever was done to it.
    pub proof fn lemma_holds_every_attribute(&self)
        ensures
            self@.wf(),
    {
    }
}

/// Reading an attribute after an update gives the value that was written.
/// Every other attribute keeps its value, and so do the health, which stays
/// what it was when the character was made, and everything else.
pub proof fn lemma_update_then_get(
    character: CharacterView,
    attribute: Attribute,
    value: AttributeValue,
    other: Attribute,
)
    ensures
        character.update_attribute(attribute, value).attribute_value(attribute) == value,
        other != attribute ==> character.update_attribute(attribute, value).attribute_value(other)
            == character.attribute_value(other),
        character.wf() ==> character.update_attribute(attribute, value).wf(),
        character.update_attribute(attribute, value) == (CharacterView {
            attributes: character.update_attribute(attribute, value).attributes,
            ..character
        }),
{
}

/// An armor slot refuses an item exactly if the item is of another type than
/// the slot takes, and says which types met. Taking an item out is never
/// refused.
pub proof fn lemma_armor_slot_takes_its_type_only(item: Option<Item>, slot_type: ItemType)
    ensures
        armor_assignment(item, slot_type) is Err <==> item is Some && item->0.item_type
            != slot_type,
        armor_assignment(item, slot_type) is Err ==> armor_assignment(item, slot_type) == Err::<
            (),
            EquipError,
        >(EquipError::SlotTypeMismatch { expected: slot_type, found: item->0.item_type }),
        armor_assignment(None, slot_type) is Ok,
{
}

/// Taking the item out of a slot leaves the slot empty, whatever was in it,
/// and the character is then as if the item had never been put in.
pub proof fn lemma_unequip_empties_the_slot(character: CharacterView, item: Option<Item>)
    ensures
        character.with_armor_slot_head(item).with_armor_slot_head(None).armor_slot_head is None,
        character.with_armor_slot_chest(item).with_armor_slot_chest(None).armor_slot_chest is None,
        character.with_armor_slot_legs(item).with_armor_slot_legs(None).armor_slot_legs is None,
        character.with_armor_slot_feet(item).with_armor_slot_feet(None).armor_slot_feet is None,
        character.with_weapon_slot_left(item).with_weapon_slot_left(None).weapon_slot_left is None,
        character.with_weapon_slot_right(item).with_weapon_slot_right(None).weapon_slot_right
            is None,
        character.with_armor_slot_head(item).with_armor_slot_head(None)
            == character.with_armor_slot_head(None),
        character.with_armor_slot_chest(item).with_armor_slot_chest(None)
            == character.with_armor_slot_chest(None),
        character.with_armor_slot_legs(item).with_armor_slot_legs(None)
            == character.with_armor_slot_legs(None),
        character.with_armor_slot_feet(item).with_armor_slot_feet(None)
            == character.with_armor_slot_feet(None),
        character.with_weapon_slot_left(item).with_weapon_slot_left(None)
            == character.with_weapon_slot_left(None),
        character.with_weapon_slot_right(item).with_weapon_slot_right(None)
            == character.with_weapon_slot_right(None),
{
}

/// The attack damage of a character depends on its strength, its dexterity
/// and its two weapon slots alone: what it wears as armor does not change it.
pub proof fn lemma_attack_damage_ignores_armor(character: CharacterView, item: Option<Item>)
    ensures
        character.with_armor_slot_head(item).attack_damage() == character.attack_damage(),
        character.with_armor_slot_chest(item).attack_damage() == character.attack_damage(),
        character.with_armor_slot_legs(item).attack_damage() == character.attack_damage(),
        character.with_armor_slot_feet(item).attack_damage() == character.attack_damage(),
{
}

/// A new character deals an attack damage of 22.
pub proof fn lemma_attack_damage_of_new_character(name: Seq<char>)
    ensures
        CharacterView::new(name).attack_damage() == 22,
{
    lemma_attack_damage_of_default_attributes();
}

} // verus!
