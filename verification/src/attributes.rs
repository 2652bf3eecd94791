//! The store that holds the attributes of a character.

use vstd::prelude::*;

use crate::character::Attribute;
use crate::types::AttributeValue;

verus! {

/// The values a new character's attributes have.
pub open spec fn default_attribute_values() -> Map<Attribute, AttributeValue> {
    map![
        Attribute::Charisma => 5i64,
        Attribute::Constitution => 30i64,
        Attribute::Defense => 15i64,
        Attribute::Dexterity => 10i64,
        Attribute::Intelligence => 5i64,
        Attribute::Luck => 0i64,
        Attribute::Perception => 10i64,
        Attribute::Strength => 20i64,
        Attribute::Willpower => 15i64,
        Attribute::Wisdom => 5i64,
    ]
}

/// The attributes of a character: one value for each `Attribute`, at all
/// times.
#[derive(Clone, Debug, PartialEq, Eq)]
pub struct AttributeStore {
    charisma: AttributeValue,
    constitution: AttributeValue,
    defense: AttributeValue,
    dexterity: AttributeValue,
    intelligence: AttributeValue,
    luck: AttributeValue,
    perception: AttributeValue,
    strength: AttributeValue,
    willpower: AttributeValue,
    wisdom: AttributeValue,
}

impl View for AttributeStore {
    type V = Map<Attribute, AttributeValue>;

    /// The store as a map that holds every attribute.
    open spec fn view(&self) -> Map<Attribute, AttributeValue> {
        Map::total(|attribute: Attribute| self.value(attribute))
    }
}

impl AttributeStore {
    /// The value the store holds for `attribute`.
    pub closed spec fn value(&self, attribute: Attribute) -> AttributeValue {
        match attribute {
            Attribute::Charisma => self.charisma,
            Attribute::Constitution => self.constitution,
            Attribute::Defense => self.defense,
            Attribute::Dexterity => self.dexterity,
            Attribute::Intelligence => self.intelligence,
            Attribute::Luck => self.luck,
            Attribute::Perception => self.perception,
            Attribute::Strength => self.strength,
            Attribute::Willpower => self.willpower,
            Attribute::Wisdom => self.wisdom,
        }
    }

    /// The store of a new character.
    pub fn defaults() -> (store: AttributeStore)
        ensures
            store@ == default_attribute_values(),
    {
        let store = AttributeStore {
            charisma: 5,
            constitution: 30,
            defense: 15,
            dexterity: 10,
            intelligence: 5,
            luck: 0,
            perception: 10,
            strength: 20,
            willpower: 15,
            wisdom: 5,
        };
        assert(store@ =~= default_attribute_values());
        store
    }

    /// Returns the value of `attribute`.
    pub fn get(&self, attribute: &Attribute) -> (value: AttributeValue)
        ensures
            value == self@[*attribute],
    {
        match attribute {
            Attribute::Charisma => self.charisma,
            Attribute::Constitution => self.constitution,
            Attribute::Defense => self.defense,
            Attribute::Dexterity => self.dexterity,
            Attribute::Intelligence => self.intelligence,
            Attribute::Luck => self.luck,
            Attribute::Perception => self.perception,
            Attribute::Strength => self.strength,
            Attribute::Willpower => self.willpower,
            Attribute::Wisdom => self.wisdom,
        }
    }

    /// Overwrites the value of `attribute` and leaves every other one as it
    /// is.
    pub fn set(&mut self, attribute: &Attribute, value: AttributeValue)
        ensures
            final(self)@ == old(self)@.insert(*attribute, value),
    {
        match attribute {
            Attribute::Charisma => self.charisma = value,
            Attribute::Constitution => self.constitution = value,
            Attribute::Defense => self.defense = value,
            Attribute::Dexterity => self.dexterity = value,
            Attribute::Intelligence => self.intelligence = value,
            Attribute::Luck => self.luck = value,
            Attribute::Perception => self.perception = value,
            Attribute::Strength => self.strength = value,
            Attribute::Willpower => self.willpower = value,
            Attribute::Wisdom => self.wisdom = value,
        }
        assert(self@ =~= old(self)@.insert(*attribute, value));
    }
}

} // verus!
