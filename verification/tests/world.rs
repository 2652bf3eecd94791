use rpg::inventory::Inventory;
use rpg::world::two_dimensional::{Campagne, Field, FieldType, Level};

fn meadow() -> Vec<Vec<Field>> {
    let grass = Field { field_type: FieldType::Grass, height: 0, contained_entity: None };
    let wall = Field { field_type: FieldType::StoneWall, height: 3, contained_entity: Some(7) };
    vec![vec![grass, wall], vec![wall, grass]]
}

#[test]
fn new_campagne_has_its_title_and_no_levels() {
    let campagne = Campagne::new("Adventure Time!");
    assert_eq!(campagne.title, "Adventure Time!");
    assert_eq!(campagne.title(), "Adventure Time!");
    assert!(campagne.levels().is_empty());
}

#[test]
fn add_level_appends_the_level() {
    let mut campagne = Campagne::new("Adventure Time!");
    campagne.add_level(Level::new("Meadow".to_string(), (0, 0), (1, 1), meadow()));
    campagne.add_level(Level::new("Void".to_string(), (2, 3), (4, 5), Vec::new()));

    assert_eq!(campagne.title, "Adventure Time!");
    let levels = campagne.levels();
    assert_eq!(levels.len(), 2);
    assert_eq!(levels[0].name, "Meadow");
    assert_eq!(levels[0].starting_point, (0, 0));
    assert_eq!(levels[0].end_point, (1, 1));
    assert_eq!(*levels[0].data(), meadow());
    assert_eq!(levels[1].name, "Void");
    assert_eq!(levels[1].starting_point, (2, 3));
    assert_eq!(levels[1].end_point, (4, 5));
    assert!(levels[1].data().is_empty());
}

#[test]
fn level_hands_out_what_it_was_made_of() {
    let level = Level::new("Meadow".to_string(), (0, 1), (1, 0), meadow());
    assert_eq!(level.name(), "Meadow");
    assert_eq!(level.starting_point(), (0, 1));
    assert_eq!(level.end_point(), (1, 0));
    assert_eq!(level.data().len(), 2);
    assert_eq!(level.data()[0][1].field_type, FieldType::StoneWall);
    assert_eq!(level.data()[0][1].height, 3);
    assert_eq!(level.data()[0][1].contained_entity, Some(7));
    assert_eq!(level.data()[1][1].field_type, FieldType::Grass);
}

#[test]
fn new_inventory_is_empty_and_keeps_its_capacity() {
    let inventory = Inventory::new(30);
    assert_eq!(inventory.capacity(), 30);
    assert_eq!(inventory.len(), 0);
    assert_eq!(Inventory::new(0).capacity(), 0);
}
