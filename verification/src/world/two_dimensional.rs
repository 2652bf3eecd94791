//! A world of levels, each a grid of fields.

use vstd::prelude::*;

verus! {

/// A single field of the world
#[derive(Clone, Copy, Debug, PartialEq, Eq)]
pub struct Field {
    /// The type of the field
    pub field_type: FieldType,
    /// The height of the field. Used for collision detection
    pub height: u8,
    /// The id if the contained entity (optional)
    pub contained_entity: Option<usize>,
}

/// The field type. Used to determine the optical properties of the ground
#[derive(Clone, Copy, Debug, PartialEq, Eq, Structural)]
pub enum FieldType {
    /// A field consists of dirt
    Dirt,
    /// A field consists of grass
    Grass,
    /// A field a hole in the ground
    Hole,
    /// A field consists of mud
    Mud,
    /// A field consists of quicksand
    Quicksand,
    /// A field consists of sand
    Sand,
    /// A field consists of stone
    Stone,
    /// A field is a stone wall
    StoneWall,
    /// A field consists of swamp water
    SwampWater,
    /// A field consists of water
    Water,
    /// A field consists of wood
    Wood,
    /// A field is a wooded fence
    WoodenFence,
}

/// A larger section of a campagne containing a starting point and end point. The starting point
/// is where the character *spawns* and the end point is the point he has to reach for the next
/// level to begin.
pub struct Level {
    /// The name or title of the level
    pub name: String,
    /// The entry point of the character
    pub starting_point: (usize, usize),
    /// The point where the level is finished
    pub end_point: (usize, usize),
    /// The actual fields, the level consists of
    data: Vec<Vec<Field>>,
}

/// What a level is, mathematically.
pub struct LevelView {
    /// The name or title of the level
    pub name: Seq<char>,
    /// The entry point of the character
    pub starting_point: (usize, usize),
    /// The point where the level is finished
    pub end_point: (usize, usize),
    /// The fields of the level, row by row
    pub data: Seq<Seq<Field>>,
}

/// The rows of a grid as sequences.
pub open spec fn rows_of(data: Seq<Vec<Field>>) -> Seq<Seq<Field>> {
    Seq::new(data.len(), |i: int| data[i]@)
}

impl View for Level {
    type V = LevelView;

    closed spec fn view(&self) -> LevelView {
        LevelView {
            name: self.name@,
            starting_point: self.starting_point,
            end_point: self.end_point,
            data: rows_of(self.data@),
        }
    }
}

impl Level {
    /// A level made of the rows of fields in `data`.
    pub fn new(
        name: String,
        starting_point: (usize, usize),
        end_point: (usize, usize),
        data: Vec<Vec<Field>>,
    ) -> (level: Level)
        ensures
            level@ == (LevelView {
                name: name@,
                starting_point,
                end_point,
                data: rows_of(data@),
            }),
    {
        Level { name, starting_point, end_point, data }
    }

    /// The actual fields, the level consists of
    pub fn data(&self) -> (data: &Vec<Vec<Field>>)
        ensures
            rows_of(data@) == self@.data,
    {
        &self.data
    }

    /// The name or title of the level
    pub fn name(&self) -> (name: &String)
        ensures
            name@ == self@.name,
    {
        &self.name
    }

    /// The entry point of the character
    pub fn starting_point(&self) -> (point: (usize, usize))
        ensures
            point == self@.starting_point,
    {
        self.starting_point
    }

    /// The point where the level is finished
    pub fn end_point(&self) -> (point: (usize, usize))
        ensures
            point == self@.end_point,
    {
        self.end_point
    }
}

/// A collection of levels. Usually used to create larger adventures
pub struct Campagne {
    /// The title of the campagne
    pub title: String,
    levels: Vec<Level>,
}

/// What a campagne is, mathematically.
pub struct CampagneView {
    /// The title of the campagne
    pub title: Seq<char>,
    /// The levels of the campagne, in the order in which they were added
    pub levels: Seq<LevelView>,
}

/// The levels of a list, each as what it is mathematically.
pub open spec fn levels_of(levels: Seq<Level>) -> Seq<LevelView> {
    Seq::new(levels.len(), |i: int| levels[i]@)
}

impl View for Campagne {
    type V = CampagneView;

    closed spec fn view(&self) -> CampagneView {
        CampagneView { title: self.title@, levels: levels_of(self.levels@) }
    }
}

impl Campagne {
    /// Creates a new instance of `Campagne`
    pub fn new(title: &str) -> (campagne: Campagne)
        ensures
            campagne@ == (CampagneView { title: title@, levels: Seq::empty() }),
    {
        let campagne = Campagne { title: title.to_owned(), levels: Vec::new() };
        assert(campagne@.levels =~= Seq::empty());
        campagne
    }

    /// Adds a level to the campagne
    pub fn add_level(&mut self, level: Level)
        ensures
            final(self)@ == (CampagneView {
                title: old(self)@.title,
                levels: old(self)@.levels.push(level@),
            }),
    {
        self.levels.push(level);
        assert(self@.levels =~= old(self)@.levels.push(level@));
    }

    /// The levels of the campagne, in the order in which they were added
    pub fn levels(&self) -> (levels: &Vec<Level>)
        ensures
            levels_of(levels@) == self@.levels,
    {
        &self.levels
    }

    /// The title of the campagne
    pub fn title(&self) -> (title: &String)
        ensures
            title@ == self@.title,
    {
        &self.title
    }
}

} // verus!
