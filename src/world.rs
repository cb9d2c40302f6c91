use vstd::prelude::*;
use crate::item::Item;

verus! {

/// One of the four compass directions in which a location may have an exit.
#[derive(Clone, Copy, PartialEq, Eq, Structural, Debug)]
pub enum Direction {
    North,
    East,
    South,
    West,
}

/// A room: its description, an exit in each direction (`None` where the way is
/// blocked), and the items lying in it.
pub struct Location {
    pub description: String,
    pub north: Option<usize>,
    pub east: Option<usize>,
    pub south: Option<usize>,
    pub west: Option<usize>,
    pub items: Vec<Item>,
}

impl Location {
    pub open spec fn exit_spec(&self, d: Direction) -> Option<usize> {
        match d {
            Direction::North => self.north,
            Direction::East => self.east,
            Direction::South => self.south,
            Direction::West => self.west,
        }
    }

    /// Same description and exits: all that stays fixed once the level is loaded.
    pub open spec fn same_layout(&self, other: Location) -> bool {
        &&& self.description == other.description
        &&& self.north == other.north
        &&& self.east == other.east
        &&& self.south == other.south
        &&& self.west == other.west
    }

    /// Every exit leads to one of `count` locations, or is blocked.
    pub open spec fn exits_within(&self, count: nat) -> bool {
        forall|d: Direction| #[trigger] self.exit_spec(d) is Some ==> self.exit_spec(d)->0 < count
    }

    /// Where the exit in direction `d` leads, or `None` where it is blocked.
    pub fn exit_of(&self, d: Direction) -> (r: Option<usize>)
        ensures
            r == self.exit_spec(d),
    {
        match d {
            Direction::North => self.north,
            Direction::East => self.east,
            Direction::South => self.south,
            Direction::West => self.west,
        }
    }

    /// Removes and returns the item at position `index`.
    pub fn remove_item(&mut self, index: usize) -> (r: Item)
        requires
            index < old(self).items@.len(),
        ensures
            r == old(self).items@[index as int],
            final(self).items@ == old(self).items@.remove(index as int),
            final(self).same_layout(*old(self)),
    {
        self.items.remove(index)
    }

    /// Puts `item` down here, after the items already present.
    pub fn add_item(&mut self, item: Item)
        ensures
            final(self).items@ == old(self).items@.push(item),
            final(self).same_layout(*old(self)),
    {
        self.items.push(item);
    }
}

/// Every exit of every location leads to a location of the list, or is blocked.
pub open spec fn exits_valid(locations: Seq<Location>) -> bool {
    forall|k: int| 0 <= k < locations.len() ==> #[trigger] locations[k].exits_within(locations.len())
}

/// The exits of the level's locations, north, east, south and west in turn.
pub open spec fn level_exits(k: int) -> (Option<usize>, Option<usize>, Option<usize>, Option<usize>) {
    if k == 0 {
        (Some(1), Some(2), Some(3), Some(4))
    } else if k == 1 {
        (None, None, Some(0), None)
    } else if k == 2 {
        (None, None, None, Some(0))
    } else if k == 3 {
        (Some(0), None, None, None)
    } else {
        (None, Some(0), None, None)
    }
}

fn room(description: &str, north: Option<usize>, east: Option<usize>, south: Option<usize>, west: Option<usize>) -> (r: Location)
    ensures
        r.description@ == description@,
        r.north == north,
        r.east == east,
        r.south == south,
        r.west == west,
        r.items@.len() == 0,
{
    Location { description: String::from_str(description), north, east, south, west, items: Vec::new() }
}

/// The fixed level, as `load_level` builds it.
pub open spec fn is_level(r: Seq<Location>) -> bool {
    &&& r.len() == 5
    &&& exits_valid(r)
    &&& forall|k: int| 0 <= k < 5 ==> level_exits(k) == (#[trigger] r[k].north, r[k].east, r[k].south, r[k].west)
    &&& r[0].description@ == "You are in the Start Room"@
    &&& r[1].description@ == "You are in a dark room."@
    &&& r[2].description@ == "You are in a bright room."@
    &&& r[3].description@ == "You are in a room with a door."@
    &&& r[4].description@ == "You are in the kitchen"@
    &&& r[0].items@.len() == 0
    &&& r[1].items@.len() == 1
    &&& r[1].items@[0].name@ == "key"@
    &&& r[1].items@[0].description@ == "A shiny key"@
    &&& r[2].items@.len() == 0
    &&& r[3].items@.len() == 0
    &&& r[4].items@.len() == 0
}

/// The fixed level: five rooms around a start room, with a key in the dark room.
pub fn load_level() -> (r: Vec<Location>)
    ensures
        is_level(r@),
{
    let mut dark = room("You are in a dark room.", None, None, Some(0), None);
    dark.items.push(Item { name: String::from_str("key"), description: String::from_str("A shiny key") });
    let level = vec![
        room("You are in the Start Room", Some(1), Some(2), Some(3), Some(4)),
        dark,
        room("You are in a bright room.", None, None, None, Some(0)),
        room("You are in a room with a door.", Some(0), None, None, None),
        room("You are in the kitchen", None, Some(0), None, None),
    ];
    assert forall|k: int| 0 <= k < level@.len() implies #[trigger] level@[k].exits_within(level@.len()) by {
        assert forall|d: Direction| #[trigger] level@[k].exit_spec(d) is Some implies level@[k].exit_spec(d)->0 < 5 by {
            assert(level_exits(k) == (level@[k].north, level@[k].east, level@[k].south, level@[k].west));
        }
    }
    level
}

} // verus!
