use vstd::prelude::*;
use crate::item::Item;
use crate::world::{Direction, Location};

verus! {

/// The player: a name, the index of the current location, six attributes and
/// the items carried.
pub struct Player {
    pub name: String,
    pub location: usize,
    pub strength: i32,
    pub dexterity: i32,
    pub intelligence: i32,
    pub wisdom: i32,
    pub charisma: i32,
    pub constitution: i32,
    pub inventory: Vec<Item>,
}

/// The value every attribute starts at.
pub const STARTING_ATTRIBUTE: i32 = 10;

impl Player {
    /// Same name and attributes: the part of the player that play never changes.
    pub open spec fn same_character(&self, other: Player) -> bool {
        &&& self.name == other.name
        &&& self.strength == other.strength
        &&& self.dexterity == other.dexterity
        &&& self.intelligence == other.intelligence
        &&& self.wisdom == other.wisdom
        &&& self.charisma == other.charisma
        &&& self.constitution == other.constitution
    }

    /// Puts the player at `location`; whether the way there is open is for the
    /// caller to decide.
    pub fn move_to(&mut self, location: usize)
        ensures
            final(self).location == location,
            final(self).same_character(*old(self)),
            final(self).inventory == old(self).inventory,
    {
        self.location = location;
    }

    /// A new player called `name`, at location 0, carrying nothing, with every
    /// attribute at its starting value.
    pub fn new(name: &str) -> (r: Player)
        ensures
            r.name@ == name@,
            r.location == 0,
            r.inventory@.len() == 0,
            r.strength == STARTING_ATTRIBUTE,
            r.dexterity == STARTING_ATTRIBUTE,
            r.intelligence == STARTING_ATTRIBUTE,
            r.wisdom == STARTING_ATTRIBUTE,
            r.charisma == STARTING_ATTRIBUTE,
            r.constitution == STARTING_ATTRIBUTE,
    {
        Player {
            name: String::from_str(name),
            location: 0,
            strength: STARTING_ATTRIBUTE,
            dexterity: STARTING_ATTRIBUTE,
            intelligence: STARTING_ATTRIBUTE,
            wisdom: STARTING_ATTRIBUTE,
            charisma: STARTING_ATTRIBUTE,
            constitution: STARTING_ATTRIBUTE,
            inventory: Vec::new(),
        }
    }
}

/// Takes the exit of `location` in `direction`: the player moves to its target
/// and the target is returned; where the exit is blocked nothing changes and
/// `None` is returned.
pub fn move_player(player: &mut Player, location: &Location, direction: Direction) -> (r: Option<usize>)
    ensures
        r == location.exit_spec(direction),
        final(player).location == match r {
            Some(t) => t,
            None => old(player).location,
        },
        final(player).same_character(*old(player)),
        final(player).inventory == old(player).inventory,
{
    let r = location.exit_of(direction);
    if let Some(t) = r {
        player.move_to(t);
    }
    r
}

/// Moves the item at `item_index` of `location` to the end of the inventory.
pub fn pickup_item(player: &mut Player, location: &mut Location, item_index: usize)
    requires
        item_index < old(location).items@.len(),
    ensures
        final(location).items@ == old(location).items@.remove(item_index as int),
        final(location).same_layout(*old(location)),
        final(player).inventory@ == old(player).inventory@.push(old(location).items@[item_index as int]),
        final(player).same_character(*old(player)),
        final(player).location == old(player).location,
{
    let item = location.remove_item(item_index);
    player.inventory.push(item);
}

/// Moves the item at `item_index` of the inventory to the end of the items of
/// `location`.
pub fn drop_item(player: &mut Player, location: &mut Location, item_index: usize)
    requires
        item_index < old(player).inventory@.len(),
    ensures
        final(player).inventory@ == old(player).inventory@.remove(item_index as int),
        final(player).same_character(*old(player)),
        final(player).location == old(player).location,
        final(location).items@ == old(location).items@.push(old(player).inventory@[item_index as int]),
        final(location).same_layout(*old(location)),
{
    let item = player.inventory.remove(item_index);
    location.add_item(item);
}

} // verus!
