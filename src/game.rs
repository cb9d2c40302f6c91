use vstd::prelude::*;
use crate::command::{lower_of, read_command, words, command_of, Command, CommandView, ItemVerb};
use crate::item::{enumerate_items, find_item, is_first_named, listing, listing_view, Item};
use crate::player::{drop_item, move_player, pickup_item, Player};
use crate::world::{exits_valid, is_level, load_level, Direction, Location};

verus! {

broadcast use vstd::seq_lib::group_to_multiset_ensures;

/// The world and the player in it.
pub struct Game {
    pub locations: Vec<Location>,
    pub player: Player,
}

/// What a turn did, for the front end to report.
#[derive(Debug, PartialEq, Eq)]
pub enum Reply {
    /// The player went to this location.
    Moved(usize),
    /// There is no exit that way; nothing changed.
    Blocked,
    PickedUp(String),
    Dropped(String),
    /// No item of that name where it was looked for; nothing changed.
    NotFound,
    /// An item command came without the item's name; nothing changed.
    Usage(ItemVerb),
    /// The description of the item examined.
    Description(String),
    /// Nothing of that name to examine, carried or here; nothing is reported.
    Unseen,
    /// The inventory is empty.
    NoItems,
    /// The inventory, numbered from 1.
    Items(Vec<(usize, String)>),
    /// The player's name and attributes are to be shown.
    Character,
    /// The game is over.
    Farewell,
    /// The line is no command.
    Invalid,
}

impl Game {
    /// Every exit leads into the level, the player stands in it, and no two
    /// items anywhere share a name.
    pub open spec fn wf(&self) -> bool {
        &&& exits_valid(self.locations@)
        &&& self.player.location < self.locations@.len()
        &&& names_unique(*self)
    }

    /// The location the player is in.
    pub open spec fn here(&self) -> Location {
        self.locations@[self.player.location as int]
    }

    /// The fixed level, with a fresh player at location 0.
    pub fn new() -> (r: Game)
        ensures
            r.wf(),
            is_level(r.locations@),
            r.player.location == 0,
            r.player.name@ == "Malaidas"@,
            r.player.inventory@.len() == 0,
    {
        Game { locations: load_level(), player: Player::new("Malaidas") }
    }

    /// The location the player is in.
    pub fn current_location(&self) -> (r: &Location)
        requires
            self.wf(),
        ensures
            *r == self.here(),
    {
        &self.locations[self.player.location]
    }

    /// The items in the player's location, numbered from 1.
    pub fn room_listing(&self) -> (r: Vec<(usize, String)>)
        requires
            self.wf(),
        ensures
            listing_view(r@) == listing(self.here().items@),
    {
        enumerate_items(&self.current_location().items)
    }

    /// Carries out one command.
    pub fn step(&mut self, cmd: &Command) -> (r: Reply)
        requires
            old(self).wf(),
        ensures
            final(self).wf(),
            step_post(*old(self), cmd@, *final(self), r),
    {
        let p = self.player.location;
        match cmd {
            Command::Go(d) => {
                proof {
                    assert(self.here().exits_within(self.locations@.len()));
                }
                let moved = move_player(&mut self.player, &self.locations[p], *d);
                proof {
                    assert forall|c: Option<int>| #[trigger] holder(*self, c) == holder(*old(self), c) by {}
                }
                match moved {
                    Some(t) => Reply::Moved(t),
                    None => Reply::Blocked,
                }
            },
            Command::Pickup(name) => {
                match find_item(&self.locations[p].items, name.as_str()) {
                    Some(i) => {
                        proof {
                            lemma_first_named_unique(self.here().items@, name@, i as int);
                        }
                        pickup_item(&mut self.player, &mut self.locations[p], i);
                        proof {
                            lemma_moving_items_keeps_exits(*old(self), *self);
                            lemma_pickup_keeps_names(*old(self), *self, i as int);
                        }
                        Reply::PickedUp(name.clone())
                    },
                    None => Reply::NotFound,
                }
            },
            Command::Drop(name) => {
                match find_item(&self.player.inventory, name.as_str()) {
                    Some(i) => {
                        proof {
                            lemma_first_named_unique(self.player.inventory@, name@, i as int);
                        }
                        drop_item(&mut self.player, &mut self.locations[p], i);
                        proof {
                            lemma_moving_items_keeps_exits(*old(self), *self);
                            lemma_drop_keeps_names(*old(self), *self, i as int);
                        }
                        Reply::Dropped(name.clone())
                    },
                    None => Reply::NotFound,
                }
            },
            Command::Examine(name) => {
                match find_item(&self.player.inventory, name.as_str()) {
                    Some(i) => {
                        proof {
                            lemma_first_named_unique(self.player.inventory@, name@, i as int);
                        }
                        Reply::Description(self.player.inventory[i].description.clone())
                    },
                    None => match find_item(&self.locations[p].items, name.as_str()) {
                        Some(i) => {
                            proof {
                                lemma_first_named_unique(self.here().items@, name@, i as int);
                            }
                            Reply::Description(self.locations[p].items[i].description.clone())
                        },
                        None => Reply::Unseen,
                    },
                }
            },
            Command::Usage(v) => Reply::Usage(*v),
            Command::Inventory => {
                if self.player.inventory.len() == 0 {
                    Reply::NoItems
                } else {
                    Reply::Items(enumerate_items(&self.player.inventory))
                }
            },
            Command::Character => Reply::Character,
            Command::Quit => Reply::Farewell,
            Command::Invalid => Reply::Invalid,
        }
    }

    /// Reads one line as typed and carries out the command it holds.
    pub fn turn(&mut self, line: &str) -> (r: Reply)
        requires
            old(self).wf(),
        ensures
            final(self).wf(),
            step_post(*old(self), command_of(words(lower_of(line@))), *final(self), r),
    {
        let cmd = read_command(line);
        self.step(&cmd)
    }
}

/// The verb of the line that introduces `count` items in a room.
pub fn there_is_or_are(count: usize) -> (r: &'static str)
    ensures
        r@ == (if count > 1 { "are"@ } else { "is"@ }),
{
    if count > 1 {
        "are"
    } else {
        "is"
    }
}

/// Whether `c` names a container of `g`: a location (`Some(k)`) or the
/// inventory (`None`).
pub open spec fn is_holder(g: Game, c: Option<int>) -> bool {
    match c {
        Some(k) => 0 <= k < g.locations@.len(),
        None => true,
    }
}

/// The items in container `c` of `g`.
pub open spec fn holder(g: Game, c: Option<int>) -> Seq<Item> {
    match c {
        Some(k) => g.locations@[k].items@,
        None => g.player.inventory@,
    }
}

/// Items at two different places, in the same container or not, have
/// different names.
pub open spec fn names_unique(g: Game) -> bool {
    forall|c1: Option<int>, i1: int, c2: Option<int>, i2: int|
        is_holder(g, c1) && is_holder(g, c2) && 0 <= i1 < holder(g, c1).len() && 0 <= i2 < holder(
            g,
            c2,
        ).len() && (c1 != c2 || i1 != i2) ==> #[trigger] holder(g, c1)[i1].name@
            != #[trigger] holder(g, c2)[i2].name@
}

/// `new` differs from `old` at most in the items of the player's location and
/// in the inventory.
pub open spec fn only_items_moved(old: Game, new: Game) -> bool {
    let p = old.player.location as int;
    &&& new.locations@.len() == old.locations@.len()
    &&& forall|k: int| 0 <= k < old.locations@.len() && k != p ==> #[trigger] new.locations@[k] == old.locations@[k]
    &&& new.locations@[p].same_layout(old.locations@[p])
    &&& new.player.same_character(old.player)
    &&& new.player.location == old.player.location
}

/// The first item named `name`, where there is one.
pub open spec fn first_named(items: Seq<Item>, name: Seq<char>) -> int {
    choose|i: int| is_first_named(items, name, i)
}

/// What a command does: `new` is the game after `c` was carried out on `old`,
/// and `r` is what it reported.
pub open spec fn step_post(old: Game, c: CommandView, new: Game, r: Reply) -> bool {
    let room = old.here().items@;
    let inv = old.player.inventory@;
    match c {
        CommandView::Go(d) => match old.here().exit_spec(d) {
            Some(t) => {
                &&& (r matches Reply::Moved(x) && x == t)
                &&& new.locations == old.locations
                &&& new.player.location == t
                &&& new.player.same_character(old.player)
                &&& new.player.inventory == old.player.inventory
            },
            None => r is Blocked && new == old,
        },
        CommandView::Pickup(name) => if exists|i: int| is_first_named(room, name, i) {
            let i = first_named(room, name);
            &&& (r matches Reply::PickedUp(n) && n@ == name)
            &&& only_items_moved(old, new)
            &&& new.here().items@ == room.remove(i)
            &&& new.player.inventory@ == inv.push(room[i])
        } else {
            r is NotFound && new == old
        },
        CommandView::Drop(name) => if exists|i: int| is_first_named(inv, name, i) {
            let i = first_named(inv, name);
            &&& (r matches Reply::Dropped(n) && n@ == name)
            &&& only_items_moved(old, new)
            &&& new.here().items@ == room.push(inv[i])
            &&& new.player.inventory@ == inv.remove(i)
        } else {
            r is NotFound && new == old
        },
        CommandView::Examine(name) => new == old && if exists|i: int| is_first_named(inv, name, i) {
            r matches Reply::Description(s) && s@ == inv[first_named(inv, name)].description@
        } else if exists|i: int| is_first_named(room, name, i) {
            r matches Reply::Description(s) && s@ == room[first_named(room, name)].description@
        } else {
            r is Unseen
        },
        CommandView::Usage(v) => new == old && (r matches Reply::Usage(w) && w == v),
        CommandView::Inventory => new == old && if inv.len() == 0 {
            r is NoItems
        } else {
            r matches Reply::Items(l) && listing_view(l@) == listing(inv)
        },
        CommandView::Character => new == old && r is Character,
        CommandView::Quit => new == old && r is Farewell,
        CommandView::Invalid => new == old && r is Invalid,
    }
}

/// Moving items about leaves every exit where it was.
pub proof fn lemma_moving_items_keeps_exits(old: Game, new: Game)
    requires
        old.wf(),
        only_items_moved(old, new),
    ensures
        exits_valid(new.locations@),
        new.player.location < new.locations@.len(),
{
    let p = old.player.location as int;
    assert forall|k: int| 0 <= k < new.locations@.len() implies #[trigger] new.locations@[k].exits_within(
        new.locations@.len(),
    ) by {
        assert(old.locations@[k].exits_within(old.locations@.len()));
        if k == p {
            assert forall|d: Direction| #[trigger] new.locations@[k].exit_spec(d) is Some implies new.locations@[k].exit_spec(d)->0
                < new.locations@.len() by {
                assert(old.locations@[k].exit_spec(d) == new.locations@[k].exit_spec(d));
            }
        }
    }
}

/// Where the item at position `j` of container `c` was before the item at `i`
/// of location `p` was picked up into an inventory of `n` items.
spec fn pickup_origin(p: int, i: int, n: int, c: Option<int>, j: int) -> (Option<int>, int) {
    match c {
        None => if j < n {
            (None, j)
        } else {
            (Some(p), i)
        },
        Some(k) => if k == p && j >= i {
            (Some(p), j + 1)
        } else {
            (Some(k), j)
        },
    }
}

/// Where the item at position `j` of container `c` was before the item at `i`
/// of the inventory was dropped in location `p`, which held `m` items.
spec fn drop_origin(p: int, i: int, m: int, c: Option<int>, j: int) -> (Option<int>, int) {
    match c {
        None => if j < i {
            (None, j)
        } else {
            (None, j + 1)
        },
        Some(k) => if k == p && j >= m {
            (None, i)
        } else {
            (Some(k), j)
        },
    }
}

/// Picking an item up keeps the names of all items apart.
proof fn lemma_pickup_keeps_names(old: Game, new: Game, i: int)
    requires
        old.wf(),
        only_items_moved(old, new),
        0 <= i < old.here().items@.len(),
        new.here().items@ == old.here().items@.remove(i),
        new.player.inventory@ == old.player.inventory@.push(old.here().items@[i]),
    ensures
        names_unique(new),
{
    let p = old.player.location as int;
    let n = old.player.inventory@.len() as int;
    assert forall|c1: Option<int>, i1: int, c2: Option<int>, i2: int|
        is_holder(new, c1) && is_holder(new, c2) && 0 <= i1 < holder(new, c1).len() && 0 <= i2
            < holder(new, c2).len() && (c1 != c2 || i1 != i2) implies #[trigger] holder(
        new,
        c1,
    )[i1].name@ != #[trigger] holder(new, c2)[i2].name@ by {
        let (a1, b1) = pickup_origin(p, i, n, c1, i1);
        let (a2, b2) = pickup_origin(p, i, n, c2, i2);
        assert(holder(new, c1)[i1] == holder(old, a1)[b1]);
        assert(holder(new, c2)[i2] == holder(old, a2)[b2]);
        assert(is_holder(old, a1) && 0 <= b1 < holder(old, a1).len());
        assert(is_holder(old, a2) && 0 <= b2 < holder(old, a2).len());
        assert(a1 != a2 || b1 != b2);
    }
}

/// Dropping an item keeps the names of all items apart.
proof fn lemma_drop_keeps_names(old: Game, new: Game, i: int)
    requires
        old.wf(),
        only_items_moved(old, new),
        0 <= i < old.player.inventory@.len(),
        new.here().items@ == old.here().items@.push(old.player.inventory@[i]),
        new.player.inventory@ == old.player.inventory@.remove(i),
    ensures
        names_unique(new),
{
    let p = old.player.location as int;
    let m = old.here().items@.len() as int;
    assert forall|c1: Option<int>, i1: int, c2: Option<int>, i2: int|
        is_holder(new, c1) && is_holder(new, c2) && 0 <= i1 < holder(new, c1).len() && 0 <= i2
            < holder(new, c2).len() && (c1 != c2 || i1 != i2) implies #[trigger] holder(
        new,
        c1,
    )[i1].name@ != #[trigger] holder(new, c2)[i2].name@ by {
        let (a1, b1) = drop_origin(p, i, m, c1, i1);
        let (a2, b2) = drop_origin(p, i, m, c2, i2);
        assert(holder(new, c1)[i1] == holder(old, a1)[b1]);
        assert(holder(new, c2)[i2] == holder(old, a2)[b2]);
        assert(is_holder(old, a1) && 0 <= b1 < holder(old, a1).len());
        assert(is_holder(old, a2) && 0 <= b2 < holder(old, a2).len());
        assert(a1 != a2 || b1 != b2);
    }
}

/// The first item of a name is the only one that `first_named` can pick.
pub proof fn lemma_first_named_unique(items: Seq<Item>, name: Seq<char>, i: int)
    requires
        is_first_named(items, name, i),
    ensures
        first_named(items, name) == i,
{
    let j = first_named(items, name);
    assert(is_first_named(items, name, j));
    if j < i {
        assert(items[j].name@ != name);
    } else if i < j {
        assert(items[i].name@ != name);
    }
}


/// A move toward a blocked exit is reported as blocked and changes nothing: the
/// player stays where they were.
pub proof fn lemma_blocked_move_stays(g0: Game, d: Direction, g1: Game, r: Reply)
    requires
        g0.wf(),
        g0.here().exit_spec(d) is None,
        step_post(g0, CommandView::Go(d), g1, r),
    ensures
        r is Blocked,
        g1.player.location == g0.player.location,
        g1 == g0,
{
}

/// A move toward an open exit puts the player exactly at the exit's target.
pub proof fn lemma_open_move_arrives(g0: Game, d: Direction, t: usize, g1: Game, r: Reply)
    requires
        g0.wf(),
        g0.here().exit_spec(d) == Some(t),
        step_post(g0, CommandView::Go(d), g1, r),
    ensures
        g1.player.location == t,
        r matches Reply::Moved(x) && x == t,
        g1.locations == g0.locations,
{
}

/// Picking up an item that lies in the player's location and at once dropping
/// it again leaves the inventory as it was, the location holding the same
/// items as before, and every other location untouched.
pub proof fn lemma_pickup_drop_round_trip(
    g0: Game,
    name: Seq<char>,
    g1: Game,
    r1: Reply,
    g2: Game,
    r2: Reply,
)
    requires
        g0.wf(),
        exists|i: int| is_first_named(g0.here().items@, name, i),
        step_post(g0, CommandView::Pickup(name), g1, r1),
        step_post(g1, CommandView::Drop(name), g2, r2),
    ensures
        g2.player.inventory@ == g0.player.inventory@,
        g2.here().items@.to_multiset() == g0.here().items@.to_multiset(),
        g2.player.location == g0.player.location,
        g2.locations@.len() == g0.locations@.len(),
        forall|k: int|
            0 <= k < g0.locations@.len() && k != g0.player.location ==> #[trigger] g2.locations@[k]
                == g0.locations@[k],
{
    let room0 = g0.here().items@;
    let inv0 = g0.player.inventory@;
    let i = first_named(room0, name);
    let p = g0.player.location as int;
    assert forall|j: int| 0 <= j < inv0.len() implies inv0[j].name@ != name by {
        assert(holder(g0, None)[j].name@ != holder(g0, Some(p))[i].name@);
    }
    let inv1 = g1.player.inventory@;
    let n = inv0.len() as int;
    assert(is_first_named(inv1, name, n));
    lemma_first_named_unique(inv1, name, n);
    assert(g2.player.inventory@ =~= inv0);
    let item = room0[i];
    assert(room0.to_multiset().count(item) > 0) by {
        assert(room0.contains(item));
    }
    assert(room0.remove(i).push(item).to_multiset() =~= room0.to_multiset());
}

/// Listings number items from 1 in the order in which they are held, and a
/// command that only reads leaves the listings of the location and of the
/// inventory as they were.
pub proof fn lemma_reads_keep_listings(g0: Game, c: CommandView, g1: Game, r: Reply)
    requires
        g0.wf(),
        c is Inventory || c is Character || c is Examine || c is Usage || c is Invalid || c is Quit,
        step_post(g0, c, g1, r),
    ensures
        listing(g1.here().items@) == listing(g0.here().items@),
        listing(g1.player.inventory@) == listing(g0.player.inventory@),
        forall|k: int|
            0 <= k < g1.player.inventory@.len() ==> #[trigger] listing(g1.player.inventory@)[k] == (
            k + 1,
            g1.player.inventory@[k].name@,
        ),
        forall|k: int|
            0 <= k < g1.here().items@.len() ==> #[trigger] listing(g1.here().items@)[k] == (
            k + 1,
            g1.here().items@[k].name@,
        ),
{
}

} // verus!
