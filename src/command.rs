use vstd::prelude::*;
use crate::item::same_text;
use crate::world::Direction;

verus! {

/// Characters with the Unicode `White_Space` property.
pub open spec fn is_space(c: char) -> bool {
    let u = c as u32;
    (0x9 <= u <= 0xD) || u == 0x20 || u == 0x85 || u == 0xA0 || u == 0x1680 || (0x2000 <= u
        <= 0x200A) || u == 0x2028 || u == 0x2029 || u == 0x202F || u == 0x205F || u == 0x3000
}

/// Whether `c` separates words.
pub fn space_char(c: char) -> (r: bool)
    ensures
        r == is_space(c),
{
    let u = c as u32;
    (0x9 <= u && u <= 0xD) || u == 0x20 || u == 0x85 || u == 0xA0 || u == 0x1680 || (0x2000 <= u
        && u <= 0x200A) || u == 0x2028 || u == 0x2029 || u == 0x202F || u == 0x205F || u == 0x3000
}

/// The words of `s` from position `i` on, where `start` is the position at which
/// the word under way began, if one is under way.
pub open spec fn split_from(s: Seq<char>, i: int, start: Option<int>) -> Seq<Seq<char>>
    decreases s.len() - i,
{
    if i >= s.len() {
        match start {
            Some(b) => seq![s.subrange(b, s.len() as int)],
            None => seq![],
        }
    } else if is_space(s[i]) {
        match start {
            Some(b) => seq![s.subrange(b, i)] + split_from(s, i + 1, None),
            None => split_from(s, i + 1, None),
        }
    } else {
        match start {
            Some(b) => split_from(s, i + 1, Some(b)),
            None => split_from(s, i + 1, Some(i)),
        }
    }
}

pub open spec fn as_position(start: Option<usize>) -> Option<int> {
    match start {
        Some(b) => Some(b as int),
        None => None,
    }
}

/// The maximal runs of non-space characters of `s`, in order.
pub open spec fn words(s: Seq<char>) -> Seq<Seq<char>> {
    split_from(s, 0, None)
}

pub open spec fn strings_view(v: Seq<String>) -> Seq<Seq<char>> {
    v.map_values(|w: String| w@)
}

/// Splits `text` into its words.
pub fn split_words(text: &str) -> (r: Vec<String>)
    ensures
        strings_view(r@) == words(text@),
{
    let n = text.unicode_len();
    let mut out: Vec<String> = Vec::new();
    let mut start: Option<usize> = None;
    let mut i: usize = 0;
    while i < n
        invariant
            n == text@.len(),
            i <= n,
            start matches Some(b) ==> b < i,
            strings_view(out@) + split_from(text@, i as int, as_position(start)) == words(text@),
        decreases n - i,
    {
        let c = text.get_char(i);
        if space_char(c) {
            if let Some(b) = start {
                let w = String::from_str(text.substring_char(b, i));
                assert(strings_view(out@.push(w)) =~= strings_view(out@) + seq![w@]);
                out.push(w);
                start = None;
            }
        } else if start.is_none() {
            start = Some(i);
        }
        i = i + 1;
    }
    if let Some(b) = start {
        let w = String::from_str(text.substring_char(b, n));
        assert(strings_view(out@.push(w)) =~= strings_view(out@) + seq![w@]);
        out.push(w);
    } else {
        assert(strings_view(out@) + seq![] =~= strings_view(out@));
    }
    out
}

pub uninterp spec fn lower_of(s: Seq<char>) -> Seq<char>;

/// Relies on str::to_lowercase: the lower-case form depends on the characters alone.
#[verifier::external_body]
fn lowercase(s: &str) -> (r: String)
    ensures
        r@ == lower_of(s@),
{
    s.to_lowercase()
}

/// The commands that name an item.
#[derive(Clone, Copy, PartialEq, Eq, Structural, Debug)]
pub enum ItemVerb {
    Pickup,
    Drop,
    Examine,
}

/// One parsed line of input.
#[derive(Debug, PartialEq, Eq)]
pub enum Command {
    Go(Direction),
    Pickup(String),
    Drop(String),
    Examine(String),
    /// An item command given without the item's name.
    Usage(ItemVerb),
    Inventory,
    Character,
    Quit,
    Invalid,
}

/// A command with its item name as a sequence of characters.
pub enum CommandView {
    Go(Direction),
    Pickup(Seq<char>),
    Drop(Seq<char>),
    Examine(Seq<char>),
    Usage(ItemVerb),
    Inventory,
    Character,
    Quit,
    Invalid,
}

impl View for Command {
    type V = CommandView;

    open spec fn view(&self) -> CommandView {
        match self {
            Command::Go(d) => CommandView::Go(*d),
            Command::Pickup(s) => CommandView::Pickup(s@),
            Command::Drop(s) => CommandView::Drop(s@),
            Command::Examine(s) => CommandView::Examine(s@),
            Command::Usage(v) => CommandView::Usage(*v),
            Command::Inventory => CommandView::Inventory,
            Command::Character => CommandView::Character,
            Command::Quit => CommandView::Quit,
            Command::Invalid => CommandView::Invalid,
        }
    }
}

/// An item command: its name is the second word; without one it is a usage error.
pub open spec fn item_command(ws: Seq<Seq<char>>, verb: ItemVerb) -> CommandView {
    if ws.len() < 2 {
        CommandView::Usage(verb)
    } else {
        match verb {
            ItemVerb::Pickup => CommandView::Pickup(ws[1]),
            ItemVerb::Drop => CommandView::Drop(ws[1]),
            ItemVerb::Examine => CommandView::Examine(ws[1]),
        }
    }
}

/// The command that a line of words stands for; a line without words is invalid.
pub open spec fn command_of(ws: Seq<Seq<char>>) -> CommandView {
    if ws.len() == 0 {
        CommandView::Invalid
    } else {
        let w = ws[0];
        if w == "n"@ {
            CommandView::Go(Direction::North)
        } else if w == "e"@ {
            CommandView::Go(Direction::East)
        } else if w == "s"@ {
            CommandView::Go(Direction::South)
        } else if w == "w"@ {
            CommandView::Go(Direction::West)
        } else if w == "pickup"@ {
            item_command(ws, ItemVerb::Pickup)
        } else if w == "drop"@ {
            item_command(ws, ItemVerb::Drop)
        } else if w == "examine"@ || w == "x"@ {
            item_command(ws, ItemVerb::Examine)
        } else if w == "i"@ {
            CommandView::Inventory
        } else if w == "c"@ {
            CommandView::Character
        } else if w == "quit"@ || w == "q"@ {
            CommandView::Quit
        } else {
            CommandView::Invalid
        }
    }
}

fn item_word(ws: &Vec<String>, verb: ItemVerb) -> (r: Command)
    ensures
        r@ == item_command(strings_view(ws@), verb),
{
    if ws.len() < 2 {
        Command::Usage(verb)
    } else {
        let name = ws[1].clone();
        match verb {
            ItemVerb::Pickup => Command::Pickup(name),
            ItemVerb::Drop => Command::Drop(name),
            ItemVerb::Examine => Command::Examine(name),
        }
    }
}

/// Parses a line that is already in lower case.
pub fn parse_command(text: &str) -> (r: Command)
    ensures
        r@ == command_of(words(text@)),
{
    let ws = split_words(text);
    if ws.len() == 0 {
        return Command::Invalid;
    }
    let w = ws[0].as_str();
    if same_text(w, "n") {
        Command::Go(Direction::North)
    } else if same_text(w, "e") {
        Command::Go(Direction::East)
    } else if same_text(w, "s") {
        Command::Go(Direction::South)
    } else if same_text(w, "w") {
        Command::Go(Direction::West)
    } else if same_text(w, "pickup") {
        item_word(&ws, ItemVerb::Pickup)
    } else if same_text(w, "drop") {
        item_word(&ws, ItemVerb::Drop)
    } else if same_text(w, "examine") || same_text(w, "x") {
        item_word(&ws, ItemVerb::Examine)
    } else if same_text(w, "i") {
        Command::Inventory
    } else if same_text(w, "c") {
        Command::Character
    } else if same_text(w, "quit") || same_text(w, "q") {
        Command::Quit
    } else {
        Command::Invalid
    }
}

/// Parses a line as typed: case does not matter.
pub fn read_command(line: &str) -> (r: Command)
    ensures
        r@ == command_of(words(lower_of(line@))),
{
    let lowered = lowercase(line);
    parse_command(lowered.as_str())
}

} // verus!
