use vstd::prelude::*;

verus! {

/// A named, described object. The name is the key by which the player refers to it.
pub struct Item {
    pub name: String,
    pub description: String,
}

/// `i` is the position of the first item in `items` whose name is `name`.
pub open spec fn is_first_named(items: Seq<Item>, name: Seq<char>, i: int) -> bool {
    &&& 0 <= i < items.len()
    &&& items[i].name@ == name
    &&& forall|j: int| 0 <= j < i ==> items[j].name@ != name
}

/// No item in `items` is named `name`.
pub open spec fn lacks_name(items: Seq<Item>, name: Seq<char>) -> bool {
    forall|j: int| 0 <= j < items.len() ==> items[j].name@ != name
}

/// Character-by-character equality of two strings.
pub fn same_text(a: &str, b: &str) -> (r: bool)
    ensures
        r == (a@ == b@),
{
    let n = a.unicode_len();
    if n != b.unicode_len() {
        return false;
    }
    let mut k: usize = 0;
    while k < n
        invariant
            n == a@.len(),
            n == b@.len(),
            k <= n,
            forall|j: int| 0 <= j < k ==> a@[j] == b@[j],
        decreases n - k,
    {
        if a.get_char(k) != b.get_char(k) {
            return false;
        }
        k = k + 1;
    }
    assert(a@ =~= b@);
    true
}

/// Position of the first item named `name`, if any.
pub fn find_item(items: &Vec<Item>, name: &str) -> (r: Option<usize>)
    ensures
        match r {
            Some(i) => is_first_named(items@, name@, i as int),
            None => lacks_name(items@, name@),
        },
{
    let mut k: usize = 0;
    while k < items.len()
        invariant
            k <= items@.len(),
            forall|j: int| 0 <= j < k ==> items@[j].name@ != name@,
        decreases items@.len() - k,
    {
        if same_text(items[k].name.as_str(), name) {
            return Some(k);
        }
        k = k + 1;
    }
    None
}

/// The 1-based numbered listing of `items`, in presentation order.
pub open spec fn listing(items: Seq<Item>) -> Seq<(int, Seq<char>)> {
    Seq::new(items.len(), |k: int| (k + 1, items[k].name@))
}

/// The numbered view of a listing as the library hands it out.
pub open spec fn listing_view(entries: Seq<(usize, String)>) -> Seq<(int, Seq<char>)> {
    entries.map_values(|e: (usize, String)| (e.0 as int, e.1@))
}

/// Numbers the items from 1, in the order in which they are held.
pub fn enumerate_items(items: &Vec<Item>) -> (r: Vec<(usize, String)>)
    ensures
        listing_view(r@) == listing(items@),
{
    let mut out: Vec<(usize, String)> = Vec::new();
    let mut k: usize = 0;
    while k < items.len()
        invariant
            k <= items@.len(),
            out@.len() == k,
            forall|j: int| 0 <= j < k ==> out@[j].0 == j + 1 && out@[j].1@ == items@[j].name@,
        decreases items@.len() - k,
    {
        out.push((k + 1, items[k].name.clone()));
        k = k + 1;
    }
    assert(listing_view(out@) =~= listing(items@));
    out
}

} // verus!
