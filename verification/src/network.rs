//! Reading the host's addresses out of what the `ip` tool prints: the device of
//! the default route, and the global addresses of a device.

use vstd::prelude::*;
use vstd::string::StringExecFns;
use crate::text::{lines, split_lines, strip_prefix, views};

verus! {

/// The words that `str::split_whitespace` finds in a text: its runs of
/// characters that are no whitespace, in order.
pub uninterp spec fn words(s: Seq<char>) -> Seq<Seq<char>>;

/// Whether `pattern` stands somewhere in `s`.
pub open spec fn occurs_in(pattern: Seq<char>, s: Seq<char>) -> bool {
    exists|at: int|
        0 <= at && at + pattern.len() <= s.len() && #[trigger] s.subrange(
            at,
            at + pattern.len(),
        ) == pattern
}

/// `str::split_whitespace`, each word copied into a `String`.
#[verifier::external_body]
fn split_whitespace(s: &str) -> (out: Vec<String>)
    ensures
        views(out@) == words(s@),
{
    s.split_whitespace().map(String::from).collect()
}

/// `str::contains` with a string pattern: whether the pattern matches a part of
/// `s`.
#[verifier::external_body]
fn contains_text(s: &str, pattern: &str) -> (found: bool)
    ensures
        found == occurs_in(pattern@, s@),
{
    s.contains(pattern)
}

/// What a search for the default route's device ends in.
#[derive(Debug, PartialEq, Eq)]
pub enum Device {
    /// The device of the default route.
    Found(String),
    /// A default route says `dev` and then ends.
    Unnamed,
    /// No default route names a device.
    Missing,
}

/// Mathematical value of a [`Device`].
pub enum DeviceView {
    Found(Seq<char>),
    Unnamed,
    Missing,
}

impl View for Device {
    type V = DeviceView;

    open spec fn view(&self) -> DeviceView {
        match self {
            Device::Found(name) => DeviceView::Found(name@),
            Device::Unnamed => DeviceView::Unnamed,
            Device::Missing => DeviceView::Missing,
        }
    }
}

/// The word behind the first `dev` among the words of a route.
pub open spec fn device_in(route: Seq<Seq<char>>) -> DeviceView
    decreases route.len(),
{
    if route.len() == 0 {
        DeviceView::Missing
    } else if route[0] == "dev"@ {
        if route.len() > 1 {
            DeviceView::Found(route[1])
        } else {
            DeviceView::Unnamed
        }
    } else {
        device_in(route.skip(1))
    }
}

/// The device of the first route that begins with `default` and says `dev`.
pub open spec fn default_device(routes: Seq<Seq<char>>) -> DeviceView
    decreases routes.len(),
{
    if routes.len() == 0 {
        DeviceView::Missing
    } else if "default"@.is_prefix_of(routes[0]) && !(device_in(words(routes[0])) is Missing) {
        device_in(words(routes[0]))
    } else {
        default_device(routes.skip(1))
    }
}

/// The address that a line of an address listing shows: its second word, if
/// the line says `global`.
pub open spec fn address_in(line: Seq<char>) -> Option<Seq<char>> {
    if occurs_in("global"@, line) && words(line).len() > 1 {
        Some(words(line)[1])
    } else {
        None
    }
}

/// The items of a list, with a comma and a space between each two.
pub open spec fn comma_separated(items: Seq<Seq<char>>) -> Seq<char>
    decreases items.len(),
{
    if items.len() == 0 {
        Seq::empty()
    } else if items.len() == 1 {
        items[0]
    } else {
        comma_separated(items.drop_last()) + ", "@ + items.last()
    }
}

/// The global addresses that an address listing shows, in order.
pub open spec fn addresses_in(listing: Seq<char>) -> Seq<Seq<char>> {
    split_lines(listing).filter_map(|line: Seq<char>| address_in(line))
}

/// Looks for the word behind the first `dev` among the words of a route.
pub fn find_device(route: &Vec<String>) -> (device: Device)
    ensures
        device@ == device_in(views(route@)),
{
    let mut i: usize = 0;
    assert(views(route@).skip(0) =~= views(route@));
    while i < route.len()
        invariant
            i <= route.len(),
            device_in(views(route@)) == device_in(views(route@).skip(i as int)),
        decreases route.len() - i,
    {
        let ghost rest = views(route@).skip(i as int);
        assert(rest[0] == route@[i as int]@);
        if *route[i].as_str() == *"dev" {
            if i + 1 < route.len() {
                assert(rest[1] == route@[i + 1]@);
                return Device::Found(route[i + 1].clone());
            } else {
                return Device::Unnamed;
            }
        }
        assert(rest.skip(1) =~= views(route@).skip(i + 1));
        i += 1;
    }
    Device::Missing
}

/// The device of the default route, as the routing table `routes` names it.
pub fn default_interface(routes: &str) -> (device: Device)
    ensures
        device@ == default_device(split_lines(routes@)),
{
    let table = lines(routes);
    let mut i: usize = 0;
    assert(views(table@).skip(0) =~= views(table@));
    while i < table.len()
        invariant
            i <= table.len(),
            views(table@) == split_lines(routes@),
            default_device(views(table@)) == default_device(views(table@).skip(i as int)),
        decreases table.len() - i,
    {
        let ghost rest = views(table@).skip(i as int);
        assert(rest[0] == table@[i as int]@);
        let route = table[i].as_str();
        if strip_prefix(route, "default").is_some() {
            let found = find_device(&split_whitespace(route));
            match found {
                Device::Missing => {},
                _ => {
                    return found;
                },
            }
        }
        assert(rest.skip(1) =~= views(table@).skip(i + 1));
        i += 1;
    }
    Device::Missing
}

/// The items of `items` in one string, with a comma and a space between each
/// two.
pub fn join(items: &Vec<String>) -> (joined: String)
    ensures
        joined@ == comma_separated(views(items@)),
{
    let mut joined = String::new();
    let mut i: usize = 0;
    while i < items.len()
        invariant
            i <= items.len(),
            joined@ == comma_separated(views(items@).take(i as int)),
        decreases items.len() - i,
    {
        let ghost done = views(items@).take(i as int);
        let ghost next = views(items@).take(i + 1);
        proof {
            assert(next.drop_last() =~= done);
            assert(next.last() == items@[i as int]@);
        }
        if i > 0 {
            joined.append(", ");
        }
        joined.append(items[i].as_str());
        proof {
            if i == 0 {
                assert(joined@ =~= next[0]);
            }
        }
        i += 1;
    }
    proof {
        assert(views(items@).take(items.len() as int) =~= views(items@));
    }
    joined
}

/// The global addresses that the address listing of a device shows, with a
/// comma and a space between each two.
pub fn global_addresses(listing: &str) -> (addresses: String)
    ensures
        addresses@ == comma_separated(addresses_in(listing@)),
{
    let ghost address = |line: Seq<char>| address_in(line);
    let entries = lines(listing);
    let mut found: Vec<String> = Vec::new();
    let mut i: usize = 0;
    proof {
        assert(views(entries@).take(0) =~= Seq::<Seq<char>>::empty());
        assert(views(found@) =~= Seq::<Seq<char>>::empty());
    }
    while i < entries.len()
        invariant
            i <= entries.len(),
            views(entries@) == split_lines(listing@),
            address == |line: Seq<char>| address_in(line),
            views(found@) == views(entries@).take(i as int).filter_map(address),
        decreases entries.len() - i,
    {
        let ghost before = views(found@);
        proof {
            views(entries@).lemma_filter_map_take_succ(address, i as int);
        }
        let entry = entries[i].as_str();
        if contains_text(entry, "global") {
            let parts = split_whitespace(entry);
            if parts.len() > 1 {
                assert(views(parts@)[1] == parts@[1]@);
                found.push(parts[1].clone());
                assert(views(found@) =~= before + seq![parts@[1]@]);
            }
        }
        i += 1;
    }
    proof {
        assert(views(entries@).take(entries.len() as int) =~= views(entries@));
    }
    join(&found)
}

} // verus!
