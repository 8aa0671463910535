//! The wordlists that can be chosen: the regular files of the wordlist
//! directory.

use vstd::prelude::*;
use crate::control::option_view;
use crate::text::views;

verus! {

/// What a directory listing tells of one entry.
#[derive(Debug, PartialEq, Eq)]
pub struct Listed {
    /// Whether the entry is a regular file, where its kind is known.
    pub is_file: Option<bool>,
    /// The entry's name, where it is valid Unicode.
    pub name: Option<String>,
}

/// Mathematical value of a [`Listed`].
pub struct ListedView {
    pub is_file: Option<bool>,
    pub name: Option<Seq<char>>,
}

impl View for Listed {
    type V = ListedView;

    open spec fn view(&self) -> ListedView {
        ListedView { is_file: self.is_file, name: option_view(self.name) }
    }
}

/// The views of a listing. An entry that could not be read is `None`.
pub open spec fn listing_view(entries: Seq<Option<Listed>>) -> Seq<Option<ListedView>> {
    entries.map_values(
        |entry: Option<Listed>|
            match entry {
                Some(entry) => Some(entry@),
                None => None,
            },
    )
}

/// The wordlist that an entry offers: its name, if it is known to be a regular
/// file and has a name that can be shown.
pub open spec fn wordlist_name(entry: Option<ListedView>) -> Option<Seq<char>> {
    match entry {
        Some(entry) => if entry.is_file == Some(true) {
            entry.name
        } else {
            None
        },
        None => None,
    }
}

/// The wordlists that a listing offers, in the order of the listing.
pub open spec fn wordlist_names(entries: Seq<Option<ListedView>>) -> Seq<Seq<char>> {
    entries.filter_map(|entry: Option<ListedView>| wordlist_name(entry))
}

/// The wordlists that can be chosen, given the listing of the wordlist
/// directory.
pub fn list_wordlists(entries: &Vec<Option<Listed>>) -> (options: Vec<String>)
    ensures
        views(options@) == wordlist_names(listing_view(entries@)),
{
    let ghost name = |entry: Option<ListedView>| wordlist_name(entry);
    let ghost listing = listing_view(entries@);
    let mut options: Vec<String> = Vec::new();
    let mut i: usize = 0;
    proof {
        assert(listing.take(0) =~= Seq::<Option<ListedView>>::empty());
        assert(views(options@) =~= Seq::<Seq<char>>::empty());
    }
    while i < entries.len()
        invariant
            i <= entries.len(),
            listing == listing_view(entries@),
            name == |entry: Option<ListedView>| wordlist_name(entry),
            views(options@) == listing.take(i as int).filter_map(name),
        decreases entries.len() - i,
    {
        let ghost before = views(options@);
        proof {
            listing.lemma_filter_map_take_succ(name, i as int);
        }
        if let Some(entry) = &entries[i] {
            if let (Some(true), Some(file_name)) = (entry.is_file, &entry.name) {
                options.push(file_name.clone());
                assert(views(options@) =~= before + seq![file_name@]);
            }
        }
        i += 1;
    }
    proof {
        assert(listing.take(entries.len() as int) =~= listing);
    }
    options
}

} // verus!
