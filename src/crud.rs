//! The CRUD exercise: a list of "Surname, Name" entries that can be filtered
//! by a case-insensitive search string, appended to, edited and deleted.
use vstd::prelude::*;

verus! {

/// What `str::to_lowercase` makes of a string.
pub uninterp spec fn lower_of(s: Seq<char>) -> Seq<char>;

/// Relies on `str::to_lowercase`: its result depends on the characters alone.
#[verifier::external_body]
fn lowercase(s: &str) -> (r: String)
    ensures
        r@ == lower_of(s@),
{
    s.to_lowercase()
}

/// `needle` occurs in `hay` as a run of consecutive characters.
pub open spec fn occurs_in(needle: Seq<char>, hay: Seq<char>) -> bool {
    exists|i: int|
        0 <= i && i + needle.len() <= hay.len() && #[trigger] hay.subrange(i, i + needle.len())
            == needle
}

/// Whether `needle` occurs at position `at` of `hay`.
fn occurs_at(needle: &Vec<char>, hay: &Vec<char>, at: usize) -> (r: bool)
    requires
        at + needle@.len() <= hay@.len(),
    ensures
        r == (hay@.subrange(at as int, at + needle@.len()) == needle@),
{
    let hay_len = hay.len();
    let mut k: usize = 0;
    while k < needle.len()
        invariant
            hay_len == hay@.len(),
            k <= needle@.len(),
            at + needle@.len() <= hay@.len(),
            forall|j: int| 0 <= j < k ==> hay@[at + j] == needle@[j],
        decreases needle.len() - k,
    {
        if hay[at + k] != needle[k] {
            assert(hay@.subrange(at as int, at + needle@.len())[k as int] != needle@[k as int]);
            return false;
        }
        k = k + 1;
    }
    assert(hay@.subrange(at as int, at + needle@.len()) =~= needle@);
    true
}

/// Whether the search string `needle` occurs in `item`, both already
/// brought to lower case.
pub fn matches_folded(needle: &str, item: &str) -> (r: bool)
    ensures
        r == occurs_in(needle@, item@),
{
    let n = crate::text::chars_of(needle);
    let h = crate::text::chars_of(item);
    if n.len() > h.len() {
        return false;
    }
    let last = h.len() - n.len();
    let mut at: usize = 0;
    while at <= last
        invariant
            last == h@.len() - n@.len(),
            n@ == needle@,
            h@ == item@,
            forall|i: int| 0 <= i < at ==> #[trigger] h@.subrange(i, i + n@.len()) != n@,
        decreases last + 1 - at,
    {
        if occurs_at(&n, &h, at) {
            return true;
        }
        if at == last {
            return false;
        }
        at = at + 1;
    }
    false
}

/// An entry of the list; `index` is its position in the full list.
#[derive(Clone, PartialEq, Debug)]
pub struct ListItem {
    pub index: usize,
    pub item: String,
}

impl ListItem {
    pub fn new(i: usize, s: String) -> (r: ListItem)
        ensures
            r.index == i,
            r.item@ == s@,
    {
        ListItem { index: i, item: s }
    }
}

/// The entries as (index, text) pairs.
pub open spec fn entries(v: Seq<ListItem>) -> Seq<(usize, Seq<char>)> {
    Seq::new(v.len(), |k: int| (v[k].index, v[k].item@))
}

/// The entries whose lower-cased text contains `folded`, in order.
pub open spec fn entries_matching(v: Seq<(usize, Seq<char>)>, folded: Seq<char>) -> Seq<
    (usize, Seq<char>),
>
    decreases v.len(),
{
    if v.len() == 0 {
        v
    } else if occurs_in(folded, lower_of(v.last().1)) {
        entries_matching(v.drop_last(), folded).push(v.last())
    } else {
        entries_matching(v.drop_last(), folded)
    }
}

/// The texts of `v` numbered afresh from zero.
pub open spec fn renumbered(v: Seq<ListItem>) -> Seq<(usize, Seq<char>)> {
    Seq::new(v.len(), |k: int| (k as usize, v[k].item@))
}

/// The text of an entry made from a surname and a name.
pub open spec fn entry_text(surname: Seq<char>, name: Seq<char>) -> Seq<char> {
    surname + ", "@ + name
}

/// A copy of `v` with each entry's index set to its position.
pub fn reindex(v: &Vec<ListItem>) -> (r: Vec<ListItem>)
    ensures
        entries(r@) == renumbered(v@),
{
    let mut r: Vec<ListItem> = Vec::new();
    let mut k: usize = 0;
    while k < v.len()
        invariant
            k <= v@.len(),
            r@.len() == k,
            forall|j: int| 0 <= j < k ==> (#[trigger] r@[j]).index == j && r@[j].item@ == v@[j].item@,
        decreases v.len() - k,
    {
        r.push(ListItem::new(k, v[k].item.clone()));
        k = k + 1;
    }
    assert(entries(r@) =~= renumbered(v@));
    r
}

/// The editor's state: the search string, the two name fields, the list,
/// and the selected entry.
#[derive(Clone, PartialEq, Debug)]
pub struct AppData {
    pub prefix: String,
    pub name: String,
    pub surname: String,
    pub list: Vec<ListItem>,
    pub current: Option<usize>,
}

impl AppData {
    /// Each entry's index is its position, and a selection names an entry.
    pub open spec fn wf(&self) -> bool {
        &&& forall|k: int| 0 <= k < self.list@.len() ==> (#[trigger] self.list@[k]).index == k
        &&& self.current matches Some(i) ==> i < self.list@.len()
    }

    /// Three entries, no search string, nothing selected.
    pub fn new() -> (r: AppData)
        ensures
            entries(r.list@) == seq![
                (0usize, "Emil, Hans"@),
                (1usize, "Mustermann, Max"@),
                (2usize, "Tisch, Roman"@),
            ],
            r.prefix@ == ""@,
            r.name@ == "John"@,
            r.surname@ == "Romba"@,
            r.current is None,
            r.wf(),
    {
        let list = vec![
            ListItem::new(0, String::from_str("Emil, Hans")),
            ListItem::new(1, String::from_str("Mustermann, Max")),
            ListItem::new(2, String::from_str("Tisch, Roman")),
        ];
        let r = AppData {
            prefix: String::from_str(""),
            name: String::from_str("John"),
            surname: String::from_str("Romba"),
            list,
            current: None,
        };
        assert(entries(r.list@) =~= seq![
            (0usize, "Emil, Hans"@),
            (1usize, "Mustermann, Max"@),
            (2usize, "Tisch, Roman"@),
        ]);
        r
    }

    /// The entries whose text contains the search string, ignoring case.
    pub fn filter(&self) -> (r: Vec<ListItem>)
        ensures
            entries(r@) == entries_matching(entries(self.list@), lower_of(self.prefix@)),
    {
        let f = lowercase(self.prefix.as_str());
        let mut r: Vec<ListItem> = Vec::new();
        let mut k: usize = 0;
        while k < self.list.len()
            invariant
                k <= self.list@.len(),
                f@ == lower_of(self.prefix@),
                entries(r@) == entries_matching(entries(self.list@).take(k as int), f@),
            decreases self.list.len() - k,
        {
            let ghost all = entries(self.list@);
            assert(all.take(k + 1).drop_last() == all.take(k as int));
            assert(all.take(k + 1).last() == all[k as int]);
            let it = &self.list[k];
            let l = lowercase(it.item.as_str());
            if matches_folded(f.as_str(), l.as_str()) {
                let ghost before = entries(r@);
                r.push(ListItem::new(it.index, it.item.clone()));
                assert(entries(r@) =~= before.push(all[k as int]));
            } else {
            }
            k = k + 1;
        }
        assert(entries(self.list@).take(self.list@.len() as int) == entries(self.list@));
        r
    }

    /// Marks entry `index` as selected.
    pub fn select(&mut self, index: usize)
        requires
            old(self).wf(),
            index < old(self).list@.len(),
        ensures
            final(self).current == Some(index),
            final(self).list@ == old(self).list@,
            final(self).wf(),
    {
        self.current = Some(index);
    }

    /// Appends an entry "surname, name" at the end of the list.
    pub fn create(&mut self)
        requires
            old(self).wf(),
        ensures
            entries(final(self).list@) == entries(old(self).list@).push(
                (old(self).list@.len() as usize, entry_text(old(self).surname@, old(self).name@)),
            ),
            final(self).current == old(self).current,
            final(self).wf(),
    {
        let mut s = self.surname.clone();
        s.append(", ");
        s.append(self.name.as_str());
        let n = self.list.len();
        self.list.push(ListItem::new(n, s));
        assert(entries(self.list@) =~= entries(old(self).list@).push(
            (n, entry_text(old(self).surname@, old(self).name@)),
        ));
    }

    /// Replaces the text of the selected entry by "surname, name"; without a
    /// selection nothing changes.
    pub fn update(&mut self)
        requires
            old(self).wf(),
        ensures
            entries(final(self).list@) == match old(self).current {
                Some(i) => entries(old(self).list@).update(
                    i as int,
                    (i, entry_text(old(self).surname@, old(self).name@)),
                ),
                None => entries(old(self).list@),
            },
            final(self).current == old(self).current,
            final(self).wf(),
    {
        if let Some(i) = self.current {
            let mut s = self.surname.clone();
            s.append(", ");
            s.append(self.name.as_str());
            self.list.set(i, ListItem::new(i, s));
            assert(entries(self.list@) =~= entries(old(self).list@).update(
                i as int,
                (i, entry_text(old(self).surname@, old(self).name@)),
            ));
        }
    }

    /// Removes the selected entry, numbers the rest afresh and clears the
    /// selection; without a selection nothing changes.
    pub fn delete(&mut self)
        requires
            old(self).wf(),
        ensures
            entries(final(self).list@) == match old(self).current {
                Some(i) => renumbered(old(self).list@.remove(i as int)),
                None => entries(old(self).list@),
            },
            final(self).current is None,
            final(self).wf(),
    {
        if let Some(i) = self.current {
            self.list.remove(i);
            self.list = reindex(&self.list);
            self.current = None;
            let n = self.list.len();
            assert forall|k: int| 0 <= k < self.list@.len() implies (
            #[trigger] self.list@[k]).index == k by {
                let removed = old(self).list@.remove(i as int);
                assert(entries(self.list@).len() == self.list@.len());
                assert(renumbered(removed).len() == removed.len());
                assert(entries(self.list@)[k] == renumbered(removed)[k]);
                assert(entries(self.list@)[k].0 == self.list@[k].index);
                assert(renumbered(removed)[k].0 == k as usize);
            }
        }
    }
}

} // verus!
