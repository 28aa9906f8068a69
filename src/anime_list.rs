use vstd::prelude::*;

verus! {

/// How far along an item of the catalog is.
#[derive(Debug, Clone, Copy, PartialEq, Eq, PartialOrd, Ord, Hash, Structural)]
pub enum Status {
    Ongoing,
    Completed,
}

/// Where a cursor over `len` items goes on "next": the first item when
/// nothing is selected, else one further, wrapping from the last to the first.
pub open spec fn next_index(sel: Option<usize>, len: nat) -> Option<usize> {
    if len == 0 {
        sel
    } else {
        match sel {
            None => Some(0),
            Some(i) => if i + 1 >= len { Some(0) } else { Some((i + 1) as usize) },
        }
    }
}

/// Where a cursor over `len` items goes on "previous": the first item when
/// nothing is selected, else one back, wrapping from the first to the last.
pub open spec fn prev_index(sel: Option<usize>, len: nat) -> Option<usize> {
    if len == 0 {
        sel
    } else {
        match sel {
            None => Some(0),
            Some(i) => if i == 0 { Some((len - 1) as usize) } else { Some((i - 1) as usize) },
        }
    }
}

/// The cursor after `k` moves on "next".
pub open spec fn next_times(sel: Option<usize>, len: nat, k: nat) -> Option<usize>
    decreases k,
{
    if k == 0 {
        sel
    } else {
        next_times(next_index(sel, len), len, (k - 1) as nat)
    }
}

/// Moving `a + b` times is moving `a` times, then `b` times.
pub proof fn lemma_next_times_split(sel: Option<usize>, len: nat, a: nat, b: nat)
    ensures
        next_times(sel, len, a + b) == next_times(next_times(sel, len, a), len, b),
    decreases a,
{
    if a > 0 {
        lemma_next_times_split(next_index(sel, len), len, (a - 1) as nat, b);
        assert((a + b - 1) as nat == (a - 1) as nat + b);
    }
}

/// Short of the end, `k` moves on "next" go `k` items further.
pub proof fn lemma_next_times_forward(i: usize, len: nat, k: nat)
    requires
        i + k < len,
        len <= usize::MAX,
    ensures
        next_times(Some(i), len, k) == Some((i + k) as usize),
    decreases k,
{
    if k > 0 {
        lemma_next_times_forward((i + 1) as usize, len, (k - 1) as nat);
    }
}

/// On a catalog of `len` items, `k` presses of "next" from no selection,
/// `1 <= k <= len`, select the item at `k - 1`: one press selects the first
/// item, and `len` presses reach the first item again only where `len` is 1.
pub proof fn lemma_next_from_none(len: nat, k: nat)
    requires
        1 <= k <= len,
        len <= usize::MAX,
    ensures
        next_times(None, len, k) == Some((k - 1) as usize),
        len == 1 ==> next_times(None, len, len) == Some(0usize),
{
    lemma_next_times_forward(0, len, (k - 1) as nat);
}

/// Full circular traversal: on a catalog of `len` items, `len` presses of
/// "next" bring any selection back to where it was.
pub proof fn lemma_next_full_cycle(len: nat, i: usize)
    requires
        i < len,
        len <= usize::MAX,
    ensures
        next_times(Some(i), len, len) == Some(i),
{
    let a = (len - 1 - i) as nat;
    lemma_next_times_split(Some(i), len, a, (len - a) as nat);
    lemma_next_times_forward(i, len, a);
    assert(next_times(Some(i), len, a) == Some((len - 1) as usize));
    let b = (len - a) as nat;
    assert(next_index(Some((len - 1) as usize), len) == Some(0usize));
    lemma_next_times_forward(0, len, (b - 1) as nat);
    assert(next_times(Some((len - 1) as usize), len, b) == next_times(Some(0usize), len, (b - 1) as nat));
}

/// With no selection, "next" and "previous" both select the first item.
pub proof fn lemma_first_press(len: nat)
    requires
        len > 0,
    ensures
        next_index(None, len) == Some(0usize),
        prev_index(None, len) == Some(0usize),
{
}

/// "Previous" from the first item wraps to the last.
pub proof fn lemma_previous_wraps(len: nat)
    requires
        0 < len <= usize::MAX,
    ensures
        prev_index(Some(0usize), len) == Some((len - 1) as usize),
{
}

/// The text shown for a status.
pub open spec fn status_text(s: Status) -> Seq<char> {
    match s {
        Status::Ongoing => "Ongoing"@,
        Status::Completed => "Completed"@,
    }
}

impl Status {
    /// The text under which this status is shown.
    pub fn label(&self) -> (r: &'static str)
        ensures
            r@ == status_text(*self),
    {
        match self {
            Status::Ongoing => "Ongoing",
            Status::Completed => "Completed",
        }
    }
}

/// One entry of the catalog. `image` names the picture shown for it, if any.
pub struct AnimeItem {
    pub name: String,
    pub image: Option<String>,
    pub description: String,
    pub status: Status,
}

/// An item as plain values.
pub struct ItemView {
    pub name: Seq<char>,
    pub image: Option<Seq<char>>,
    pub description: Seq<char>,
    pub status: Status,
}

pub open spec fn opt_text(o: Option<String>) -> Option<Seq<char>> {
    match o {
        Some(s) => Some(s@),
        None => None,
    }
}

impl View for AnimeItem {
    type V = ItemView;

    open spec fn view(&self) -> ItemView {
        ItemView {
            name: self.name@,
            image: opt_text(self.image),
            description: self.description@,
            status: self.status,
        }
    }
}

/// The catalog, in display order, with the selection cursor over it.
pub struct AnimeList {
    pub items: Vec<AnimeItem>,
    pub selected: Option<usize>,
}

/// The catalog as plain values.
pub struct CatalogView {
    pub items: Seq<ItemView>,
    pub selected: Option<usize>,
}

/// A cursor that is either empty or points into a sequence of `len` items.
pub open spec fn cursor_in_range(sel: Option<usize>, len: nat) -> bool {
    match sel {
        Some(i) => i < len,
        None => true,
    }
}

pub open spec fn item_views(items: Seq<AnimeItem>) -> Seq<ItemView> {
    items.map_values(|it: AnimeItem| it@)
}

impl View for AnimeList {
    type V = CatalogView;

    open spec fn view(&self) -> CatalogView {
        CatalogView { items: item_views(self.items@), selected: self.selected }
    }
}

impl CatalogView {
    pub open spec fn wf(self) -> bool {
        cursor_in_range(self.selected, self.items.len())
    }

    /// The catalog after the cursor moved on "next".
    pub open spec fn after_next(self) -> CatalogView {
        CatalogView { items: self.items, selected: next_index(self.selected, self.items.len()) }
    }

    /// The catalog after the cursor moved on "previous".
    pub open spec fn after_previous(self) -> CatalogView {
        CatalogView { items: self.items, selected: prev_index(self.selected, self.items.len()) }
    }

    /// The catalog with `item` added at the end; the cursor stays.
    pub open spec fn appended(self, item: ItemView) -> CatalogView {
        CatalogView { items: self.items.push(item), selected: self.selected }
    }

    /// The picture of the selected item, if an item is selected and has one.
    pub open spec fn selected_picture(self) -> Option<Seq<char>> {
        match self.selected {
            Some(i) => if i < self.items.len() { self.items[i as int].image } else { None },
            None => None,
        }
    }
}

/// The line under which an item stands in the list: its name and status.
pub open spec fn list_label(it: ItemView) -> Seq<char> {
    it.name + " - "@ + status_text(it.status)
}

/// The text of the details pane: the selected item's title, description and
/// status, or a note that nothing is selected.
pub open spec fn details_of(v: CatalogView) -> Seq<char> {
    match v.selected {
        Some(i) if i < v.items.len() => {
            let it = v.items[i as int];
            "Title: "@ + it.name + "\nDescription: "@ + it.description + "\nStatus: "@
                + status_text(it.status)
        },
        _ => "No item selected"@,
    }
}

/// The catalog that the browser starts with, nothing selected.
pub open spec fn seed_catalog() -> CatalogView {
    CatalogView {
        items: seq![
            ItemView {
                name: "Attack on Titan"@,
                image: Some("./src/assets/47347.jpg"@),
                description: "Humans fighting titans to survive"@,
                status: Status::Completed,
            },
            ItemView {
                name: "One Piece"@,
                image: Some("./src/assets/111305.jpg"@),
                description: "Pirate adventures to find the ultimate treasure"@,
                status: Status::Ongoing,
            },
            ItemView {
                name: "Naruto"@,
                image: Some("./src/assets/138851.jpg"@),
                description: "Ninja striving to become Hokage"@,
                status: Status::Completed,
            },
        ],
        selected: None,
    }
}

fn seed_item(name: &str, image: &str, description: &str, status: Status) -> (r: AnimeItem)
    ensures
        r@ == (ItemView {
            name: name@,
            image: Some(image@),
            description: description@,
            status,
        }),
{
    AnimeItem {
        name: String::from_str(name),
        image: Some(String::from_str(image)),
        description: String::from_str(description),
        status,
    }
}

impl Default for AnimeList {
    /// The built-in catalog, nothing selected.
    fn default() -> (r: AnimeList)
        ensures
            r@ == seed_catalog(),
            r.wf(),
    {
        let mut items: Vec<AnimeItem> = Vec::new();
        items.push(
            seed_item(
                "Attack on Titan",
                "./src/assets/47347.jpg",
                "Humans fighting titans to survive",
                Status::Completed,
            ),
        );
        items.push(
            seed_item(
                "One Piece",
                "./src/assets/111305.jpg",
                "Pirate adventures to find the ultimate treasure",
                Status::Ongoing,
            ),
        );
        items.push(
            seed_item(
                "Naruto",
                "./src/assets/138851.jpg",
                "Ninja striving to become Hokage",
                Status::Completed,
            ),
        );
        let r = AnimeList { items, selected: None };
        proof {
            assert(r@.items =~= seed_catalog().items);
        }
        r
    }
}

/// Adding an item while an item is selected keeps that selection, and the
/// selected index still names the same item.
pub proof fn lemma_append_keeps_selection(v: CatalogView, item: ItemView)
    requires
        v.wf(),
        v.selected is Some,
    ensures
        v.appended(item).wf(),
        v.appended(item).selected == v.selected,
        v.appended(item).items[v.selected->Some_0 as int] == v.items[v.selected->Some_0 as int],
{
}

impl AnimeList {
    /// The cursor points into the catalog, or nowhere.
    pub open spec fn wf(&self) -> bool {
        self@.wf()
    }

    /// Moves the cursor to the next item, wrapping to the first; the first
    /// item when nothing was selected; nothing on an empty catalog.
    pub fn select_next(&mut self)
        requires
            old(self).wf(),
        ensures
            final(self)@ == old(self)@.after_next(),
            final(self).wf(),
    {
        let len = self.items.len();
        if len == 0 {
            return;
        }
        let i: usize = match self.selected {
            Some(i) => if i >= len - 1 { 0 } else { i + 1 },
            None => 0,
        };
        self.selected = Some(i);
    }

    /// Moves the cursor to the previous item, wrapping to the last; the first
    /// item when nothing was selected; nothing on an empty catalog.
    pub fn select_previous(&mut self)
        requires
            old(self).wf(),
        ensures
            final(self)@ == old(self)@.after_previous(),
            final(self).wf(),
    {
        let len = self.items.len();
        if len == 0 {
            return;
        }
        let i: usize = match self.selected {
            Some(i) => if i == 0 { len - 1 } else { i - 1 },
            None => 0,
        };
        self.selected = Some(i);
    }

    /// The index of the selected item, if any.
    pub fn selected(&self) -> (r: Option<usize>)
        ensures
            r == self.selected,
    {
        self.selected
    }

    /// The line shown for each item of the catalog, in order.
    pub fn list_labels(&self) -> (r: Vec<String>)
        ensures
            r@.len() == self.items@.len(),
            forall|i: int| 0 <= i < r@.len() ==> #[trigger] r@[i]@ == list_label(self@.items[i]),
    {
        let mut r: Vec<String> = Vec::new();
        let mut k: usize = 0;
        while k < self.items.len()
            invariant
                k <= self.items@.len(),
                r@.len() == k,
                forall|i: int| 0 <= i < k ==> #[trigger] r@[i]@ == list_label(self@.items[i]),
            decreases self.items@.len() - k,
        {
            let it = &self.items[k];
            let line = it.name.clone().concat(" - ").concat(it.status.label());
            r.push(line);
            k = k + 1;
        }
        r
    }

    /// The text of the details pane for the current selection.
    pub fn details_text(&self) -> (r: String)
        requires
            self.wf(),
        ensures
            r@ == details_of(self@),
    {
        match self.selected {
            Some(i) => {
                let it = &self.items[i];
                String::from_str("Title: ").concat(it.name.as_str()).concat(
                    "\nDescription: ",
                ).concat(it.description.as_str()).concat("\nStatus: ").concat(it.status.label())
            },
            None => String::from_str("No item selected"),
        }
    }

    /// Adds an item at the end of the catalog; the cursor stays where it was.
    pub fn add_item(&mut self, item: AnimeItem)
        requires
            old(self).wf(),
        ensures
            final(self)@ == old(self)@.appended(item@),
            final(self).wf(),
    {
        self.items.push(item);
        proof {
            assert(item_views(self.items@) =~= item_views(old(self).items@).push(item@));
        }
    }

    /// The picture of the selected item, if an item is selected and has one.
    pub fn selected_image(&self) -> (r: Option<&String>)
        requires
            self.wf(),
        ensures
            match r {
                Some(p) => self@.selected_picture() == Some(p@),
                None => self@.selected_picture() is None,
            },
    {
        match self.selected {
            Some(i) => self.items[i].image.as_ref(),
            None => None,
        }
    }
}

} // verus!
