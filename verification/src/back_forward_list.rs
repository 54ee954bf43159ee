use vstd::prelude::*;

verus! {

/// Wraps `WKBackForwardListItem`.
#[derive(Debug, Clone, PartialEq, Eq)]
pub struct BackForwardListItem {
    /// Mirrors the `relative_index` value exposed by `WKBackForwardListItem`.
    pub relative_index: isize,
    /// Mirrors the `url` value exposed by `WKBackForwardListItem`.
    pub url: String,
    /// Mirrors the `title` value exposed by `WKBackForwardListItem`.
    pub title: Option<String>,
    /// Mirrors the `initial_url` value exposed by `WKBackForwardListItem`.
    pub initial_url: String,
}

/// Wraps `WKBackForwardList`: the history items, each with its index relative to the
/// current item (negative behind it, positive ahead of it, zero for the current item).
#[derive(Debug, Clone, PartialEq, Eq)]
pub struct BackForwardList {
    items: Vec<BackForwardListItem>,
}

impl View for BackForwardList {
    type V = Seq<BackForwardListItem>;

    closed spec fn view(&self) -> Seq<BackForwardListItem> {
        self.items@
    }
}

/// `pos` is the first position in `items` of an item with relative index `index`.
pub open spec fn first_position(items: Seq<BackForwardListItem>, index: int, pos: int) -> bool {
    &&& 0 <= pos < items.len()
    &&& items[pos].relative_index == index
    &&& forall|j: int| 0 <= j < pos ==> items[j].relative_index != index
}

/// Some item of `items` has relative index `index`.
pub open spec fn has_index(items: Seq<BackForwardListItem>, index: int) -> bool {
    exists|i: int| 0 <= i < items.len() && items[i].relative_index == index
}

/// What looking up `index` in `items` gives: the first item with that relative index,
/// or nothing when there is none.
pub open spec fn lookup_matches(
    items: Seq<BackForwardListItem>,
    index: int,
    found: Option<BackForwardListItem>,
) -> bool {
    match found {
        Some(item) => exists|pos: int| first_position(items, index, pos) && items[pos] == item,
        None => !has_index(items, index),
    }
}

/// The items behind the current one, in list order.
pub open spec fn back_items(items: Seq<BackForwardListItem>) -> Seq<BackForwardListItem> {
    items.filter(|item: BackForwardListItem| item.relative_index < 0)
}

/// The items ahead of the current one, in list order.
pub open spec fn forward_items(items: Seq<BackForwardListItem>) -> Seq<BackForwardListItem> {
    items.filter(|item: BackForwardListItem| item.relative_index > 0)
}

/// The items at relative index zero, in list order.
pub open spec fn current_items(items: Seq<BackForwardListItem>) -> Seq<BackForwardListItem> {
    items.filter(|item: BackForwardListItem| item.relative_index == 0)
}

impl Default for BackForwardList {
    /// The empty history.
    fn default() -> (list: Self)
        ensures
            list@ == Seq::<BackForwardListItem>::empty(),
    {
        BackForwardList { items: Vec::new() }
    }
}

impl BackForwardList {
    /// A list holding `items` in the order given.
    #[must_use]
    pub fn from_items(items: Vec<BackForwardListItem>) -> (list: Self)
        ensures
            list@ == items@,
    {
        BackForwardList { items }
    }

    /// Returns the corresponding value from `WKBackForwardList`: all items, in order.
    #[must_use]
    pub fn items(&self) -> (items: &[BackForwardListItem])
        ensures
            items@ == self@,
    {
        self.items.as_slice()
    }

    /// Mirrors the corresponding `WKBackForwardList` API: the first item whose relative
    /// index is `index`, if any.
    #[must_use]
    pub fn item_at_index(&self, index: isize) -> (found: Option<&BackForwardListItem>)
        ensures
            lookup_matches(
                self@,
                index as int,
                match found {
                    Some(r) => Some(*r),
                    None => None,
                },
            ),
    {
        let mut i: usize = 0;
        while i < self.items.len()
            invariant
                i <= self.items@.len(),
                forall|j: int| 0 <= j < i ==> self.items@[j].relative_index != index,
            decreases self.items@.len() - i,
        {
            if self.items[i].relative_index == index {
                proof {
                    assert(first_position(self@, index as int, i as int));
                }
                return Some(&self.items[i]);
            }
            i = i + 1;
        }
        None
    }

    /// Returns the corresponding value from `WKBackForwardList`: the first item at
    /// relative index 0.
    #[must_use]
    pub fn current_item(&self) -> (found: Option<&BackForwardListItem>)
        ensures
            lookup_matches(
                self@,
                0,
                match found {
                    Some(r) => Some(*r),
                    None => None,
                },
            ),
    {
        self.item_at_index(0)
    }

    /// Returns the corresponding value from `WKBackForwardList`: the first item at
    /// relative index -1.
    #[must_use]
    pub fn back_item(&self) -> (found: Option<&BackForwardListItem>)
        ensures
            lookup_matches(
                self@,
                -1,
                match found {
                    Some(r) => Some(*r),
                    None => None,
                },
            ),
    {
        self.item_at_index(-1)
    }

    /// Returns the corresponding value from `WKBackForwardList`: the first item at
    /// relative index 1.
    #[must_use]
    pub fn forward_item(&self) -> (found: Option<&BackForwardListItem>)
        ensures
            lookup_matches(
                self@,
                1,
                match found {
                    Some(r) => Some(*r),
                    None => None,
                },
            ),
    {
        self.item_at_index(1)
    }

    /// Returns the corresponding value from `WKBackForwardList`: the items with a
    /// negative relative index, in list order.
    #[must_use]
    pub fn back_list(&self) -> (back: Vec<&BackForwardListItem>)
        ensures
            back@.map_values(|r: &BackForwardListItem| *r) == back_items(self@),
    {
        let mut back: Vec<&BackForwardListItem> = Vec::new();
        let mut i: usize = 0;
        while i < self.items.len()
            invariant
                i <= self.items@.len(),
                back@.map_values(|r: &BackForwardListItem| *r) == back_items(
                    self.items@.take(i as int),
                ),
            decreases self.items@.len() - i,
        {
            proof {
                reveal_with_fuel(Seq::<_>::filter, 1);
                assert(self.items@.take(i + 1).drop_last() =~= self.items@.take(i as int));
            }
            if self.items[i].relative_index < 0 {
                back.push(&self.items[i]);
            }
            proof {
                assert(back@.map_values(|r: &BackForwardListItem| *r) =~= back_items(
                    self.items@.take(i + 1),
                ));
            }
            i = i + 1;
        }
        proof {
            assert(self.items@.take(self.items@.len() as int) =~= self.items@);
        }
        back
    }

    /// Returns the corresponding value from `WKBackForwardList`: the items with a
    /// positive relative index, in list order.
    #[must_use]
    pub fn forward_list(&self) -> (forward: Vec<&BackForwardListItem>)
        ensures
            forward@.map_values(|r: &BackForwardListItem| *r) == forward_items(self@),
    {
        let mut forward: Vec<&BackForwardListItem> = Vec::new();
        let mut i: usize = 0;
        while i < self.items.len()
            invariant
                i <= self.items@.len(),
                forward@.map_values(|r: &BackForwardListItem| *r) == forward_items(
                    self.items@.take(i as int),
                ),
            decreases self.items@.len() - i,
        {
            proof {
                reveal_with_fuel(Seq::<_>::filter, 1);
                assert(self.items@.take(i + 1).drop_last() =~= self.items@.take(i as int));
            }
            if self.items[i].relative_index > 0 {
                forward.push(&self.items[i]);
            }
            proof {
                assert(forward@.map_values(|r: &BackForwardListItem| *r) =~= forward_items(
                    self.items@.take(i + 1),
                ));
            }
            i = i + 1;
        }
        proof {
            assert(self.items@.take(self.items@.len() as int) =~= self.items@);
        }
        forward
    }
}

/// Every history item is behind, at, or ahead of the current position: the back
/// items, the items at relative index zero and the forward items together number
/// exactly the items of the list.
pub proof fn lemma_history_partition(items: Seq<BackForwardListItem>)
    ensures
        back_items(items).len() + current_items(items).len() + forward_items(items).len()
            == items.len(),
    decreases items.len(),
{
    reveal_with_fuel(Seq::<_>::filter, 1);
    if items.len() > 0 {
        lemma_history_partition(items.drop_last());
    }
}

} // verus!
