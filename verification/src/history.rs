//! The history of recognitions: the operations on its list, newest first,
//! and the cache that spares reading the backing file again.
//!
//! The cache remembers the list together with the modification time that
//! the backing file had when the list was read or written. A lookup with
//! the file's present modification time answers from memory as long as that
//! time is the remembered one. Every change of the list is written to the
//! file first and then recorded in the cache with the file's new time, so
//! the next lookup sees it.

use vstd::prelude::*;
use vstd::string::*;

use crate::data_models::{views, HistoryItem, HistoryItemView};
use crate::text::str_eq;

verus! {

/// When a file was last modified: whole seconds since the Unix epoch,
/// negative before it, and the nanoseconds on top.
#[derive(Debug, Clone, Copy, PartialEq, Eq, Structural)]
pub struct ModificationTime {
    pub seconds: i64,
    pub nanos: u32,
}

/// Why an operation on the history failed.
#[derive(Debug)]
pub enum HistoryError {
    /// No record has this id.
    NotFound { id: String },
    /// Neither spelling of the favorite flag was given.
    MissingFavorite,
}

/// What a `HistoryError` holds, with every text as a sequence of characters.
pub enum HistoryErrorView {
    NotFound { id: Seq<char> },
    MissingFavorite,
}

impl View for HistoryError {
    type V = HistoryErrorView;

    open spec fn view(&self) -> HistoryErrorView {
        match self {
            HistoryError::NotFound { id } => HistoryErrorView::NotFound { id: id@ },
            HistoryError::MissingFavorite => HistoryErrorView::MissingFavorite,
        }
    }
}

impl HistoryErrorView {
    /// The message of the error.
    pub open spec fn text(self) -> Seq<char> {
        match self {
            HistoryErrorView::NotFound { id } => "Item with ID '"@ + id + "' not found"@,
            HistoryErrorView::MissingFavorite => "missing is_favorite/isFavorite"@,
        }
    }
}

impl HistoryError {
    /// The message of the error.
    pub fn message(&self) -> (r: String)
        ensures
            r@ == self@.text(),
    {
        match self {
            HistoryError::NotFound { id } => {
                let mut r = String::from_str("Item with ID '");
                r.append(id.as_str());
                r.append("' not found");
                r
            },
            HistoryError::MissingFavorite => String::from_str("missing is_favorite/isFavorite"),
        }
    }
}

// ---------------------------------------------------------------------
// The list
// ---------------------------------------------------------------------

/// The index of the first record with the given id.
pub open spec fn position_of(items: Seq<HistoryItemView>, id: Seq<char>) -> Option<int> {
    if exists|i: int| 0 <= i < items.len() && (#[trigger] items[i]).id == id {
        Some(
            choose|i: int|
                0 <= i < items.len() && (#[trigger] items[i]).id == id && forall|j: int|
                    0 <= j < i ==> (#[trigger] items[j]).id != id,
        )
    } else {
        None
    }
}

/// `position_of` names a record with the id, and the first of them.
pub proof fn lemma_position_of(items: Seq<HistoryItemView>, id: Seq<char>)
    ensures
        match position_of(items, id) {
            Some(at) => {
                &&& 0 <= at < items.len()
                &&& items[at].id == id
                &&& forall|j: int| 0 <= j < at ==> (#[trigger] items[j]).id != id
            },
            None => forall|j: int| 0 <= j < items.len() ==> (#[trigger] items[j]).id != id,
        },
{
    if exists|i: int| 0 <= i < items.len() && (#[trigger] items[i]).id == id {
        lemma_first_with_id_exists(items, id, items.len() as int);
    }
}

proof fn lemma_first_with_id_exists(items: Seq<HistoryItemView>, id: Seq<char>, upto: int)
    requires
        0 <= upto <= items.len(),
        exists|i: int| 0 <= i < upto && (#[trigger] items[i]).id == id,
    ensures
        exists|i: int|
            0 <= i < items.len() && (#[trigger] items[i]).id == id && forall|j: int|
                0 <= j < i ==> (#[trigger] items[j]).id != id,
    decreases upto,
{
    let last = upto - 1;
    if exists|i: int| 0 <= i < last && (#[trigger] items[i]).id == id {
        lemma_first_with_id_exists(items, id, last);
    } else {
        assert(items[last].id == id);
        assert(forall|j: int| 0 <= j < last ==> (#[trigger] items[j]).id != id);
    }
}

/// The records whose id is not the given one, in their order.
pub open spec fn without_id(items: Seq<HistoryItemView>, id: Seq<char>) -> Seq<HistoryItemView>
    decreases items.len(),
{
    if items.len() == 0 {
        items
    } else if items.last().id == id {
        without_id(items.drop_last(), id)
    } else {
        without_id(items.drop_last(), id).push(items.last())
    }
}

/// What is left without an id holds no record with that id, and it is as
/// long as the list exactly when the list held none.
pub proof fn lemma_without_id(items: Seq<HistoryItemView>, id: Seq<char>)
    ensures
        without_id(items, id).len() <= items.len(),
        forall|j: int|
            0 <= j < without_id(items, id).len() ==> (#[trigger] without_id(items, id)[j]).id
                != id,
        without_id(items, id).len() == items.len() <==> position_of(items, id) is None,
        position_of(items, id) is None ==> without_id(items, id) == items,
    decreases items.len(),
{
    lemma_position_of(items, id);
    if items.len() > 0 {
        let front = items.drop_last();
        lemma_without_id(front, id);
        lemma_position_of(front, id);
        if items.last().id != id {
            if position_of(front, id) is None {
                assert forall|j: int| 0 <= j < items.len() implies (#[trigger] items[j]).id
                    != id by {
                    if j < front.len() {
                        assert(front[j] == items[j]);
                    }
                }
                assert(without_id(items, id) =~= items);
            } else {
                let at = position_of(front, id)->0;
                assert(items[at] == front[at]);
            }
        }
    }
}

/// The list with a record put before all others.
pub fn prepend(history: Vec<HistoryItem>, item: HistoryItem) -> (r: Vec<HistoryItem>)
    ensures
        views(r@) == seq![item@] + views(history@),
{
    let mut r = history;
    r.insert(0, item);
    assert(views(r@) =~= seq![item@] + views(history@));
    r
}

/// The index of the first record with the given id.
pub fn find_item(history: &Vec<HistoryItem>, id: &str) -> (r: Option<usize>)
    ensures
        match r {
            Some(at) => position_of(views(history@), id@) == Some(at as int) && at
                < history.len(),
            None => position_of(views(history@), id@) is None,
        },
{
    let ghost items = views(history@);
    proof {
        lemma_position_of(items, id@);
    }
    let mut i: usize = 0;
    while i < history.len()
        invariant
            i <= history.len(),
            items == views(history@),
            forall|j: int| 0 <= j < i ==> (#[trigger] items[j]).id != id@,
        decreases history.len() - i,
    {
        if str_eq(history[i].id.as_str(), id) {
            assert(items[i as int].id == id@);
            return Some(i);
        }
        i = i + 1;
    }
    None
}

/// The list without every record that has the given id. A list that holds
/// no such record is refused.
pub fn delete_item(history: Vec<HistoryItem>, id: &str) -> (r: Result<
    Vec<HistoryItem>,
    HistoryError,
>)
    ensures
        match position_of(views(history@), id@) {
            Some(_) => r matches Ok(left) && views(left@) == without_id(views(history@), id@),
            None => r matches Err(e) && e@ == (HistoryErrorView::NotFound { id: id@ }),
        },
{
    let ghost items = views(history@);
    let before = history.len();
    let mut left: Vec<HistoryItem> = Vec::new();
    let mut i: usize = 0;
    assert(items.take(0) =~= Seq::empty());
    while i < history.len()
        invariant
            i <= history.len(),
            before == history.len(),
            items == views(history@),
            views(left@) == without_id(items.take(i as int), id@),
        decreases history.len() - i,
    {
        proof {
            assert(items.take(i + 1).drop_last() =~= items.take(i as int));
            assert(items.take(i + 1).last() == items[i as int]);
        }
        if !str_eq(history[i].id.as_str(), id) {
            let ghost shown = views(left@);
            left.push(history[i].clone());
            assert(views(left@) =~= shown.push(items[i as int]));
        }
        i = i + 1;
    }
    proof {
        assert(items.take(i as int) =~= items);
        lemma_without_id(items, id@);
    }
    if left.len() == before {
        Err(HistoryError::NotFound { id: String::from_str(id) })
    } else {
        Ok(left)
    }
}

/// The list with the title of the given record replaced.
pub open spec fn with_title(items: Seq<HistoryItemView>, at: int, title: Seq<char>) -> Seq<
    HistoryItemView,
> {
    items.update(at, HistoryItemView { title, ..items[at] })
}

/// The list with the favorite flag of the given record replaced.
pub open spec fn with_favorite(items: Seq<HistoryItemView>, at: int, is_favorite: bool) -> Seq<
    HistoryItemView,
> {
    items.update(at, HistoryItemView { is_favorite, ..items[at] })
}

/// The list with a new title for the first record that has the given id.
/// A list that holds no such record is refused.
pub fn update_title(history: Vec<HistoryItem>, id: &str, title: String) -> (r: Result<
    Vec<HistoryItem>,
    HistoryError,
>)
    ensures
        match position_of(views(history@), id@) {
            Some(at) => r matches Ok(changed) && views(changed@) == with_title(
                views(history@),
                at,
                title@,
            ),
            None => r matches Err(e) && e@ == (HistoryErrorView::NotFound { id: id@ }),
        },
{
    match find_item(&history, id) {
        Some(at) => {
            let mut changed = history;
            let mut item = changed[at].clone();
            item.title = title;
            changed.set(at, item);
            assert(views(changed@) =~= with_title(views(history@), at as int, title@));
            Ok(changed)
        },
        None => Err(HistoryError::NotFound { id: String::from_str(id) }),
    }
}

/// The list with a new favorite flag for the first record that has the
/// given id. A list that holds no such record is refused.
pub fn update_favorite(history: Vec<HistoryItem>, id: &str, is_favorite: bool) -> (r: Result<
    Vec<HistoryItem>,
    HistoryError,
>)
    ensures
        match position_of(views(history@), id@) {
            Some(at) => r matches Ok(changed) && views(changed@) == with_favorite(
                views(history@),
                at,
                is_favorite,
            ),
            None => r matches Err(e) && e@ == (HistoryErrorView::NotFound { id: id@ }),
        },
{
    match find_item(&history, id) {
        Some(at) => {
            let mut changed = history;
            let mut item = changed[at].clone();
            item.is_favorite = is_favorite;
            changed.set(at, item);
            assert(views(changed@) =~= with_favorite(views(history@), at as int, is_favorite));
            Ok(changed)
        },
        None => Err(HistoryError::NotFound { id: String::from_str(id) }),
    }
}

/// The favorite flag of a request that may spell it in either of two ways;
/// the first spelling goes before the second.
pub fn favorite_argument(is_favorite: Option<bool>, alternative: Option<bool>) -> (r: Result<
    bool,
    HistoryError,
>)
    ensures
        match (is_favorite, alternative) {
            (Some(flag), _) => r == Ok::<bool, HistoryError>(flag),
            (None, Some(flag)) => r == Ok::<bool, HistoryError>(flag),
            (None, None) => r matches Err(e) && e@ == HistoryErrorView::MissingFavorite,
        },
{
    match is_favorite {
        Some(flag) => Ok(flag),
        None => match alternative {
            Some(flag) => Ok(flag),
            None => Err(HistoryError::MissingFavorite),
        },
    }
}

// ---------------------------------------------------------------------
// The cache
// ---------------------------------------------------------------------

/// What the cache holds: the list, and the modification time of the backing
/// file that goes with it.
pub struct HistoryCacheView {
    pub last_mtime: Option<ModificationTime>,
    pub data: Seq<HistoryItemView>,
}

/// The list of the history kept in memory.
pub struct HistoryCache {
    last_mtime: Option<ModificationTime>,
    data: Vec<HistoryItem>,
}

impl View for HistoryCache {
    type V = HistoryCacheView;

    closed spec fn view(&self) -> HistoryCacheView {
        HistoryCacheView { last_mtime: self.last_mtime, data: views(self.data@) }
    }
}

impl HistoryCacheView {
    /// What a lookup answers when the backing file has the modification
    /// time `current`: the list kept, where it goes with that time.
    pub open spec fn lookup(self, current: ModificationTime) -> Option<Seq<HistoryItemView>> {
        if self.last_mtime == Some(current) {
            Some(self.data)
        } else {
            None
        }
    }

    /// The cache after the list was read from the backing file.
    pub open spec fn refreshed(current: ModificationTime, data: Seq<HistoryItemView>)
        -> HistoryCacheView {
        HistoryCacheView { last_mtime: Some(current), data }
    }

    /// The cache after a changed list was written to the backing file, and
    /// the file's modification time was asked for.
    pub open spec fn recorded(data: Seq<HistoryItemView>, written: Option<ModificationTime>)
        -> HistoryCacheView {
        HistoryCacheView { last_mtime: written, data }
    }

    /// What getting the history comes to when the backing file has the
    /// modification time `current` and holds `stored`: the cache afterwards,
    /// the list returned, and whether the file was read.
    pub open spec fn after_get(self, current: ModificationTime, stored: Seq<HistoryItemView>) -> (
        HistoryCacheView,
        Seq<HistoryItemView>,
        bool,
    ) {
        match self.lookup(current) {
            Some(data) => (self, data, false),
            None => (Self::refreshed(current, stored), stored, true),
        }
    }
}

fn clone_items(items: &Vec<HistoryItem>) -> (r: Vec<HistoryItem>)
    ensures
        views(r@) == views(items@),
{
    let r = items.clone();
    assert(views(r@) =~= views(items@));
    r
}

impl HistoryCache {
    /// A cache that holds nothing yet.
    pub fn new() -> (r: HistoryCache)
        ensures
            r@.last_mtime is None,
            r@.data == Seq::<HistoryItemView>::empty(),
    {
        let r = HistoryCache { last_mtime: None, data: Vec::new() };
        assert(views(r.data@) =~= Seq::empty());
        r
    }

    /// Looks the history up for a backing file with the modification time
    /// `current`. `None` means that the file is to be read and handed to
    /// `refresh`.
    pub fn get(&self, current: ModificationTime) -> (r: Option<Vec<HistoryItem>>)
        ensures
            match r {
                Some(data) => self@.lookup(current) == Some(views(data@)),
                None => self@.lookup(current) is None,
            },
    {
        match self.last_mtime {
            Some(last) => {
                if last == current {
                    Some(clone_items(&self.data))
                } else {
                    None
                }
            },
            None => None,
        }
    }

    /// Keeps a list that was read from the backing file when the file had
    /// the modification time `current`.
    pub fn refresh(&mut self, current: ModificationTime, data: &Vec<HistoryItem>)
        ensures
            final(self)@ == HistoryCacheView::refreshed(current, views(data@)),
    {
        self.last_mtime = Some(current);
        self.data = clone_items(data);
    }

    /// Keeps a list that was written to the backing file; `written` is the
    /// file's modification time after the write, where it could be had.
    pub fn record(&mut self, data: Vec<HistoryItem>, written: Option<ModificationTime>)
        ensures
            final(self)@ == HistoryCacheView::recorded(views(data@), written),
    {
        self.data = data;
        self.last_mtime = written;
    }
}

/// Getting the history twice in a row, with nothing written in between and
/// a backing file whose modification time did not change, returns the same
/// list both times, and the second time without reading the file: what the
/// file holds then does not matter.
pub proof fn lemma_repeated_get_reads_once(
    cache: HistoryCacheView,
    current: ModificationTime,
    stored: Seq<HistoryItemView>,
    stored_later: Seq<HistoryItemView>,
)
    ensures
        ({
            let first = cache.after_get(current, stored);
            let second = first.0.after_get(current, stored_later);
            &&& second.1 == first.1
            &&& !second.2
            &&& second.0 == first.0
        }),
{
}

/// A record appended to the history is seen by the next lookup: once the
/// list with the record at its head is recorded with the modification time
/// that the file has after the write, a lookup with that time returns this
/// list. This holds also where the write left the modification time as the
/// cache knew it before.
pub proof fn lemma_append_is_visible(
    cache: HistoryCacheView,
    stored: Seq<HistoryItemView>,
    item: HistoryItemView,
    written: ModificationTime,
)
    ensures
        HistoryCacheView::recorded(seq![item] + stored, Some(written)).lookup(written) == Some(
            seq![item] + stored,
        ),
        HistoryCacheView::recorded(seq![item] + stored, Some(written)).lookup(written)->0[0]
            == item,
{
}

} // verus!
