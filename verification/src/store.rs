use vstd::prelude::*;
use crate::ids::{is_uuid_v4_text, lemma_spare_id_injective, new_todo_id, spare_id, spare_id_text};
use crate::item::{TodoError, TodoFile, TodoItem, FILE_VERSION};
use crate::text::{is_blank, lemma_trim_empty_iff_blank, trim, trimmed};
use crate::clock::unix_seconds;

verus! {

/// `i` is the first position in `items` whose id is `id`.
pub open spec fn is_first_match(items: Seq<TodoItem>, id: Seq<char>, i: int) -> bool {
    &&& 0 <= i < items.len()
    &&& items[i].id@ == id
    &&& forall|j: int| 0 <= j < i ==> items[j].id@ != id
}

/// Some entry of `items` has the id `id`.
pub open spec fn has_id(items: Seq<TodoItem>, id: Seq<char>) -> bool {
    exists|i: int| 0 <= i < items.len() && #[trigger] items[i].id@ == id
}

/// The position of the first entry with id `id`, or -1 when there is none.
pub open spec fn index_of(items: Seq<TodoItem>, id: Seq<char>) -> int
    decreases items.len(),
{
    if items.len() == 0 {
        -1
    } else if items[0].id@ == id {
        0
    } else {
        let r = index_of(items.drop_first(), id);
        if r < 0 {
            -1
        } else {
            r + 1
        }
    }
}

/// `item` with its completion state inverted.
pub open spec fn flip(item: TodoItem) -> TodoItem {
    TodoItem { done: !item.done, ..item }
}

/// The list after toggling the entry `id` (unchanged when there is none).
pub open spec fn toggled(items: Seq<TodoItem>, id: Seq<char>) -> Seq<TodoItem> {
    let i = index_of(items, id);
    if i < 0 {
        items
    } else {
        items.update(i, flip(items[i]))
    }
}

/// The list after removing the entry `id` (unchanged when there is none).
pub open spec fn removed(items: Seq<TodoItem>, id: Seq<char>) -> Seq<TodoItem> {
    let i = index_of(items, id);
    if i < 0 {
        items
    } else {
        items.remove(i)
    }
}

/// `next` is `items` with the text of entry `i` replaced by `text`, all else kept.
pub open spec fn retexted(items: Seq<TodoItem>, next: Seq<TodoItem>, i: int, text: Seq<char>) -> bool {
    &&& 0 <= i < items.len()
    &&& next.len() == items.len()
    &&& forall|j: int| 0 <= j < items.len() && j != i ==> #[trigger] next[j] == items[j]
    &&& next[i].id == items[i].id
    &&& next[i].done == items[i].done
    &&& next[i].created_at == items[i].created_at
    &&& next[i].text@ == text
}

/// `item` is an entry freshly made from the user text `text`.
pub open spec fn fresh_entry(item: TodoItem, text: Seq<char>) -> bool {
    &&& item.text@ == trim(text)
    &&& !item.done
    &&& is_uuid_v4_text(item.id@)
}

/// A planned change: the complete new list, to be saved and then committed, and the
/// value the operation answers with once it took effect.
#[derive(Debug, Clone)]
pub struct Change<T> {
    pub next: Vec<TodoItem>,
    pub result: T,
}

/// The plan of `add_entry`: white-space-only text is refused with `InvalidInput`;
/// otherwise the list gets, appended last, a pending entry with id `id`, the trimmed
/// text and creation time `created_at`, and that entry is the answer.
pub open spec fn entry_plan(
    before: Seq<TodoItem>,
    text: Seq<char>,
    id: String,
    created_at: i64,
    r: Result<Change<TodoItem>, TodoError>,
) -> bool {
    if is_blank(text) {
        r matches Err(TodoError::InvalidInput)
    } else {
        &&& r matches Ok(c)
        &&& c.result.id == id
        &&& c.result.text@ == trim(text)
        &&& !c.result.done
        &&& c.result.created_at == created_at
        &&& c.next@ == before.push(c.result)
    }
}

/// The plan of `add`: white-space-only text is refused with `InvalidInput`; otherwise
/// a fresh pending entry with the trimmed text, and an id that no entry of the list
/// has, is appended last and is the answer.
pub open spec fn add_plan(before: Seq<TodoItem>, text: Seq<char>, r: Result<Change<TodoItem>, TodoError>) -> bool {
    if is_blank(text) {
        r matches Err(TodoError::InvalidInput)
    } else {
        &&& r matches Ok(c)
        &&& fresh_entry(c.result, text)
        &&& !has_id(before, c.result.id@)
        &&& c.next@ == before.push(c.result)
    }
}

/// The plan of `toggle`: with no entry `id`, `NotFound`; otherwise the list with the
/// first such entry's completion state inverted, and that entry as the answer.
pub open spec fn toggle_plan(before: Seq<TodoItem>, id: Seq<char>, r: Result<Change<TodoItem>, TodoError>) -> bool {
    if !has_id(before, id) {
        r matches Err(TodoError::NotFound)
    } else {
        &&& r matches Ok(c)
        &&& c.next@ == toggled(before, id)
        &&& c.result == c.next@[index_of(before, id)]
    }
}

/// The plan of `update`: white-space-only text gives `InvalidInput` (checked first),
/// no entry `id` gives `NotFound`; otherwise the list with the trimmed text in the first
/// such entry, all else kept, and that entry as the answer.
pub open spec fn update_plan(
    before: Seq<TodoItem>,
    id: Seq<char>,
    text: Seq<char>,
    r: Result<Change<TodoItem>, TodoError>,
) -> bool {
    if is_blank(text) {
        r matches Err(TodoError::InvalidInput)
    } else if !has_id(before, id) {
        r matches Err(TodoError::NotFound)
    } else {
        &&& r matches Ok(c)
        &&& retexted(before, c.next@, index_of(before, id), trim(text))
        &&& c.result == c.next@[index_of(before, id)]
    }
}

/// The plan of `remove`: with no entry `id`, `NotFound`; otherwise the list without the
/// first such entry.
pub open spec fn remove_plan(before: Seq<TodoItem>, id: Seq<char>, r: Result<Change<()>, TodoError>) -> bool {
    if !has_id(before, id) {
        r matches Err(TodoError::NotFound)
    } else {
        r matches Ok(c) && c.next@ == removed(before, id)
    }
}

/// What `lock_and_reload` did with the lock step's result `locked`: a failed lock is
/// returned as is and changes nothing; otherwise what was read under the lock is loaded
/// as by `reload` and the guard is returned (a read failure is returned as `Io` and
/// changes nothing).
pub open spec fn lock_outcome<G>(
    before: Seq<TodoItem>,
    after: Seq<TodoItem>,
    locked: Result<(G, StoredFile), TodoError>,
    r: Result<G, TodoError>,
) -> bool {
    match locked {
        Err(e) => r == Err::<G, TodoError>(e) && after == before,
        Ok((g, stored)) => match loaded(stored) {
            None => {
                &&& after == before
                &&& stored matches StoredFile::Unreadable(x)
                &&& r == Err::<G, TodoError>(TodoError::Io(x))
            },
            Some(items) => after == items && r == Ok::<G, TodoError>(g),
        },
    }
}

/// What the data file gave when it was read.
#[derive(Debug)]
pub enum StoredFile {
    /// No data file exists yet.
    Missing,
    /// The file exists but could not be read.
    Unreadable(std::io::Error),
    /// The file decoded to a document.
    Decoded(TodoFile),
    /// The file is not a valid document.
    Malformed,
}

/// The entries that a store loads from what was read, `None` when the read failed.
/// A missing, malformed or other-version file gives an empty list.
pub open spec fn loaded(stored: StoredFile) -> Option<Seq<TodoItem>> {
    match stored {
        StoredFile::Missing => Some(Seq::empty()),
        StoredFile::Unreadable(_) => None,
        StoredFile::Decoded(f) => if f.version == FILE_VERSION {
            Some(f.items@)
        } else {
            Some(Seq::empty())
        },
        StoredFile::Malformed => Some(Seq::empty()),
    }
}

/// The file must be moved aside before the empty list replaces it: it is malformed
/// or of another version.
pub open spec fn damaged(stored: StoredFile) -> bool {
    match stored {
        StoredFile::Decoded(f) => f.version != FILE_VERSION,
        StoredFile::Malformed => true,
        _ => false,
    }
}

impl StoredFile {
    /// Whether the file has to be backed up before the store starts empty.
    pub fn needs_backup(&self) -> (r: bool)
        ensures
            r == damaged(*self),
    {
        match self {
            StoredFile::Decoded(f) => f.version != FILE_VERSION,
            StoredFile::Malformed => true,
            _ => false,
        }
    }
}

/// The in-memory todo list of one data file. A change is first planned (`add`,
/// `toggle`, `update`, `remove` leave the store as it is and return the complete new
/// list); the caller saves that list and, only when saving succeeded, `commit`s it.
#[derive(Debug, Clone)]
pub struct TodoStore {
    path: String,
    items: Vec<TodoItem>,
}

impl View for TodoStore {
    type V = Seq<TodoItem>;

    closed spec fn view(&self) -> Seq<TodoItem> {
        self.items@
    }
}

/// `index_of` is the first matching position, or -1 exactly when no entry matches.
pub proof fn lemma_index_of(items: Seq<TodoItem>, id: Seq<char>)
    ensures
        -1 <= index_of(items, id) < items.len(),
        index_of(items, id) >= 0 ==> is_first_match(items, id, index_of(items, id)),
        index_of(items, id) < 0 ==> forall|j: int| 0 <= j < items.len() ==> items[j].id@ != id,
        index_of(items, id) >= 0 <==> has_id(items, id),
    decreases items.len(),
{
    if items.len() > 0 && items[0].id@ != id {
        let rest = items.drop_first();
        lemma_index_of(rest, id);
        assert forall|j: int| 0 <= j < items.len() && index_of(items, id) < 0 implies items[j].id@
            != id by {
            if j > 0 {
                assert(items[j] == rest[j - 1]);
            }
        }
        if index_of(items, id) >= 0 {
            let k = index_of(items, id);
            assert(items[k] == rest[k - 1]);
            assert forall|j: int| 0 <= j < k implies items[j].id@ != id by {
                if j > 0 {
                    assert(items[j] == rest[j - 1]);
                }
            }
        }
    }
    if index_of(items, id) >= 0 {
        assert(items[index_of(items, id)].id@ == id);
    }
}

/// A list of `n` entries cannot use all of the `n + 1` first spare ids.
pub proof fn lemma_spare_id_free(items: Seq<TodoItem>)
    requires
        items.len() <= usize::MAX,
    ensures
        exists|k: int| 0 <= k <= items.len() && !has_id(items, #[trigger] spare_id(k as u64)),
{
    broadcast use vstd::seq_lib::seq_to_set_is_finite;

    let n = items.len();
    if forall|k: int| 0 <= k <= n ==> has_id(items, #[trigger] spare_id(k as u64)) {
        let ids = items.map_values(|t: TodoItem| t.id@);
        let spares = Seq::new(n + 1, |k: int| spare_id(k as u64));
        assert forall|i: int, j: int| 0 <= i < spares.len() && 0 <= j < spares.len() && i != j implies spares[i]
            != spares[j] by {
            if spares[i] == spares[j] {
                lemma_spare_id_injective(i as u64, j as u64);
            }
        }
        spares.unique_seq_to_set();
        ids.lemma_cardinality_of_set();
        assert forall|x: Seq<char>| spares.to_set().contains(x) implies ids.to_set().contains(x) by {
            let k = choose|k: int| 0 <= k < spares.len() && spares[k] == x;
            assert(has_id(items, spare_id(k as u64)));
            let i = choose|i: int| 0 <= i < items.len() && #[trigger] items[i].id@ == spare_id(k as u64);
            assert(ids[i] == x);
        }
        vstd::set_lib::lemma_len_subset(spares.to_set(), ids.to_set());
        assert(false);
    }
}

/// The first matching position is unique.
pub proof fn lemma_first_match_unique(items: Seq<TodoItem>, id: Seq<char>, i: int)
    requires
        is_first_match(items, id, i),
    ensures
        index_of(items, id) == i,
{
    lemma_index_of(items, id);
}

/// A copy of a list of entries, element by element.
pub fn copy_items(items: &Vec<TodoItem>) -> (r: Vec<TodoItem>)
    ensures
        r@ == items@,
{
    let mut r: Vec<TodoItem> = Vec::new();
    let mut i: usize = 0;
    while i < items.len()
        invariant
            i <= items.len(),
            r@ == items@.subrange(0, i as int),
        decreases items.len() - i,
    {
        r.push(items[i].duplicate());
        i = i + 1;
        proof {
            assert(r@ =~= items@.subrange(0, i as int));
        }
    }
    proof {
        assert(r@ =~= items@);
    }
    r
}

impl TodoStore {
    /// The path of the data file, as text.
    pub closed spec fn path_view(&self) -> Seq<char> {
        self.path@
    }

    /// The path of the data file.
    pub fn path(&self) -> (r: &String)
        ensures
            r@ == self.path_view(),
    {
        &self.path
    }

    /// Builds the store from what was read at `path`: a missing file gives an empty
    /// list; a malformed or other-version file gives an empty list (the caller backs
    /// the file up, see `StoredFile::needs_backup`); a file of the current version gives
    /// its entries in order; a read failure is an `Io` error.
    pub fn load(path: String, stored: StoredFile) -> (r: Result<TodoStore, TodoError>)
        ensures
            r is Ok <==> loaded(stored) is Some,
            r matches Ok(s) ==> s.path_view() == path@ && s@ == loaded(stored).unwrap(),
            r matches Err(e) ==> {
                &&& stored matches StoredFile::Unreadable(x)
                &&& e == TodoError::Io(x)
            },
    {
        match stored {
            StoredFile::Missing => Ok(TodoStore { path, items: Vec::new() }),
            StoredFile::Unreadable(e) => Err(TodoError::Io(e)),
            StoredFile::Decoded(f) => {
                if f.version == FILE_VERSION {
                    Ok(TodoStore { path, items: f.items })
                } else {
                    Ok(TodoStore { path, items: Vec::new() })
                }
            },
            StoredFile::Malformed => Ok(TodoStore { path, items: Vec::new() }),
        }
    }

    /// All entries, in insertion order.
    pub fn list(&self) -> (r: Vec<TodoItem>)
        ensures
            r@ == self@,
    {
        copy_items(&self.items)
    }

    /// Replaces the entries with what the file now holds (same rules as `load`); on a
    /// read failure the store is unchanged.
    pub fn reload(&mut self, stored: StoredFile) -> (r: Result<(), TodoError>)
        ensures
            final(self).path_view() == old(self).path_view(),
            r is Ok <==> loaded(stored) is Some,
            r is Ok ==> final(self)@ == loaded(stored).unwrap(),
            r matches Err(e) ==> {
                &&& final(self)@ == old(self)@
                &&& stored matches StoredFile::Unreadable(x)
                &&& e == TodoError::Io(x)
            },
    {
        match stored {
            StoredFile::Missing => {
                self.items = Vec::new();
                Ok(())
            },
            StoredFile::Unreadable(e) => Err(TodoError::Io(e)),
            StoredFile::Decoded(f) => {
                if f.version == FILE_VERSION {
                    self.items = f.items;
                } else {
                    self.items = Vec::new();
                }
                Ok(())
            },
            StoredFile::Malformed => {
                self.items = Vec::new();
                Ok(())
            },
        }
    }

    /// Reloads under the cross-process lock. `locked` is what taking the lock gave: its
    /// guard and the data file read under it, or the error. The guard is handed back so
    /// the caller keeps the lock held.
    pub fn lock_and_reload<G>(&mut self, locked: Result<(G, StoredFile), TodoError>) -> (r: Result<G, TodoError>)
        ensures
            final(self).path_view() == old(self).path_view(),
            lock_outcome(old(self)@, final(self)@, locked, r),
    {
        match locked {
            Err(e) => Err(e),
            Ok((guard, stored)) => {
                match self.reload(stored) {
                    Ok(()) => Ok(guard),
                    Err(e) => Err(e),
                }
            },
        }
    }

    /// Puts a saved change into effect: the store holds its list, and its answer is
    /// returned.
    pub fn commit<T>(&mut self, change: Change<T>) -> (r: T)
        ensures
            final(self).path_view() == old(self).path_view(),
            final(self)@ == change.next@,
            r == change.result,
    {
        self.items = change.next;
        change.result
    }

    fn locate(&self, id: &String) -> (r: Option<usize>)
        ensures
            r matches Some(i) ==> i == index_of(self.items@, id@) && i < self.items.len(),
            r is None ==> index_of(self.items@, id@) < 0,
    {
        proof {
            lemma_index_of(self.items@, id@);
        }
        let mut i: usize = 0;
        while i < self.items.len()
            invariant
                i <= self.items.len(),
                forall|j: int| 0 <= j < i ==> self.items@[j].id@ != id@,
            decreases self.items.len() - i,
        {
            if self.items[i].id == *id {
                proof {
                    lemma_first_match_unique(self.items@, id@, i as int);
                }
                return Some(i);
            }
            i = i + 1;
        }
        None
    }

    fn contains_id(&self, id: &String) -> (r: bool)
        ensures
            r == has_id(self@, id@),
    {
        proof {
            lemma_index_of(self.items@, id@);
        }
        self.locate(id).is_some()
    }

    /// An id for a new entry: a random UUID v4, or, should it already be in use, the
    /// first spare id that is not.
    fn fresh_id(&self) -> (r: String)
        ensures
            is_uuid_v4_text(r@),
            !has_id(self@, r@),
    {
        let drawn = new_todo_id();
        if !self.contains_id(&drawn) {
            return drawn;
        }
        let n = self.items.len();
        let mut k: usize = 0;
        loop
            invariant
                k <= n,
                n == self.items@.len(),
                forall|j: int| 0 <= j < k ==> has_id(self@, #[trigger] spare_id(j as u64)),
            decreases n - k,
        {
            let candidate = spare_id_text(k as u64);
            if !self.contains_id(&candidate) {
                return candidate;
            }
            if k == n {
                proof {
                    lemma_spare_id_free(self@);
                    let w = choose|w: int| 0 <= w <= n && !has_id(self@, #[trigger] spare_id(w as u64));
                    assert(w < k || w == k);
                    assert(false);
                }
                return candidate;
            }
            k = k + 1;
        }
    }

    /// Plans inverting the completion state of the first entry with id `id`.
    pub fn toggle(&self, id: &str) -> (r: Result<Change<TodoItem>, TodoError>)
        ensures
            toggle_plan(self@, id@, r),
    {
        let key = id.to_owned();
        proof {
            lemma_index_of(self.items@, key@);
        }
        match self.locate(&key) {
            None => Err(TodoError::NotFound),
            Some(i) => {
                let mut next: Vec<TodoItem> = copy_items(&self.items);
                let mut item = next[i].duplicate();
                item.done = !item.done;
                let result = item.duplicate();
                next.set(i, item);
                proof {
                    assert(next@ =~= toggled(self@, id@));
                }
                Ok(Change { next, result })
            },
        }
    }

    /// Plans replacing the text of the first entry with id `id` by the trimmed `text`.
    pub fn update(&self, id: &str, text: String) -> (r: Result<Change<TodoItem>, TodoError>)
        ensures
            update_plan(self@, id@, text@, r),
    {
        let new_text = trimmed(text.as_str());
        proof {
            lemma_trim_empty_iff_blank(text@);
        }
        if new_text.as_str().is_empty() {
            return Err(TodoError::InvalidInput);
        }
        let key = id.to_owned();
        proof {
            lemma_index_of(self.items@, key@);
        }
        match self.locate(&key) {
            None => Err(TodoError::NotFound),
            Some(i) => {
                let mut next: Vec<TodoItem> = copy_items(&self.items);
                let mut item = next[i].duplicate();
                item.text = new_text;
                let result = item.duplicate();
                next.set(i, item);
                proof {
                    assert(retexted(self@, next@, i as int, trim(text@)));
                }
                Ok(Change { next, result })
            },
        }
    }

    /// Plans removing the first entry with id `id`, keeping the order of the others.
    pub fn remove(&self, id: &str) -> (r: Result<Change<()>, TodoError>)
        ensures
            remove_plan(self@, id@, r),
    {
        let key = id.to_owned();
        proof {
            lemma_index_of(self.items@, key@);
        }
        match self.locate(&key) {
            None => Err(TodoError::NotFound),
            Some(i) => {
                let mut next: Vec<TodoItem> = copy_items(&self.items);
                let _gone = next.remove(i);
                proof {
                    assert(next@ =~= removed(self@, id@));
                }
                Ok(Change { next, result: () })
            },
        }
    }

    /// Plans appending a pending entry with id `id`, the trimmed `text` and creation
    /// time `created_at`.
    pub fn add_entry(&self, text: String, id: String, created_at: i64) -> (r: Result<Change<TodoItem>, TodoError>)
        ensures
            entry_plan(self@, text@, id, created_at, r),
    {
        let new_text = trimmed(text.as_str());
        proof {
            lemma_trim_empty_iff_blank(text@);
        }
        if new_text.as_str().is_empty() {
            return Err(TodoError::InvalidInput);
        }
        let item = TodoItem { id, text: new_text, done: false, created_at };
        let mut next: Vec<TodoItem> = copy_items(&self.items);
        let result = item.duplicate();
        next.push(item);
        Ok(Change { next, result })
    }

    /// Plans appending a new pending entry with the trimmed `text`, a fresh UUID v4 id
    /// and the current time (white-space-only text is refused before either is made).
    pub fn add(&self, text: String) -> (r: Result<Change<TodoItem>, TodoError>)
        ensures
            add_plan(self@, text@, r),
    {
        proof {
            lemma_trim_empty_iff_blank(text@);
        }
        if trimmed(text.as_str()).as_str().is_empty() {
            return Err(TodoError::InvalidInput);
        }
        let id = self.fresh_id();
        let created_at = unix_seconds();
        self.add_entry(text, id, created_at)
    }
}

} // verus!
