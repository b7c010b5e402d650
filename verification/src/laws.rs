use vstd::prelude::*;
use crate::item::{TodoError, TodoFile, TodoItem, FILE_VERSION};
use crate::desktop::{card_corner, half, max_x, min_x, Placement};
use crate::rpc::{
    argument_descriptions, call_of, tool_descriptions, call_problem, lemma_tool_arguments, tool_arguments, tool_names, tool_step, CallParams, ToolCall, ToolStep,
};
use crate::store::{
    add_plan, damaged, entry_plan, has_id, index_of, is_first_match, lemma_first_match_unique, lemma_index_of,
    loaded, lock_outcome, remove_plan, removed, retexted, toggle_plan, toggled, update_plan, Change, StoredFile,
};
use crate::text::{is_blank, lemma_trim_empty_iff_blank, lemma_trim_idempotent, trim};

verus! {

/// Two lists whose entries have the same ids position by position.
pub open spec fn same_ids(a: Seq<TodoItem>, b: Seq<TodoItem>) -> bool {
    &&& a.len() == b.len()
    &&& forall|j: int| 0 <= j < a.len() ==> #[trigger] a[j].id == b[j].id
}

/// All ids of `items` differ.
pub open spec fn distinct_ids(items: Seq<TodoItem>) -> bool {
    forall|i: int, j: int| 0 <= i < j < items.len() ==> #[trigger] items[i].id@ != #[trigger] items[j].id@
}

/// The list after toggling the entry `id` `n` times.
pub open spec fn toggled_times(items: Seq<TodoItem>, id: Seq<char>, n: nat) -> Seq<TodoItem>
    decreases n,
{
    if n == 0 {
        items
    } else {
        toggled(toggled_times(items, id, (n - 1) as nat), id)
    }
}

/// Lists with the same ids position by position locate every id at the same place.
proof fn lemma_same_ids_same_index(a: Seq<TodoItem>, b: Seq<TodoItem>, id: Seq<char>)
    requires
        same_ids(a, b),
    ensures
        index_of(a, id) == index_of(b, id),
    decreases a.len(),
{
    if a.len() > 0 && a[0].id@ != id {
        assert(a[0].id == b[0].id);
        assert(same_ids(a.drop_first(), b.drop_first())) by {
            assert forall|j: int| 0 <= j < a.drop_first().len() implies #[trigger] a.drop_first()[j].id
                == b.drop_first()[j].id by {
                assert(a.drop_first()[j] == a[j + 1]);
                assert(b.drop_first()[j] == b[j + 1]);
            }
        }
        lemma_same_ids_same_index(a.drop_first(), b.drop_first(), id);
    } else if a.len() > 0 {
        assert(a[0].id == b[0].id);
    }
}

/// Toggling changes only the completion state of one entry: the list keeps its length,
/// every id, text and creation time, and every other entry (a completed entry stays in
/// the list).
pub proof fn law_toggle_keeps_entries(items: Seq<TodoItem>, id: Seq<char>)
    ensures
        same_ids(items, toggled(items, id)),
        forall|j: int|
            0 <= j < items.len() ==> {
                &&& #[trigger] toggled(items, id)[j].text == items[j].text
                &&& toggled(items, id)[j].created_at == items[j].created_at
                &&& (j != index_of(items, id) ==> toggled(items, id)[j] == items[j])
            },
        has_id(items, id) ==> toggled(items, id)[index_of(items, id)].done == !items[index_of(
            items,
            id,
        )].done,
{
    lemma_index_of(items, id);
}

/// Toggling the same entry twice gives back the list it started from.
pub proof fn law_toggle_twice_restores(items: Seq<TodoItem>, id: Seq<char>)
    ensures
        toggled(toggled(items, id), id) == items,
{
    lemma_index_of(items, id);
    law_toggle_keeps_entries(items, id);
    lemma_same_ids_same_index(items, toggled(items, id), id);
    if index_of(items, id) >= 0 {
        assert(toggled(toggled(items, id), id) =~= items);
    }
}

/// Toggling an entry an even number of times leaves the list as it was; an odd number
/// of times equals toggling it once.
pub proof fn law_toggle_parity(items: Seq<TodoItem>, id: Seq<char>, n: nat)
    ensures
        n % 2 == 0 ==> toggled_times(items, id, n) == items,
        n % 2 == 1 ==> toggled_times(items, id, n) == toggled(items, id),
    decreases n,
{
    if n > 0 {
        law_toggle_parity(items, id, (n - 1) as nat);
        law_toggle_twice_restores(items, id);
    }
}

/// Removing takes out exactly the first entry with that id and keeps the others in
/// their order; when ids are distinct the id is gone afterwards, so a second removal or
/// toggle of it is refused with `NotFound`.
pub proof fn law_remove_takes_only_that_entry(items: Seq<TodoItem>, id: Seq<char>)
    ensures
        has_id(items, id) ==> {
            let i = index_of(items, id);
            &&& removed(items, id).len() == items.len() - 1
            &&& forall|j: int| 0 <= j < i ==> #[trigger] removed(items, id)[j] == items[j]
            &&& forall|j: int| i <= j < items.len() - 1 ==> #[trigger] removed(items, id)[j] == items[j + 1]
        },
        !has_id(items, id) ==> removed(items, id) == items,
        distinct_ids(items) ==> !has_id(removed(items, id), id),
{
    lemma_index_of(items, id);
    if has_id(items, id) && distinct_ids(items) {
        let i = index_of(items, id);
        let r = removed(items, id);
        if has_id(r, id) {
            let k = choose|k: int| 0 <= k < r.len() && #[trigger] r[k].id@ == id;
            if k < i {
                assert(r[k] == items[k]);
            } else {
                assert(r[k] == items[k + 1]);
                assert(items[i].id@ == items[k + 1].id@);
            }
        }
    }
}

/// White-space-only text never becomes an entry, and an entry made or edited from user
/// text holds that text trimmed: non-empty, without surrounding white space.
pub proof fn law_stored_text_is_trimmed(
    before: Seq<TodoItem>,
    id: Seq<char>,
    text: Seq<char>,
    r: Result<Change<TodoItem>, TodoError>,
)
    ensures
        is_blank(text) && add_plan(before, text, r) ==> r matches Err(TodoError::InvalidInput),
        is_blank(text) && update_plan(before, id, text, r) ==> r matches Err(TodoError::InvalidInput),
        (add_plan(before, text, r) || update_plan(before, id, text, r)) && r is Ok ==> {
            let t = r->Ok_0.result.text@;
            &&& t == trim(text)
            &&& t.len() > 0
            &&& trim(t) == t
        },
{
    lemma_trim_empty_iff_blank(text);
    lemma_trim_idempotent(text);
}

/// A planned add keeps every earlier entry in place and puts the new one last: the
/// list is always in insertion order.
pub proof fn law_add_appends(before: Seq<TodoItem>, text: Seq<char>, c: Change<TodoItem>)
    requires
        add_plan(before, text, Ok(c)),
    ensures
        c.next@.len() == before.len() + 1,
        c.next@.subrange(0, before.len() as int) == before,
        c.next@.last() == c.result,
        !c.result.done,
{
    assert(c.next@.subrange(0, before.len() as int) =~= before);
}

/// What a save writes is what a later load reads: a document of the current version
/// loads back to exactly its entries, in order.
pub proof fn law_saved_list_loads_back(file: TodoFile)
    requires
        file.version == FILE_VERSION,
    ensures
        loaded(StoredFile::Decoded(file)) == Some(file.items@),
{
}

/// Read-modify-write under the lock loses no update: when the lock's read gives the
/// document another process saved with entries `theirs`, reloading under the lock yields
/// exactly `theirs`, and a planned add keeps all of them and appends the new entry.
pub proof fn law_locked_add_keeps_other_writes<G>(
    before: Seq<TodoItem>,
    mid: Seq<TodoItem>,
    theirs: TodoFile,
    guard: G,
    rl: Result<G, TodoError>,
    text: Seq<char>,
    c: Change<TodoItem>,
)
    requires
        theirs.version == FILE_VERSION,
        lock_outcome(before, mid, Ok((guard, StoredFile::Decoded(theirs))), rl),
        add_plan(mid, text, Ok(c)),
    ensures
        mid == theirs.items@,
        rl == Ok::<G, TodoError>(guard),
        c.next@ == theirs.items@.push(c.result),
{
}

/// Distinct ids stay distinct: toggling, editing and removing never change or add an
/// id, and adding an entry whose id is not yet in the list keeps the ids distinct.
pub proof fn law_distinct_ids_preserved(
    before: Seq<TodoItem>,
    id: Seq<char>,
    text: Seq<char>,
    new_id: String,
    created_at: i64,
    r: Result<Change<TodoItem>, TodoError>,
    rr: Result<Change<()>, TodoError>,
)
    requires
        distinct_ids(before),
    ensures
        toggle_plan(before, id, r) && r is Ok ==> distinct_ids(r->Ok_0.next@),
        update_plan(before, id, text, r) && r is Ok ==> distinct_ids(r->Ok_0.next@),
        remove_plan(before, id, rr) && rr is Ok ==> distinct_ids(rr->Ok_0.next@),
        entry_plan(before, text, new_id, created_at, r) && r is Ok && !has_id(before, new_id@)
            ==> distinct_ids(r->Ok_0.next@),
{
    lemma_index_of(before, id);
    if toggle_plan(before, id, r) && r is Ok {
        law_toggle_keeps_entries(before, id);
        let n = r->Ok_0.next@;
        assert forall|i: int, j: int| 0 <= i < j < n.len() implies #[trigger] n[i].id@ != #[trigger] n[j].id@ by {
            assert(n[i].id == before[i].id);
            assert(n[j].id == before[j].id);
        }
    }
    if update_plan(before, id, text, r) && r is Ok && !is_blank(text) && has_id(before, id) {
        let n = r->Ok_0.next@;
        let k = index_of(before, id);
        assert(retexted(before, n, k, trim(text)));
        assert forall|i: int, j: int| 0 <= i < j < n.len() implies #[trigger] n[i].id@ != #[trigger] n[j].id@ by {
            assert(n[i].id == before[i].id);
            assert(n[j].id == before[j].id);
        }
    }
    if remove_plan(before, id, rr) && rr is Ok {
        law_remove_takes_only_that_entry(before, id);
        let n = rr->Ok_0.next@;
        let k = index_of(before, id);
        assert forall|i: int, j: int| 0 <= i < j < n.len() implies #[trigger] n[i].id@ != #[trigger] n[j].id@ by {
            let bi = if i < k { i } else { i + 1 };
            let bj = if j < k { j } else { j + 1 };
            assert(n[i] == before[bi]);
            assert(n[j] == before[bj]);
        }
    }
    if entry_plan(before, text, new_id, created_at, r) && r is Ok && !has_id(before, new_id@) {
        let n = r->Ok_0.next@;
        assert forall|i: int, j: int| 0 <= i < j < n.len() implies #[trigger] n[i].id@ != #[trigger] n[j].id@ by {
            if j == before.len() {
                assert(n[i] == before[i]);
                assert(n[j].id == new_id);
            } else {
                assert(n[i] == before[i]);
                assert(n[j] == before[j]);
            }
        }
    }
}

/// The tool catalogue and the tool dispatcher agree: every listed tool, given all its
/// listed arguments, is accepted and runs the matching operation; a name outside the
/// catalogue is refused.
pub proof fn law_catalog_matches_dispatch(name: Seq<char>, p: CallParams)
    ensures
        tool_names().contains(name) && (p.text is Some || !tool_arguments(name).contains("text"@))
            && (p.id is Some || !tool_arguments(name).contains("id"@)) ==> call_problem(name, p) is None,
        name == tool_names()[0] ==> call_of(name, p) is List,
        name == tool_names()[1] ==> call_of(name, p) is Add,
        name == tool_names()[2] ==> call_of(name, p) is Toggle,
        name == tool_names()[3] ==> call_of(name, p) is Update,
        name == tool_names()[4] ==> call_of(name, p) is Remove,
        !tool_names().contains(name) ==> call_problem(name, p) is Some,
{
    lemma_tool_arguments();
    reveal_strlit("text");
    reveal_strlit("id");
    assert("text"@.len() == 4 && "id"@.len() == 2);
    assert("text"@ != "id"@);
    if tool_names().contains(name) {
        let k = choose|k: int| 0 <= k < tool_names().len() && tool_names()[k] == name;
        if k == 1 {
            assert(tool_arguments(name)[0] == "text"@);
        } else if k == 2 || k == 4 {
            assert(tool_arguments(name)[0] == "id"@);
        } else if k == 3 {
            assert(tool_arguments(name)[0] == "id"@);
            assert(tool_arguments(name)[1] == "text"@);
        }
    } else {
        assert(name != tool_names()[0]);
        assert(name != tool_names()[1]);
        assert(name != tool_names()[2]);
        assert(name != tool_names()[3]);
        assert(name != tool_names()[4]);
    }
}

/// The tool request `call` changes the entries `before`: it is not a listing, its text
/// (if any) is not white space only and its id (if any) names an entry.
pub open spec fn changes_data(before: Seq<TodoItem>, call: ToolCall) -> bool {
    match call {
        ToolCall::List => false,
        ToolCall::Add { text } => !is_blank(text@),
        ToolCall::Toggle { id } => has_id(before, id@),
        ToolCall::Update { id, text } => !is_blank(text@) && has_id(before, id@),
        ToolCall::Remove { id } => has_id(before, id@),
    }
}

/// A tool call has something to save exactly when it changes the entries: a listing,
/// white-space-only text and an unknown id are answered with nothing written.
pub proof fn law_tool_saves_only_changes(before: Seq<TodoItem>, call: ToolCall, r: ToolStep)
    requires
        tool_step(before, call, r),
    ensures
        r is Save <==> changes_data(before, call),
{
}

/// The card is centred on the cursor: whenever the centred position fits between the
/// side margins, the card's left edge is the cursor's x less half the card's width, in
/// the same global coordinates as the monitor, wherever the monitor lies. Otherwise it
/// is pushed to the nearer margin.
pub proof fn law_card_centred_on_cursor(p: Placement)
    ensures
        min_x(p) <= p.cursor_x - half(p.card_width as int) <= max_x(p) ==> card_corner(p).0
            == p.cursor_x - half(p.card_width as int),
        min_x(p) <= max_x(p) && p.cursor_x - half(p.card_width as int) < min_x(p) ==> card_corner(p).0
            == p.monitor_x + p.side_margin,
        min_x(p) <= max_x(p) && p.cursor_x - half(p.card_width as int) > max_x(p) ==> card_corner(p).0
            == p.monitor_x + p.monitor_width - p.card_width - p.side_margin,
        p.card_width >= 0 ==> 0 <= p.card_width - 2 * half(p.card_width as int) <= 1,
{
}

/// Moving the monitor and the cursor together by `dx` and `dy` moves the card by the
/// same amounts: the card's place is relative to the monitor and the cursor only.
pub proof fn law_card_follows_monitor(p: Placement, q: Placement, dx: int, dy: int)
    requires
        q.cursor_x == p.cursor_x + dx,
        q.monitor_x == p.monitor_x + dx,
        q.monitor_y == p.monitor_y + dy,
        q.monitor_width == p.monitor_width,
        q.monitor_height == p.monitor_height,
        q.card_width == p.card_width,
        q.card_height == p.card_height,
        q.side_margin == p.side_margin,
        q.edge_margin == p.edge_margin,
        q.bar_on_top == p.bar_on_top,
    ensures
        card_corner(q).0 == card_corner(p).0 + dx,
        card_corner(q).1 == card_corner(p).1 + dy,
{
}

/// A file that is malformed or of another version than `FILE_VERSION` is moved aside and
/// the store starts empty: none of its entries are taken over.
pub proof fn law_foreign_file_starts_empty(stored: StoredFile, f: TodoFile)
    ensures
        damaged(stored) ==> loaded(stored) == Some(Seq::<TodoItem>::empty()),
        f.version != FILE_VERSION ==> damaged(StoredFile::Decoded(f)),
        f.version != FILE_VERSION ==> loaded(StoredFile::Decoded(f)) == Some(Seq::<TodoItem>::empty()),
        f.version == FILE_VERSION ==> !damaged(StoredFile::Decoded(f)),
{
}

/// Each tool of the catalogue carries its own description and the descriptions of its
/// own arguments: listing, adding, toggling, editing and removing are described under
/// the names `list_todos`, `add_todo`, `toggle_todo`, `update_todo` and `remove_todo`.
pub proof fn law_tool_descriptions_by_name()
    ensures
        tool_descriptions().len() == tool_names().len(),
        argument_descriptions().len() == tool_names().len(),
        forall|i: int|
            0 <= i < tool_names().len() ==> {
                &&& #[trigger] tool_names()[i] == "list_todos"@ ==> argument_descriptions()[i]
                    == Seq::<Seq<char>>::empty()
                &&& tool_names()[i] == "add_todo"@ ==> argument_descriptions()[i] == seq!["待办内容（非空）"@]
                &&& tool_names()[i] == "toggle_todo"@ ==> argument_descriptions()[i]
                    == seq!["待办条目 id（由 list_todos/add_todo 返回）"@]
                &&& tool_names()[i] == "update_todo"@ ==> argument_descriptions()[i]
                    == seq!["待办条目 id"@, "新的待办内容（非空）"@]
                &&& tool_names()[i] == "remove_todo"@ ==> argument_descriptions()[i] == seq!["待办条目 id"@]
            },
        forall|i: int|
            0 <= i < tool_names().len() ==> {
                &&& #[trigger] tool_names()[i] == "list_todos"@ ==> tool_descriptions()[i]
                    == "列出全部待办事项（按添加顺序），返回 id/text/done/created_at 字段的 JSON 数组。"@
                &&& tool_names()[i] == "add_todo"@ ==> tool_descriptions()[i]
                    == "新增一条待办事项，返回创建后的条目（含 id）。文本首尾空白会被去除，纯空白文本会被拒绝。"@
                &&& tool_names()[i] == "toggle_todo"@ ==> tool_descriptions()[i]
                    == "切换指定待办的完成状态（未完成 ↔ 已完成），返回切换后的条目。"@
                &&& tool_names()[i] == "update_todo"@ ==> tool_descriptions()[i]
                    == "修改指定待办的文本内容，返回修改后的条目。纯空白文本会被拒绝。"@
                &&& tool_names()[i] == "remove_todo"@ ==> tool_descriptions()[i]
                    == "删除指定待办（不可撤回，完成与未完成条目均可删除）。"@
            },
{
    lemma_tool_arguments();
}

/// Ids are never reused: the entry that `add` plans has an id no entry of the list has,
/// so a list whose ids are distinct still has distinct ids after the add, and the new id
/// names exactly the new entry.
pub proof fn law_add_never_reuses_ids(before: Seq<TodoItem>, text: Seq<char>, c: Change<TodoItem>)
    requires
        add_plan(before, text, Ok(c)),
    ensures
        forall|i: int| 0 <= i < before.len() ==> #[trigger] before[i].id@ != c.result.id@,
        distinct_ids(before) ==> distinct_ids(c.next@),
        index_of(c.next@, c.result.id@) == before.len(),
{
    let n = c.next@;
    lemma_index_of(n, c.result.id@);
    assert forall|i: int| 0 <= i < before.len() implies #[trigger] before[i].id@ != c.result.id@ by {
        if before[i].id@ == c.result.id@ {
            assert(has_id(before, c.result.id@));
        }
    }
    assert forall|j: int| 0 <= j < before.len() implies n[j].id@ != c.result.id@ by {
        assert(n[j] == before[j]);
    }
    assert(is_first_match(n, c.result.id@, before.len() as int));
    lemma_first_match_unique(n, c.result.id@, before.len() as int);
    if distinct_ids(before) {
        assert forall|i: int, j: int| 0 <= i < j < n.len() implies #[trigger] n[i].id@ != #[trigger] n[j].id@ by {
            assert(n[i] == before[i]);
            if j < before.len() {
                assert(n[j] == before[j]);
            }
        }
    }
}

} // verus!
