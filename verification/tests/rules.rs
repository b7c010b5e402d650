use todo_store::clock::{millis_or_zero, now_ms, seconds_or_zero, unix_seconds};
use todo_store::desktop::{blur_should_hide, position_card, toggle_card, CardAction, Placement};
use todo_store::names::{
    backup_file_name, data_path_override, lock_file_name, temp_path, unix_data_dir, UnixDataDir,
};
use todo_store::rpc::{
    call_tool, classify, finish_tool, handle_message, lock_failure, parse_error, parse_tool, protocol_version,
    tool_catalog, tool_error, tool_target, CallParams, Dispatch, Message, Method, Payload, ToolCall, ToolStep,
    ToolText, INTERNAL_ERROR, INVALID_PARAMS, METHOD_NOT_FOUND, PARSE_ERROR,
};
use todo_store::store::Change;
use todo_store::text::trimmed;
use todo_store::{error_message, StoredFile, TodoError, TodoFile, TodoItem, TodoStore};

fn item(id: &str, text: &str, done: bool) -> TodoItem {
    TodoItem { id: id.to_string(), text: text.to_string(), done, created_at: 7 }
}

fn store_with(items: Vec<TodoItem>) -> TodoStore {
    TodoStore::load("todos.json".to_string(), StoredFile::Decoded(TodoFile::current(items))).unwrap()
}

/// Commits a plan that the store accepted, as a caller does after a successful save.
fn apply<T>(store: &mut TodoStore, plan: impl FnOnce(&TodoStore) -> Result<Change<T>, TodoError>) -> T {
    let change = plan(store).expect("plan accepted");
    store.commit(change)
}

fn disk_full() -> TodoError {
    TodoError::Io(std::io::Error::new(std::io::ErrorKind::Other, "disk full"))
}

fn unlocked() -> Result<((), StoredFile), TodoError> {
    Ok(((), StoredFile::Decoded(TodoFile::current(vec![item("a", "买牛奶", false), item("b", "开会", true)]))))
}

fn message(method: &str) -> Message {
    Message { has_id: true, method: method.to_string(), protocol_version: None, params: None }
}

fn params(name: Option<&str>, text: Option<&str>, id: Option<&str>) -> CallParams {
    CallParams { name: name.map(str::to_string), text: text.map(str::to_string), id: id.map(str::to_string) }
}

/// Runs a tool call under a lock that succeeds with the two entries of `unlocked`, saving
/// any change successfully.
fn serve(store: &mut TodoStore, name: &str, p: CallParams) -> Result<Payload, todo_store::rpc::RpcError> {
    let (guard, step) = call_tool(store, &name.to_string(), &p, unlocked());
    assert!(guard.is_some());
    match step {
        ToolStep::Refused(e) => Err(e),
        ToolStep::Answer(p) => Ok(p),
        ToolStep::Save(change) => Ok(finish_tool(store, change, Ok(()))),
    }
}

#[test]
fn trim_strips_unicode_white_space_only() {
    assert_eq!(trimmed("\u{3000} 待办 \u{a0}\t\n"), "待办");
    assert_eq!(trimmed("  a b  "), "a b");
    assert_eq!(trimmed("\u{200b}x"), "\u{200b}x", "zero-width space is not White_Space");
    assert_eq!(trimmed(" \u{2028}\u{85} "), "");
}

#[test]
fn add_rejects_ideographic_space_only() {
    let store = store_with(vec![]);
    let err = store.add("\u{3000}\u{3000}".to_string()).err().unwrap();
    assert!(matches!(err, TodoError::InvalidInput));
    assert!(store.list().is_empty());
}

#[test]
fn add_entry_uses_given_id_and_time() {
    let mut store = store_with(vec![item("a", "一", false)]);
    let change = store.add_entry("  二 ".to_string(), "id-2".to_string(), 1_700_000_000).unwrap();
    let expected = TodoItem { id: "id-2".to_string(), text: "二".to_string(), done: false, created_at: 1_700_000_000 };
    assert_eq!(change.result, expected);
    assert_eq!(change.next, vec![item("a", "一", false), expected.clone()]);
    assert_eq!(store.list().len(), 1, "a plan changes nothing before it is committed");
    let added = store.commit(change);
    assert_eq!(added, expected);
    assert_eq!(store.list()[1], expected);
    assert!(matches!(store.add_entry(" \t".to_string(), "x".to_string(), 1).err().unwrap(), TodoError::InvalidInput));
}

#[test]
fn new_ids_are_hyphenated_uuid_v4() {
    let mut store = store_with(vec![]);
    let a = apply(&mut store, |s| s.add("一".to_string()));
    let b = apply(&mut store, |s| s.add("二".to_string()));
    for id in [&a.id, &b.id] {
        let chars: Vec<char> = id.chars().collect();
        assert_eq!(chars.len(), 36);
        for (i, c) in chars.iter().enumerate() {
            if [8, 13, 18, 23].contains(&i) {
                assert_eq!(*c, '-');
            } else {
                assert!(c.is_ascii_hexdigit() && !c.is_ascii_uppercase());
            }
        }
        assert_eq!(chars[14], '4');
        assert!(['8', '9', 'a', 'b'].contains(&chars[19]));
    }
    assert_ne!(a.id, b.id);
    assert!(a.created_at > 1_577_836_800, "the creation time is read from the clock");
    assert_eq!(store.list(), vec![a, b]);
}

#[test]
fn clock_reads_after_2020() {
    assert!(unix_seconds() > 1_577_836_800);
    assert!(now_ms() > 1_577_836_800_000);
}

#[test]
fn clock_readings_convert_like_as() {
    assert_eq!(seconds_or_zero(Some(1_700_000_000)), 1_700_000_000);
    assert_eq!(seconds_or_zero(None), 0);
    assert_eq!(seconds_or_zero(Some(u64::MAX)), -1);
    assert_eq!(millis_or_zero(Some(1_700_000_000_123)), 1_700_000_000_123);
    assert_eq!(millis_or_zero(None), 0);
    assert_eq!(millis_or_zero(Some(u128::from(u64::MAX) + 2)), 1);
}

#[test]
fn toggle_twice_restores_list() {
    let start = vec![item("a", "一", false), item("b", "二", true), item("a", "重复", false)];
    let mut store = store_with(start.clone());
    apply(&mut store, |s| s.toggle("a"));
    assert_eq!(store.list()[0].done, true);
    assert_eq!(store.list()[2].done, false, "only the first entry with the id changes");
    apply(&mut store, |s| s.toggle("a"));
    assert_eq!(store.list(), start);
}

#[test]
fn toggle_three_times_equals_once() {
    let mut store = store_with(vec![item("x", "任务", false)]);
    for _ in 0..3 {
        apply(&mut store, |s| s.toggle("x"));
    }
    assert_eq!(store.list()[0].done, true);
}

#[test]
fn remove_keeps_order_of_the_rest_and_id_is_gone() {
    let mut store = store_with(vec![item("a", "一", false), item("b", "二", false), item("c", "三", true)]);
    apply(&mut store, |s| s.remove("b"));
    let ids: Vec<String> = store.list().into_iter().map(|i| i.id).collect();
    assert_eq!(ids, ["a", "c"]);
    assert!(matches!(store.remove("b").err().unwrap(), TodoError::NotFound));
    assert!(matches!(store.toggle("b").err().unwrap(), TodoError::NotFound));
}

#[test]
fn plans_change_nothing_until_committed() {
    let before = vec![item("a", "一", false)];
    let store = store_with(before.clone());
    assert!(store.add("二".to_string()).is_ok());
    assert!(store.toggle("a").is_ok());
    assert!(store.update("a", "改".to_string()).is_ok());
    assert!(store.remove("a").is_ok());
    assert_eq!(store.list(), before);
}

#[test]
fn plan_carries_the_new_list() {
    let mut store = store_with(vec![item("a", "一", false)]);
    let change = store.toggle("a").unwrap();
    assert_eq!(change.next, vec![item("a", "一", true)]);
    assert_eq!(change.result, item("a", "一", true));
    let next = change.next.clone();
    store.commit(change);
    assert_eq!(store.list(), next);
}

#[test]
fn distinct_ids_stay_distinct() {
    let mut store = store_with(vec![item("a", "一", false), item("b", "二", false), item("c", "三", false)]);
    apply(&mut store, |s| s.toggle("b"));
    apply(&mut store, |s| s.update("c", "叁".to_string()));
    apply(&mut store, |s| s.remove("a"));
    apply(&mut store, |s| s.add_entry("四".to_string(), "d".to_string(), 9));
    let ids: Vec<String> = store.list().into_iter().map(|i| i.id).collect();
    assert_eq!(ids, ["b", "c", "d"]);
}

#[test]
fn update_checks_text_before_id() {
    let store = store_with(vec![]);
    assert!(matches!(store.update("nope", "  ".to_string()).err().unwrap(), TodoError::InvalidInput));
    assert!(matches!(store.update("nope", "x".to_string()).err().unwrap(), TodoError::NotFound));
}

#[test]
fn update_keeps_identity_and_state() {
    let mut store = store_with(vec![item("a", "一", true), item("b", "二", false)]);
    let updated = apply(&mut store, |s| s.update("a", " 改过 ".to_string()));
    assert_eq!(updated, TodoItem { id: "a".to_string(), text: "改过".to_string(), done: true, created_at: 7 });
    assert_eq!(store.list()[1], item("b", "二", false));
}

#[test]
fn reload_failure_keeps_entries() {
    let mut store = store_with(vec![item("a", "一", false)]);
    let err = store
        .reload(StoredFile::Unreadable(std::io::Error::new(std::io::ErrorKind::PermissionDenied, "denied")))
        .unwrap_err();
    assert!(matches!(err, TodoError::Io(_)));
    assert_eq!(store.list().len(), 1);
    store.reload(StoredFile::Malformed).unwrap();
    assert!(store.list().is_empty());
}

#[test]
fn load_unreadable_is_io_error() {
    let r = TodoStore::load(
        "todos.json".to_string(),
        StoredFile::Unreadable(std::io::Error::new(std::io::ErrorKind::PermissionDenied, "denied")),
    );
    assert!(matches!(r, Err(TodoError::Io(_))));
    assert!(!StoredFile::Missing.needs_backup());
}

#[test]
fn lock_failure_changes_nothing() {
    let mut store = store_with(vec![item("a", "一", false)]);
    let r: Result<(), TodoError> = store.lock_and_reload(Err(TodoError::CorruptData));
    assert!(matches!(r, Err(TodoError::CorruptData)));
    assert_eq!(store.list().len(), 1);
    let r = store.lock_and_reload(unlocked());
    assert!(r.is_ok());
    assert_eq!(store.list().len(), 2);
}

#[test]
fn store_path_is_kept() {
    let store = TodoStore::load("/data/todos.json".to_string(), StoredFile::Missing).unwrap();
    assert_eq!(store.path(), "/data/todos.json");
}

#[test]
fn error_messages_for_every_variant() {
    assert_eq!(error_message(TodoError::InvalidInput), "内容为空，无法添加");
    assert_eq!(error_message(TodoError::NotFound), "待办不存在");
    assert_eq!(error_message(TodoError::CorruptData), "数据文件损坏");
    assert_eq!(error_message(disk_full()), "保存失败：写入磁盘出错");
    let bad: serde_json::Error = serde_json::from_str::<serde_json::Value>("{").unwrap_err();
    assert_eq!(error_message(TodoError::Serde(bad)), "数据序列化失败");

    assert_eq!(TodoError::NotFound.message(), "待办不存在");
    assert_eq!(TodoError::InvalidInput.message(), "内容为空，无法添加");
    assert_eq!(TodoError::CorruptData.message(), "数据文件损坏");
    assert_eq!(disk_full().message(), "磁盘读写失败：disk full");
    let bad: serde_json::Error = serde_json::from_str::<serde_json::Value>("{").unwrap_err();
    assert!(TodoError::Serde(bad).message().starts_with("数据序列化失败："));
}

#[test]
fn file_names() {
    assert_eq!(lock_file_name(None), "todos.json.lock");
    assert_eq!(lock_file_name(Some("data.json")), "data.json.lock");
    assert_eq!(backup_file_name(None, 0), "todos.json.corrupt-0");
    assert_eq!(backup_file_name(Some("x.json"), 18446744073709551615), "x.json.corrupt-18446744073709551615");
    assert_eq!(temp_path("/a/todos.json"), "/a/todos.json.tmp");
    assert_eq!(data_path_override(Some("  /p/t.json \n")), Some("/p/t.json".to_string()));
    assert_eq!(data_path_override(Some("   ")), None);
    assert_eq!(data_path_override(None), None);
}

#[test]
fn data_dir_follows_xdg() {
    assert_eq!(unix_data_dir(true, true), Some(UnixDataDir::XdgDataHome));
    assert_eq!(unix_data_dir(true, false), Some(UnixDataDir::XdgDataHome));
    assert_eq!(unix_data_dir(false, true), Some(UnixDataDir::HomeLocalShare));
    assert_eq!(unix_data_dir(false, false), None);
}

#[test]
fn methods_are_classified() {
    assert_eq!(classify(&"initialize".to_string()), Method::Initialize);
    assert_eq!(classify(&"ping".to_string()), Method::Ping);
    assert_eq!(classify(&"tools/list".to_string()), Method::ListTools);
    assert_eq!(classify(&"tools/call".to_string()), Method::CallTool);
    assert_eq!(classify(&"tools/cal".to_string()), Method::Unknown);
    assert_eq!(protocol_version(None), "2024-11-05");
    assert_eq!(protocol_version(Some("2025-06-18".to_string())), "2025-06-18");
    let e = parse_error();
    assert_eq!((e.code, e.message.as_str()), (PARSE_ERROR, "Parse error"));
}

#[test]
fn notification_gets_no_reply() {
    let msg = Message {
        has_id: false,
        method: "tools/call".to_string(),
        protocol_version: None,
        params: Some(params(Some("add_todo"), Some("x"), None)),
    };
    assert!(matches!(handle_message(msg), Dispatch::Silent));
    assert!(matches!(handle_message(Message { has_id: false, ..message("ping") }), Dispatch::Silent));
}

#[test]
fn unknown_method_is_method_not_found() {
    match handle_message(message("resources/list")) {
        Dispatch::Reply(Err(e)) => {
            assert_eq!(e.code, METHOD_NOT_FOUND);
            assert_eq!(e.message, "Method not found: resources/list");
        },
        other => panic!("unexpected {other:?}"),
    }
}

#[test]
fn initialize_echoes_version() {
    let mut msg = message("initialize");
    msg.protocol_version = Some("2025-03-26".to_string());
    match handle_message(msg) {
        Dispatch::Reply(Ok(Payload::Initialized { protocol_version })) => assert_eq!(protocol_version, "2025-03-26"),
        other => panic!("unexpected {other:?}"),
    }
    assert!(matches!(handle_message(message("ping")), Dispatch::Reply(Ok(Payload::Pong))));
    assert!(matches!(handle_message(message("tools/list")), Dispatch::Reply(Ok(Payload::ToolList))));
}

#[test]
fn tool_call_target_errors_come_before_the_lock() {
    match handle_message(message("tools/call")) {
        Dispatch::Reply(Err(e)) => assert_eq!((e.code, e.message.as_str()), (INVALID_PARAMS, "缺少 params")),
        other => panic!("unexpected {other:?}"),
    }
    let msg = Message { params: Some(params(None, None, None)), ..message("tools/call") };
    match handle_message(msg) {
        Dispatch::Reply(Err(e)) => {
            assert_eq!((e.code, e.message.as_str()), (INVALID_PARAMS, "缺少工具名称 params.name"))
        },
        other => panic!("unexpected {other:?}"),
    }
    let msg = Message { params: Some(params(Some("add_todo"), Some("x"), None)), ..message("tools/call") };
    match handle_message(msg) {
        Dispatch::Tool { name, params } => {
            assert_eq!(name, "add_todo");
            assert_eq!(params.text.as_deref(), Some("x"));
        },
        other => panic!("unexpected {other:?}"),
    }
    assert!(tool_target(&Some(params(Some("x"), None, None))).is_ok());
}

#[test]
fn tool_call_argument_errors_save_nothing() {
    let mut store = store_with(vec![]);
    for (name, p, message) in [
        ("add_todo", params(None, None, None), "参数 text 缺失或不是字符串"),
        ("update_todo", params(None, None, None), "参数 id 缺失或不是字符串"),
        ("delete_all", params(None, None, None), "未知工具：delete_all"),
    ] {
        let (guard, step) = call_tool(&mut store, &name.to_string(), &p, unlocked());
        assert!(guard.is_some());
        match step {
            ToolStep::Refused(e) => assert_eq!((e.code, e.message.as_str()), (INVALID_PARAMS, message)),
            other => panic!("unexpected {other:?}"),
        }
    }
    assert_eq!(store.list().len(), 2, "arguments are checked after reloading");
}

#[test]
fn tool_call_lock_failure_is_error_content() {
    let mut store = store_with(vec![item("z", "旧", false)]);
    let (guard, step) = call_tool(
        &mut store,
        &"add_todo".to_string(),
        &params(None, Some("新"), None),
        Err::<((), StoredFile), TodoError>(TodoError::NotFound),
    );
    assert!(guard.is_none());
    match step {
        ToolStep::Answer(Payload::Content { text: ToolText::Plain(t), is_error: true }) => {
            assert_eq!(t, "数据文件锁定/读取失败：待办不存在")
        },
        other => panic!("unexpected {other:?}"),
    }
    assert_eq!(store.list(), vec![item("z", "旧", false)]);
    match lock_failure(disk_full()) {
        Payload::Content { text: ToolText::Plain(t), is_error: true } => {
            assert_eq!(t, "数据文件锁定/读取失败：磁盘读写失败：disk full")
        },
        other => panic!("unexpected {other:?}"),
    }
}

#[test]
fn refused_tool_calls_have_nothing_to_save() {
    let mut store = store_with(vec![]);
    let (_, step) = call_tool(&mut store, &"toggle_todo".to_string(), &params(None, None, Some("x")), unlocked());
    match step {
        ToolStep::Answer(Payload::Content { text: ToolText::Plain(t), is_error: true }) => assert_eq!(t, "待办不存在"),
        other => panic!("unexpected {other:?}"),
    }
    let (_, step) = call_tool(&mut store, &"add_todo".to_string(), &params(None, Some("  "), None), unlocked());
    match step {
        ToolStep::Answer(Payload::Content { text: ToolText::Plain(t), is_error: true }) => {
            assert_eq!(t, "内容为空，无法添加")
        },
        other => panic!("unexpected {other:?}"),
    }
    assert_eq!(store.list().len(), 2);
}

#[test]
fn tool_calls_run_on_reloaded_data() {
    let mut store = store_with(vec![]);
    match serve(&mut store, "list_todos", params(None, None, None)).unwrap() {
        Payload::Content { text: ToolText::Listing(items), is_error: false } => assert_eq!(items.len(), 2),
        other => panic!("unexpected {other:?}"),
    }
    match serve(&mut store, "toggle_todo", params(None, None, Some("b"))).unwrap() {
        Payload::Content { text: ToolText::Entry(item), is_error: false } => assert_eq!(item.done, false),
        other => panic!("unexpected {other:?}"),
    }
    match serve(&mut store, "remove_todo", params(None, None, Some("a"))).unwrap() {
        Payload::Content { text: ToolText::Plain(t), is_error: false } => assert_eq!(t, "已删除"),
        other => panic!("unexpected {other:?}"),
    }
    assert_eq!(store.list(), vec![item("b", "开会", true)]);
    match serve(&mut store, "update_todo", params(None, Some(" 新 "), Some("a"))).unwrap() {
        Payload::Content { text: ToolText::Entry(item), is_error: false } => assert_eq!(item.text, "新"),
        other => panic!("unexpected {other:?}"),
    }
    let e = tool_error(TodoError::NotFound);
    assert_eq!((e.code, e.message.as_str()), (INTERNAL_ERROR, "待办不存在"));
}

#[test]
fn failed_save_keeps_store_and_reports_cause() {
    let mut store = store_with(vec![]);
    let (_, step) = call_tool(&mut store, &"add_todo".to_string(), &params(None, Some("写"), None), unlocked());
    let change = match step {
        ToolStep::Save(change) => change,
        other => panic!("unexpected {other:?}"),
    };
    assert_eq!(change.next.len(), 3);
    match finish_tool(&mut store, change, Err(disk_full())) {
        Payload::Content { text: ToolText::Plain(t), is_error: true } => assert_eq!(t, "磁盘读写失败：disk full"),
        other => panic!("unexpected {other:?}"),
    }
    assert_eq!(store.list().len(), 2);
}

#[test]
fn parse_tool_builds_requests() {
    let p = CallParams { name: None, text: Some("t".to_string()), id: Some("i".to_string()) };
    assert!(matches!(parse_tool(&"list_todos".to_string(), &p), Ok(ToolCall::List)));
    assert!(matches!(parse_tool(&"add_todo".to_string(), &p), Ok(ToolCall::Add { .. })));
    assert!(matches!(parse_tool(&"update_todo".to_string(), &p), Ok(ToolCall::Update { .. })));
    let q = CallParams { name: None, text: None, id: Some("i".to_string()) };
    let e = parse_tool(&"update_todo".to_string(), &q).unwrap_err();
    assert_eq!(e.message, "参数 text 缺失或不是字符串");
}

#[test]
fn catalog_lists_five_tools_with_arguments() {
    let catalog = tool_catalog();
    let names: Vec<&str> = catalog.iter().map(|t| t.name.as_str()).collect();
    assert_eq!(names, ["list_todos", "add_todo", "toggle_todo", "update_todo", "remove_todo"]);
    let update_args: Vec<&str> = catalog[3].arguments.iter().map(|a| a.0.as_str()).collect();
    assert_eq!(update_args, ["id", "text"]);
    assert!(catalog[0].arguments.is_empty());
    assert_eq!(catalog[4].description, "删除指定待办（不可撤回，完成与未完成条目均可删除）。");
    assert_eq!(catalog[1].arguments[0].1, "待办内容（非空）");
}

#[test]
fn blur_within_tray_guard_keeps_card() {
    assert!(!blur_should_hide(Some(Some(false)), 1_000, 950));
    assert!(blur_should_hide(Some(Some(false)), 1_000, 880));
    assert!(blur_should_hide(Some(None), 1_000, 0));
    assert!(!blur_should_hide(Some(Some(true)), 1_000, 0));
    assert!(!blur_should_hide(None, 1_000, 0));
    assert!(!blur_should_hide(Some(Some(false)), 5, 10), "a clock stepping back counts as no time elapsed");
}

#[test]
fn tray_click_toggles_card() {
    assert_eq!(toggle_card(Some(Some(true))), CardAction::Hide);
    assert_eq!(toggle_card(Some(Some(false))), CardAction::Show);
    assert_eq!(toggle_card(Some(None)), CardAction::Show);
    assert_eq!(toggle_card(None), CardAction::Nothing);
}

#[test]
fn card_is_placed_within_monitor() {
    let p = Placement {
        cursor_x: 1900,
        monitor_x: 0,
        monitor_y: 0,
        monitor_width: 1920,
        monitor_height: 1080,
        card_width: 320,
        card_height: 440,
        side_margin: 4,
        edge_margin: 8,
        bar_on_top: false,
    };
    assert_eq!(position_card(p), (1596, 632));
    assert_eq!(position_card(Placement { cursor_x: 1000, bar_on_top: true, ..p }), (840, 8));
    assert_eq!(position_card(Placement { cursor_x: 10, ..p }), (4, 632));
    assert_eq!(position_card(Placement { monitor_width: 100, ..p }), (4, 632));
}
