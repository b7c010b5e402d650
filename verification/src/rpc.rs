use vstd::prelude::*;
use crate::item::{describes, TodoError, TodoItem};
use crate::store::{add_plan, lock_outcome, remove_plan, toggle_plan, update_plan, Change, StoredFile, TodoStore};

verus! {

/// JSON-RPC code of a line that is not JSON.
pub const PARSE_ERROR: i64 = -32700;

/// JSON-RPC code of an unknown method.
pub const METHOD_NOT_FOUND: i64 = -32601;

/// JSON-RPC code of missing or ill-typed parameters.
pub const INVALID_PARAMS: i64 = -32602;

/// JSON-RPC code of a failure inside the server.
pub const INTERNAL_ERROR: i64 = -32603;

/// What the server reads from one incoming JSON-RPC message.
#[derive(Debug, Clone)]
pub struct Message {
    /// The message carries an `id` member (of any JSON value); without one it is a
    /// notification.
    pub has_id: bool,
    /// The `method` member, or the empty text when it is absent or not a string.
    pub method: String,
    /// `params.protocolVersion` when it is a string.
    pub protocol_version: Option<String>,
    /// The `params` member, when present.
    pub params: Option<CallParams>,
}

/// What `tools/call` reads from its `params` member.
#[derive(Debug, Clone)]
pub struct CallParams {
    /// `params.name` when it is a string.
    pub name: Option<String>,
    /// `params.arguments.text` when it is a string.
    pub text: Option<String>,
    /// `params.arguments.id` when it is a string.
    pub id: Option<String>,
}

/// A JSON-RPC error object.
#[derive(Debug, Clone)]
pub struct RpcError {
    pub code: i64,
    pub message: String,
}

/// The methods the server knows.
#[derive(Debug, Clone, Copy, PartialEq, Eq)]
pub enum Method {
    Initialize,
    Ping,
    ListTools,
    CallTool,
    Unknown,
}

/// A validated tool request.
#[derive(Debug, Clone)]
pub enum ToolCall {
    List,
    Add { text: String },
    Toggle { id: String },
    Update { id: String, text: String },
    Remove { id: String },
}

/// The text content of a tool result: entries to be shown as JSON, or plain text.
#[derive(Debug, Clone)]
pub enum ToolText {
    Listing(Vec<TodoItem>),
    Entry(TodoItem),
    Plain(String),
}

/// The `result` member of a successful reply.
#[derive(Debug, Clone)]
pub enum Payload {
    /// Answer to `initialize`, echoing the protocol version.
    Initialized { protocol_version: String },
    /// Answer to `ping`: an empty object.
    Pong,
    /// Answer to `tools/list`: the tool catalogue.
    ToolList,
    /// Answer to `tools/call`: one text content, flagged when the tool failed.
    Content { text: ToolText, is_error: bool },
}

/// What the server does with one message, decided before any data is touched.
#[derive(Debug)]
pub enum Dispatch {
    /// A notification: no reply and nothing else.
    Silent,
    /// A reply that needs no data, carrying the request's id.
    Reply(Result<Payload, RpcError>),
    /// A tool call: take the cross-process lock, then `call_tool`.
    Tool { name: String, params: CallParams },
}

/// What a tool call needs next, decided on the entries reloaded under the lock.
#[derive(Debug)]
pub enum ToolStep {
    /// A protocol error (unknown tool or missing argument); nothing to save.
    Refused(RpcError),
    /// The reply, needing nothing saved (a listing, or a refusal by the store reported as
    /// error content).
    Answer(Payload),
    /// A change to save; after saving, `finish_tool` gives the reply.
    Save(Change<ToolText>),
}

/// One tool of the catalogue: name, description and its string arguments (all required),
/// each with a description.
#[derive(Debug, Clone)]
pub struct ToolSpec {
    pub name: String,
    pub description: String,
    pub arguments: Vec<(String, String)>,
}

pub open spec fn method_of(m: Seq<char>) -> Method {
    if m == "initialize"@ {
        Method::Initialize
    } else if m == "ping"@ {
        Method::Ping
    } else if m == "tools/list"@ {
        Method::ListTools
    } else if m == "tools/call"@ {
        Method::CallTool
    } else {
        Method::Unknown
    }
}

/// `s` has the text of the literal `lit`.
fn text_is(s: &String, lit: &str) -> (r: bool)
    ensures
        r == (s@ == lit@),
{
    *s == lit.to_owned()
}

/// `a` followed by `b`.
fn joined(a: &str, b: &str) -> (r: String)
    ensures
        r@ == a@ + b@,
{
    let mut r = a.to_owned();
    r.append(b);
    r
}

/// Which method a message asks for.
pub fn classify(method: &String) -> (r: Method)
    ensures
        r == method_of(method@),
{
    if text_is(method, "initialize") {
        Method::Initialize
    } else if text_is(method, "ping") {
        Method::Ping
    } else if text_is(method, "tools/list") {
        Method::ListTools
    } else if text_is(method, "tools/call") {
        Method::CallTool
    } else {
        Method::Unknown
    }
}

/// The protocol version the server answers `initialize` with: the one the client asked
/// for, or `2024-11-05` when it named none.
pub fn protocol_version(requested: Option<String>) -> (r: String)
    ensures
        match requested {
            Some(v) => r@ == v@,
            None => r@ == "2024-11-05"@,
        },
{
    match requested {
        Some(v) => v,
        None => "2024-11-05".to_owned(),
    }
}

/// The error object sent for a line that is not JSON.
pub fn parse_error() -> (r: RpcError)
    ensures
        r.code == PARSE_ERROR,
        r.message@ == "Parse error"@,
{
    RpcError { code: PARSE_ERROR, message: "Parse error".to_owned() }
}

/// The error a tool call reports when the store refused the operation.
pub fn tool_error(err: TodoError) -> (r: RpcError)
    ensures
        r.code == INTERNAL_ERROR,
        describes(err, r.message@),
{
    RpcError { code: INTERNAL_ERROR, message: err.message() }
}

/// The tool named in `params`, checked before any data is touched.
pub open spec fn target_problem(params: Option<CallParams>) -> Option<Seq<char>> {
    match params {
        None => Some("缺少 params"@),
        Some(p) => match p.name {
            None => Some("缺少工具名称 params.name"@),
            Some(_) => None,
        },
    }
}

/// The tool name of a `tools/call`, or the invalid-params error when `params` or its
/// `name` is missing.
pub fn tool_target(params: &Option<CallParams>) -> (r: Result<String, RpcError>)
    ensures
        match target_problem(*params) {
            Some(msg) => r matches Err(e) && e.code == INVALID_PARAMS && e.message@ == msg,
            None => r matches Ok(n) && n == params->0.name->0,
        },
{
    match params {
        None => Err(RpcError { code: INVALID_PARAMS, message: "缺少 params".to_owned() }),
        Some(p) => match &p.name {
            None => Err(
                RpcError { code: INVALID_PARAMS, message: "缺少工具名称 params.name".to_owned() },
            ),
            Some(n) => Ok(n.clone()),
        },
    }
}

/// The complaint about a missing string argument `key`.
pub open spec fn missing_argument(key: Seq<char>) -> Seq<char> {
    "参数 "@ + key + " 缺失或不是字符串"@
}

/// Why a tool request is refused: an unknown tool, or a missing argument (for
/// `update_todo` the id is checked before the text).
pub open spec fn call_problem(name: Seq<char>, p: CallParams) -> Option<Seq<char>> {
    if name == "list_todos"@ {
        None
    } else if name == "add_todo"@ {
        if p.text is None { Some(missing_argument("text"@)) } else { None }
    } else if name == "toggle_todo"@ || name == "remove_todo"@ {
        if p.id is None { Some(missing_argument("id"@)) } else { None }
    } else if name == "update_todo"@ {
        if p.id is None {
            Some(missing_argument("id"@))
        } else if p.text is None {
            Some(missing_argument("text"@))
        } else {
            None
        }
    } else {
        Some("未知工具："@ + name)
    }
}

/// The request a valid tool call stands for.
pub open spec fn call_of(name: Seq<char>, p: CallParams) -> ToolCall {
    if name == "list_todos"@ {
        ToolCall::List
    } else if name == "add_todo"@ {
        ToolCall::Add { text: p.text->0 }
    } else if name == "toggle_todo"@ {
        ToolCall::Toggle { id: p.id->0 }
    } else if name == "remove_todo"@ {
        ToolCall::Remove { id: p.id->0 }
    } else {
        ToolCall::Update { id: p.id->0, text: p.text->0 }
    }
}

fn required_argument(value: &Option<String>, key: &str) -> (r: Result<String, RpcError>)
    ensures
        match value {
            Some(v) => r matches Ok(s) && s == v,
            None => r matches Err(e) && e.code == INVALID_PARAMS && e.message@ == missing_argument(key@),
        },
{
    match value {
        Some(v) => Ok(v.clone()),
        None => {
            let mut m = joined("参数 ", key);
            m.append(" 缺失或不是字符串");
            Err(RpcError { code: INVALID_PARAMS, message: m })
        },
    }
}

/// Reads the arguments of the tool `name`: the request, or the invalid-params error
/// for an unknown tool or a missing argument.
pub fn parse_tool(name: &String, p: &CallParams) -> (r: Result<ToolCall, RpcError>)
    ensures
        match call_problem(name@, *p) {
            Some(msg) => r matches Err(e) && e.code == INVALID_PARAMS && e.message@ == msg,
            None => r == Ok::<ToolCall, RpcError>(call_of(name@, *p)),
        },
{
    if text_is(name, "list_todos") {
        Ok(ToolCall::List)
    } else if text_is(name, "add_todo") {
        let text = required_argument(&p.text, "text")?;
        Ok(ToolCall::Add { text })
    } else if text_is(name, "toggle_todo") {
        let id = required_argument(&p.id, "id")?;
        Ok(ToolCall::Toggle { id })
    } else if text_is(name, "remove_todo") {
        let id = required_argument(&p.id, "id")?;
        Ok(ToolCall::Remove { id })
    } else if text_is(name, "update_todo") {
        let id = required_argument(&p.id, "id")?;
        let text = required_argument(&p.text, "text")?;
        Ok(ToolCall::Update { id, text })
    } else {
        Err(RpcError { code: INVALID_PARAMS, message: joined("未知工具：", name.as_str()) })
    }
}

/// The error-flagged content reporting a refusal by the store.
pub open spec fn reports(e: TodoError, r: Payload) -> bool {
    &&& r matches Payload::Content { text: ToolText::Plain(m), is_error: true }
    &&& describes(e, m@)
}

/// A planned change `c` of an entry operation, seen as a tool step: the same list to
/// save, with the entry as the text to answer.
pub open spec fn entry_step(r: ToolStep, plan: Result<Change<TodoItem>, TodoError>) -> bool {
    match plan {
        Ok(c) => {
            &&& r matches ToolStep::Save(s)
            &&& s.next@ == c.next@
            &&& s.result == ToolText::Entry(c.result)
        },
        Err(e) => {
            &&& r matches ToolStep::Answer(p)
            &&& reports(e, p)
        },
    }
}

/// What the validated request `call` amounts to on the entries `before`: a listing is
/// answered at once; every other tool either is refused by the store (answered as error
/// content, nothing to save) or gives the change its store plan makes.
pub open spec fn tool_step(before: Seq<TodoItem>, call: ToolCall, r: ToolStep) -> bool {
    match call {
        ToolCall::List => {
            &&& r matches ToolStep::Answer(Payload::Content { text: ToolText::Listing(v), is_error: false })
            &&& v@ == before
        },
        ToolCall::Add { text } => exists|plan: Result<Change<TodoItem>, TodoError>|
            #[trigger] add_plan(before, text@, plan) && entry_step(r, plan),
        ToolCall::Toggle { id } => exists|plan: Result<Change<TodoItem>, TodoError>|
            #[trigger] toggle_plan(before, id@, plan) && entry_step(r, plan),
        ToolCall::Update { id, text } => exists|plan: Result<Change<TodoItem>, TodoError>|
            #[trigger] update_plan(before, id@, text@, plan) && entry_step(r, plan),
        ToolCall::Remove { id } => exists|plan: Result<Change<()>, TodoError>|
            #[trigger] remove_plan(before, id@, plan) && match plan {
                Ok(c) => {
                    &&& r matches ToolStep::Save(s)
                    &&& s.next@ == c.next@
                    &&& s.result matches ToolText::Plain(m)
                    &&& m@ == "已删除"@
                },
                Err(e) => {
                    &&& r matches ToolStep::Answer(p)
                    &&& reports(e, p)
                },
            },
    }
}

/// The error-flagged content reporting a store error.
fn failure(e: TodoError) -> (r: Payload)
    ensures
        reports(e, r),
{
    Payload::Content { text: ToolText::Plain(tool_error(e).message), is_error: true }
}

fn entry_to_step(plan: Result<Change<TodoItem>, TodoError>) -> (r: ToolStep)
    ensures
        entry_step(r, plan),
{
    match plan {
        Ok(c) => ToolStep::Save(Change { next: c.next, result: ToolText::Entry(c.result) }),
        Err(e) => ToolStep::Answer(failure(e)),
    }
}

/// Plans a validated tool request on the entries (the store is not changed).
pub fn run_tool(store: &TodoStore, call: ToolCall) -> (r: ToolStep)
    ensures
        tool_step(store@, call, r),
{
    match call {
        ToolCall::List => ToolStep::Answer(Payload::Content { text: ToolText::Listing(store.list()), is_error: false }),
        ToolCall::Add { text } => {
            let plan = store.add(text);
            entry_to_step(plan)
        },
        ToolCall::Toggle { id } => {
            let plan = store.toggle(id.as_str());
            entry_to_step(plan)
        },
        ToolCall::Update { id, text } => {
            let plan = store.update(id.as_str(), text);
            entry_to_step(plan)
        },
        ToolCall::Remove { id } => {
            let plan = store.remove(id.as_str());
            match plan {
                Ok(c) => ToolStep::Save(Change { next: c.next, result: ToolText::Plain("已删除".to_owned()) }),
                Err(e) => ToolStep::Answer(failure(e)),
            }
        },
    }
}

/// `s` reports a failure to lock or read the data file caused by `e`.
pub open spec fn lock_failure_text(e: TodoError, s: Seq<char>) -> bool {
    let prefix = "数据文件锁定/读取失败："@;
    &&& s.len() >= prefix.len()
    &&& s.subrange(0, prefix.len() as int) == prefix
    &&& describes(e, s.subrange(prefix.len() as int, s.len() as int))
}

/// The tool result for a failure to lock or read the data file: error content, like
/// every failure of the data layer.
pub fn lock_failure(e: TodoError) -> (r: Payload)
    ensures
        r matches Payload::Content { text: ToolText::Plain(m), is_error: true } && lock_failure_text(
            e,
            m@,
        ),
{
    let mut m = "数据文件锁定/读取失败：".to_owned();
    let cause = e.message();
    m.append(cause.as_str());
    proof {
        reveal_strlit("数据文件锁定/读取失败：");
        let prefix = "数据文件锁定/读取失败："@;
        assert(m@.subrange(0, prefix.len() as int) =~= prefix);
        assert(m@.subrange(prefix.len() as int, m@.len() as int) =~= cause@);
    }
    Payload::Content { text: ToolText::Plain(m), is_error: true }
}

/// What a tool call did with the lock step's result `locked`, from the entries `before`
/// to `after`: when the lock or the read under it failed, the entries are kept and the
/// answer is error content naming the cause; otherwise the entries are those reloaded
/// (`mid`), the arguments are checked (an unknown tool or a missing argument is a protocol
/// error, nothing to save) and the request is planned on `mid`.
pub open spec fn call_tool_outcome<G>(
    before: Seq<TodoItem>,
    after: Seq<TodoItem>,
    name: Seq<char>,
    p: CallParams,
    locked: Result<(G, StoredFile), TodoError>,
    r: (Option<G>, ToolStep),
) -> bool {
    exists|rl: Result<G, TodoError>|
        #[trigger] lock_outcome(before, after, locked, rl) && match rl {
            Err(e) => {
                &&& r.0 is None
                &&& r.1 matches ToolStep::Answer(Payload::Content { text: ToolText::Plain(m), is_error: true })
                &&& lock_failure_text(e, m@)
            },
            Ok(g) => {
                &&& r.0 == Some(g)
                &&& match call_problem(name, p) {
                    Some(msg) => {
                        &&& r.1 matches ToolStep::Refused(x)
                        &&& x.code == INVALID_PARAMS
                        &&& x.message@ == msg
                    },
                    None => tool_step(after, call_of(name, p), r.1),
                }
            },
        }
}

/// Serves a `tools/call` whose tool name is known, given what taking the cross-process
/// lock gave: reloads under the lock, checks the arguments and plans the tool. The guard
/// is handed back so the caller holds the lock until it has answered.
pub fn call_tool<G>(
    store: &mut TodoStore,
    name: &String,
    p: &CallParams,
    locked: Result<(G, StoredFile), TodoError>,
) -> (r: (Option<G>, ToolStep))
    ensures
        final(store).path_view() == old(store).path_view(),
        call_tool_outcome(old(store)@, final(store)@, name@, *p, locked, r),
{
    let ghost before = store@;
    let ghost locked_copy = locked;
    let relocked = store.lock_and_reload(locked);
    let ghost rl = relocked;
    proof {
        assert(lock_outcome(before, store@, locked_copy, rl));
    }
    match relocked {
        Err(e) => (None, ToolStep::Answer(lock_failure(e))),
        Ok(guard) => match parse_tool(name, p) {
            Err(x) => (Some(guard), ToolStep::Refused(x)),
            Ok(call) => (Some(guard), run_tool(store, call)),
        },
    }
}

/// The reply after the change of a tool step was saved (`saved` is the save's result):
/// on success the store holds the change's list and the answer is its text; on failure
/// the store is unchanged and the answer is error content naming the cause.
pub fn finish_tool(store: &mut TodoStore, change: Change<ToolText>, saved: Result<(), TodoError>) -> (r: Payload)
    ensures
        final(store).path_view() == old(store).path_view(),
        saved is Ok ==> {
            &&& final(store)@ == change.next@
            &&& r matches Payload::Content { text: t, is_error: false }
            &&& t == change.result
        },
        saved matches Err(e) ==> {
            &&& final(store)@ == old(store)@
            &&& reports(e, r)
        },
{
    match saved {
        Ok(()) => {
            let text = store.commit(change);
            Payload::Content { text, is_error: false }
        },
        Err(e) => failure(e),
    }
}

/// Decides what to do with one message, before any data is touched: a notification (no
/// `id`) gets nothing; `initialize`, `ping` and `tools/list` are answered; any other
/// method is method-not-found; a `tools/call` without `params` or tool name is an
/// invalid-params error; any other `tools/call` goes on to the lock and `call_tool`.
pub fn handle_message(msg: Message) -> (r: Dispatch)
    ensures
        !msg.has_id ==> r is Silent,
        msg.has_id ==> match method_of(msg.method@) {
            Method::Initialize => {
                &&& r matches Dispatch::Reply(Ok(Payload::Initialized { protocol_version: v }))
                &&& v@ == match msg.protocol_version {
                    Some(p) => p@,
                    None => "2024-11-05"@,
                }
            },
            Method::Ping => r matches Dispatch::Reply(Ok(Payload::Pong)),
            Method::ListTools => r matches Dispatch::Reply(Ok(Payload::ToolList)),
            Method::CallTool => match target_problem(msg.params) {
                Some(m) => {
                    &&& r matches Dispatch::Reply(Err(e))
                    &&& e.code == INVALID_PARAMS
                    &&& e.message@ == m
                },
                None => {
                    &&& r matches Dispatch::Tool { name, params }
                    &&& name == msg.params->0.name->0
                    &&& params == msg.params->0
                },
            },
            Method::Unknown => {
                &&& r matches Dispatch::Reply(Err(e))
                &&& e.code == METHOD_NOT_FOUND
                &&& e.message@ == "Method not found: "@ + msg.method@
            },
        },
{
    if !msg.has_id {
        return Dispatch::Silent;
    }
    match classify(&msg.method) {
        Method::Initialize => Dispatch::Reply(
            Ok(Payload::Initialized { protocol_version: protocol_version(msg.protocol_version) }),
        ),
        Method::Ping => Dispatch::Reply(Ok(Payload::Pong)),
        Method::ListTools => Dispatch::Reply(Ok(Payload::ToolList)),
        Method::CallTool => match tool_target(&msg.params) {
            Err(e) => Dispatch::Reply(Err(e)),
            Ok(name) => Dispatch::Tool { name, params: msg.params.unwrap() },
        },
        Method::Unknown => Dispatch::Reply(
            Err(
                RpcError {
                    code: METHOD_NOT_FOUND,
                    message: joined("Method not found: ", msg.method.as_str()),
                },
            ),
        ),
    }
}

/// The tools the server offers, in catalogue order.
pub open spec fn tool_names() -> Seq<Seq<char>> {
    seq!["list_todos"@, "add_todo"@, "toggle_todo"@, "update_todo"@, "remove_todo"@]
}

/// The catalogue's tool names are pairwise distinct, and each reads the arguments
/// listed for it.
pub proof fn lemma_tool_arguments()
    ensures
        tool_names()[0] == "list_todos"@,
        tool_names()[1] == "add_todo"@,
        tool_names()[2] == "toggle_todo"@,
        tool_names()[3] == "update_todo"@,
        tool_names()[4] == "remove_todo"@,
        tool_arguments("list_todos"@) == Seq::<Seq<char>>::empty(),
        tool_arguments("add_todo"@) == seq!["text"@],
        tool_arguments("toggle_todo"@) == seq!["id"@],
        tool_arguments("update_todo"@) == seq!["id"@, "text"@],
        tool_arguments("remove_todo"@) == seq!["id"@],
        forall|i: int, j: int| 0 <= i < j < 5 ==> tool_names()[i] != tool_names()[j],
{
    reveal_strlit("list_todos");
    reveal_strlit("add_todo");
    reveal_strlit("toggle_todo");
    reveal_strlit("update_todo");
    reveal_strlit("remove_todo");
    let n = tool_names();
    assert(n[0] =~= "list_todos"@);
    assert(n[1] =~= "add_todo"@);
    assert(n[2] =~= "toggle_todo"@);
    assert(n[3] =~= "update_todo"@);
    assert(n[4] =~= "remove_todo"@);
    // lengths 10, 8, 11, 11, 11; the three of length 11 differ in their first letter
    assert("list_todos"@.len() == 10);
    assert("add_todo"@.len() == 8);
    assert("toggle_todo"@[0] == 't');
    assert("update_todo"@[0] == 'u');
    assert("remove_todo"@[0] == 'r');
    assert("list_todos"@ != "add_todo"@);
    assert("list_todos"@ != "toggle_todo"@);
    assert("list_todos"@ != "update_todo"@);
    assert("list_todos"@ != "remove_todo"@);
    assert("add_todo"@ != "toggle_todo"@);
    assert("add_todo"@ != "update_todo"@);
    assert("add_todo"@ != "remove_todo"@);
    assert("toggle_todo"@ != "update_todo"@);
    assert("toggle_todo"@ != "remove_todo"@);
    assert("update_todo"@ != "remove_todo"@);
    assert(tool_arguments("list_todos"@) =~= Seq::<Seq<char>>::empty());
}

/// The string arguments (all required) that the tool `name` reads, in catalogue order.
pub open spec fn tool_arguments(name: Seq<char>) -> Seq<Seq<char>> {
    if name == "add_todo"@ {
        seq!["text"@]
    } else if name == "toggle_todo"@ || name == "remove_todo"@ {
        seq!["id"@]
    } else if name == "update_todo"@ {
        seq!["id"@, "text"@]
    } else {
        seq![]
    }
}

/// The descriptions of the catalogue's tools, in catalogue order.
pub open spec fn tool_descriptions() -> Seq<Seq<char>> {
    seq![
        "列出全部待办事项（按添加顺序），返回 id/text/done/created_at 字段的 JSON 数组。"@,
        "新增一条待办事项，返回创建后的条目（含 id）。文本首尾空白会被去除，纯空白文本会被拒绝。"@,
        "切换指定待办的完成状态（未完成 ↔ 已完成），返回切换后的条目。"@,
        "修改指定待办的文本内容，返回修改后的条目。纯空白文本会被拒绝。"@,
        "删除指定待办（不可撤回，完成与未完成条目均可删除）。"@,
    ]
}

/// The descriptions of each tool's arguments, in catalogue order.
pub open spec fn argument_descriptions() -> Seq<Seq<Seq<char>>> {
    seq![
        seq![],
        seq!["待办内容（非空）"@],
        seq!["待办条目 id（由 list_todos/add_todo 返回）"@],
        seq!["待办条目 id"@, "新的待办内容（非空）"@],
        seq!["待办条目 id"@],
    ]
}

fn tool(name: &str, description: &str, arguments: Vec<(String, String)>) -> (r: ToolSpec)
    ensures
        r.name@ == name@,
        r.description@ == description@,
        r.arguments == arguments,
{
    ToolSpec { name: name.to_owned(), description: description.to_owned(), arguments }
}

fn argument(name: &str, description: &str) -> (r: (String, String))
    ensures
        r.0@ == name@,
        r.1@ == description@,
{
    (name.to_owned(), description.to_owned())
}

/// The tool catalogue answered to `tools/list`: every tool, its description and its
/// required string arguments.
pub fn tool_catalog() -> (r: Vec<ToolSpec>)
    ensures
        r@.len() == tool_names().len(),
        forall|i: int|
            0 <= i < r@.len() ==> {
                &&& #[trigger] r@[i].name@ == tool_names()[i]
                &&& r@[i].description@ == tool_descriptions()[i]
                &&& r@[i].arguments@.len() == tool_arguments(tool_names()[i]).len()
                &&& forall|j: int|
                    0 <= j < r@[i].arguments@.len() ==> {
                        &&& #[trigger] r@[i].arguments@[j].0@ == tool_arguments(tool_names()[i])[j]
                        &&& r@[i].arguments@[j].1@ == argument_descriptions()[i][j]
                    }
            },
{
    proof {
        reveal_strlit("list_todos");
        reveal_strlit("add_todo");
        reveal_strlit("toggle_todo");
        reveal_strlit("update_todo");
        reveal_strlit("remove_todo");
    }
    let mut r: Vec<ToolSpec> = Vec::new();
    r.push(tool(
        "list_todos",
        "列出全部待办事项（按添加顺序），返回 id/text/done/created_at 字段的 JSON 数组。",
        Vec::new(),
    ));
    let mut add_args: Vec<(String, String)> = Vec::new();
    add_args.push(argument("text", "待办内容（非空）"));
    r.push(tool(
        "add_todo",
        "新增一条待办事项，返回创建后的条目（含 id）。文本首尾空白会被去除，纯空白文本会被拒绝。",
        add_args,
    ));
    let mut toggle_args: Vec<(String, String)> = Vec::new();
    toggle_args.push(argument("id", "待办条目 id（由 list_todos/add_todo 返回）"));
    r.push(tool(
        "toggle_todo",
        "切换指定待办的完成状态（未完成 ↔ 已完成），返回切换后的条目。",
        toggle_args,
    ));
    let mut update_args: Vec<(String, String)> = Vec::new();
    update_args.push(argument("id", "待办条目 id"));
    update_args.push(argument("text", "新的待办内容（非空）"));
    r.push(tool(
        "update_todo",
        "修改指定待办的文本内容，返回修改后的条目。纯空白文本会被拒绝。",
        update_args,
    ));
    let mut remove_args: Vec<(String, String)> = Vec::new();
    remove_args.push(argument("id", "待办条目 id"));
    r.push(tool(
        "remove_todo",
        "删除指定待办（不可撤回，完成与未完成条目均可删除）。",
        remove_args,
    ));
    proof {
        reveal_strlit("text");
        reveal_strlit("id");
        lemma_tool_arguments();
        assert forall|i: int| 0 <= i < r@.len() implies {
            &&& #[trigger] r@[i].name@ == tool_names()[i]
            &&& r@[i].description@ == tool_descriptions()[i]
            &&& r@[i].arguments@.len() == tool_arguments(tool_names()[i]).len()
            &&& forall|j: int|
                0 <= j < r@[i].arguments@.len() ==> {
                    &&& #[trigger] r@[i].arguments@[j].0@ == tool_arguments(tool_names()[i])[j]
                    &&& r@[i].arguments@[j].1@ == argument_descriptions()[i][j]
                }
        } by {
            if i == 0 {
            } else if i == 1 {
            } else if i == 2 {
            } else if i == 3 {
            } else {
            }
        }
    }
    r
}

} // verus!
