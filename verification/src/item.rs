use vstd::prelude::*;

verus! {

#[verifier::external_type_specification]
#[verifier::external_body]
pub struct ExIoError(std::io::Error);

#[verifier::external_type_specification]
#[verifier::external_body]
pub struct ExJsonError(serde_json::Error);

/// The format version that this library writes and accepts.
pub const FILE_VERSION: u32 = 1;

/// One todo entry.
#[derive(Debug, Clone, PartialEq, Eq)]
pub struct TodoItem {
    /// Identifier, a hyphenated UUID v4 for entries created here.
    pub id: String,
    /// The text, already trimmed.
    pub text: String,
    /// Completion state.
    pub done: bool,
    /// Creation time, in seconds since the Unix epoch.
    pub created_at: i64,
}

/// The stored document: a format version and the entries in insertion order.
#[derive(Debug, Clone)]
pub struct TodoFile {
    pub version: u32,
    pub items: Vec<TodoItem>,
}

/// Errors of the todo store.
#[derive(Debug)]
pub enum TodoError {
    /// Empty or white-space-only text.
    InvalidInput,
    /// No entry has the given id.
    NotFound,
    /// The data file is damaged or of another version.
    CorruptData,
    /// Reading or writing the disk failed.
    Io(std::io::Error),
    /// Encoding or decoding the data file failed.
    Serde(serde_json::Error),
}

impl TodoItem {
    /// A field-by-field copy.
    pub fn duplicate(&self) -> (r: TodoItem)
        ensures
            r == *self,
    {
        TodoItem {
            id: self.id.clone(),
            text: self.text.clone(),
            done: self.done,
            created_at: self.created_at,
        }
    }
}

impl TodoFile {
    /// The document that holds `items` in the current format.
    pub fn current(items: Vec<TodoItem>) -> (r: TodoFile)
        ensures
            r.version == FILE_VERSION,
            r.items@ == items@,
    {
        TodoFile { version: FILE_VERSION, items }
    }
}

/// The `Display` text of an I/O error.
#[verifier::external_body]
fn io_error_text(e: &std::io::Error) -> String {
    format!("{e}")
}

/// The `Display` text of a JSON error.
#[verifier::external_body]
fn json_error_text(e: &serde_json::Error) -> String {
    format!("{e}")
}

/// The user-facing description of each error, with the cause appended for disk and
/// encoding errors.
pub open spec fn describes(e: TodoError, s: Seq<char>) -> bool {
    match e {
        TodoError::InvalidInput => s == "内容为空，无法添加"@,
        TodoError::NotFound => s == "待办不存在"@,
        TodoError::CorruptData => s == "数据文件损坏"@,
        TodoError::Io(_) => s.len() >= "磁盘读写失败："@.len() && s.subrange(0, "磁盘读写失败："@.len() as int) == "磁盘读写失败："@,
        TodoError::Serde(_) => s.len() >= "数据序列化失败："@.len() && s.subrange(0, "数据序列化失败："@.len() as int) == "数据序列化失败："@,
    }
}

/// The short message shown by the desktop card for each error.
pub open spec fn card_text(e: TodoError) -> Seq<char> {
    match e {
        TodoError::InvalidInput => "内容为空，无法添加"@,
        TodoError::NotFound => "待办不存在"@,
        TodoError::Io(_) => "保存失败：写入磁盘出错"@,
        TodoError::CorruptData => "数据文件损坏"@,
        TodoError::Serde(_) => "数据序列化失败"@,
    }
}

impl TodoError {
    /// The error's description (what `Display` would print).
    pub fn message(&self) -> (r: String)
        ensures
            describes(*self, r@),
    {
        match self {
            TodoError::InvalidInput => "内容为空，无法添加".to_owned(),
            TodoError::NotFound => "待办不存在".to_owned(),
            TodoError::CorruptData => "数据文件损坏".to_owned(),
            TodoError::Io(e) => {
                let mut s = "磁盘读写失败：".to_owned();
                let cause = io_error_text(e);
                s.append(cause.as_str());
                proof {
                    reveal_strlit("磁盘读写失败：");
                    assert(s@.subrange(0, "磁盘读写失败："@.len() as int) =~= "磁盘读写失败："@);
                }
                s
            },
            TodoError::Serde(e) => {
                let mut s = "数据序列化失败：".to_owned();
                let cause = json_error_text(e);
                s.append(cause.as_str());
                proof {
                    reveal_strlit("数据序列化失败：");
                    assert(s@.subrange(0, "数据序列化失败："@.len() as int) =~= "数据序列化失败："@);
                }
                s
            },
        }
    }
}

/// The short, cause-free message that the desktop card shows for an error.
pub fn error_message(err: TodoError) -> (r: String)
    ensures
        r@ == card_text(err),
{
    match err {
        TodoError::InvalidInput => "内容为空，无法添加".to_owned(),
        TodoError::NotFound => "待办不存在".to_owned(),
        TodoError::Io(_) => "保存失败：写入磁盘出错".to_owned(),
        TodoError::CorruptData => "数据文件损坏".to_owned(),
        TodoError::Serde(_) => "数据序列化失败".to_owned(),
    }
}

} // verus!
