//! Rows of the native module's database.

use vstd::prelude::*;

verus! {

/// A bookmark.
#[derive(Debug, Clone)]
pub struct Bookmark {
    pub id: String,
    pub title: String,
    pub url: String,
    pub favicon: Option<String>,
    pub folder_id: Option<String>,
    pub sort_order: i64,
    pub created_at: String,
}

/// A folder of bookmarks.
#[derive(Debug, Clone)]
pub struct BookmarkFolder {
    pub id: String,
    pub name: String,
    pub parent_id: Option<String>,
    pub sort_order: i64,
}

/// A conversation with the assistant.
#[derive(Debug, Clone)]
pub struct Conversation {
    pub id: String,
    pub title: String,
    pub is_pinned: bool,
    pub model_id: Option<String>,
    pub created_at: i64,
    pub updated_at: i64,
}

/// A visited page.
#[derive(Debug, Clone)]
pub struct HistoryEntry {
    pub id: String,
    pub title: String,
    pub url: String,
    pub visited_at: String,
}

/// A configured MCP server.
#[derive(Debug, Clone)]
pub struct McpServer {
    pub id: String,
    pub name: String,
    pub server_type: String,
    pub url: Option<String>,
    pub command: Option<String>,
    pub args: Option<String>,
    pub cwd: Option<String>,
    pub env: Option<String>,
    pub disabled: bool,
    pub timeout: Option<i64>,
    pub enabled: bool,
    pub created_at: i64,
    pub updated_at: i64,
    pub headers: Option<String>,
}

/// A message of a conversation.
#[derive(Debug, Clone)]
pub struct Message {
    pub id: String,
    pub conversation_id: String,
    pub role: String,
    pub content: String,
    pub thinking_content: Option<String>,
    pub attachments: Option<String>,
    pub feedback: Option<String>,
    pub created_at: i64,
}

impl McpServer {
    /// Whether the server is offered to the model: enabled and not disabled.
    pub fn is_active(&self) -> (r: bool)
        ensures
            r == (self.enabled && !self.disabled),
    {
        self.enabled && !self.disabled
    }
}

/// The fields of an MCP server that an update may set; `None` keeps the
/// stored value, and so does `Some(None)`.
#[derive(Debug, Clone)]
pub struct McpServerUpdate {
    pub name: Option<String>,
    pub server_type: Option<String>,
    pub url: Option<Option<String>>,
    pub command: Option<Option<String>>,
    pub args: Option<Option<String>>,
    pub cwd: Option<Option<String>>,
    pub env: Option<Option<String>>,
    pub timeout: Option<Option<i64>>,
    pub disabled: Option<bool>,
    pub enabled: Option<bool>,
    pub headers: Option<Option<String>>,
}

/// The value an update gives an optional field: the new value where one is
/// given, else the stored one.
pub open spec fn merged<T>(update: Option<Option<T>>, stored: Option<T>) -> Option<T> {
    match update {
        Some(Some(v)) => Some(v),
        _ => stored,
    }
}

/// The value an update gives a required field.
pub open spec fn kept<T>(update: Option<T>, stored: T) -> T {
    match update {
        Some(v) => v,
        None => stored,
    }
}

fn merge_opt<T>(update: Option<Option<T>>, stored: Option<T>) -> (r: Option<T>)
    ensures
        r == merged(update, stored),
{
    match update {
        Some(Some(v)) => Some(v),
        _ => stored,
    }
}

fn keep<T>(update: Option<T>, stored: T) -> (r: T)
    ensures
        r == kept(update, stored),
{
    match update {
        Some(v) => v,
        None => stored,
    }
}

/// A server after an update made at `now`.
pub open spec fn updated_server(s: McpServer, u: McpServerUpdate, now: i64) -> McpServer {
    McpServer {
        id: s.id,
        name: kept(u.name, s.name),
        server_type: kept(u.server_type, s.server_type),
        url: merged(u.url, s.url),
        command: merged(u.command, s.command),
        args: merged(u.args, s.args),
        cwd: merged(u.cwd, s.cwd),
        env: merged(u.env, s.env),
        disabled: kept(u.disabled, s.disabled),
        timeout: merged(u.timeout, s.timeout),
        enabled: kept(u.enabled, s.enabled),
        created_at: s.created_at,
        updated_at: now,
        headers: merged(u.headers, s.headers),
    }
}

/// An update that sets nothing.
pub open spec fn empty_update() -> McpServerUpdate {
    McpServerUpdate {
        name: None,
        server_type: None,
        url: None,
        command: None,
        args: None,
        cwd: None,
        env: None,
        timeout: None,
        disabled: None,
        enabled: None,
        headers: None,
    }
}

impl McpServer {
    /// A new server: of type `stdio` where none is named, not disabled where
    /// not said, and enabled unless said otherwise or disabled.
    pub fn create(
        id: String,
        name: String,
        server_type: Option<String>,
        url: Option<String>,
        command: Option<String>,
        args: Option<String>,
        cwd: Option<String>,
        env: Option<String>,
        timeout: Option<i64>,
        disabled: Option<bool>,
        enabled: Option<bool>,
        headers: Option<String>,
        now: i64,
    ) -> (r: McpServer)
        ensures
            r.id == id && r.name == name,
            r.server_type@ == match server_type {
                Some(t) => t@,
                None => "stdio"@,
            },
            r.url == url && r.command == command && r.args == args && r.cwd == cwd && r.env == env,
            r.timeout == timeout && r.headers == headers,
            r.disabled == kept(disabled, false),
            r.enabled == kept(enabled, !kept(disabled, false)),
            r.created_at == now && r.updated_at == now,
    {
        let server_type = match server_type {
            Some(t) => t,
            None => crate::text::owned("stdio"),
        };
        let dis = keep(disabled, false);
        let en = keep(enabled, !dis);
        McpServer {
            id,
            name,
            server_type,
            url,
            command,
            args,
            cwd,
            env,
            disabled: dis,
            timeout,
            enabled: en,
            created_at: now,
            updated_at: now,
            headers,
        }
    }

    /// The server after an update made at `now`: each field takes the value
    /// the update gives it, or keeps its own.
    pub fn updated(&self, update: McpServerUpdate, now: i64) -> (r: McpServer)
        ensures
            r == updated_server(*self, update, now),
    {
        McpServer {
            id: self.id.clone(),
            name: keep(update.name, self.name.clone()),
            server_type: keep(update.server_type, self.server_type.clone()),
            url: merge_opt(update.url, self.url.clone()),
            command: merge_opt(update.command, self.command.clone()),
            args: merge_opt(update.args, self.args.clone()),
            cwd: merge_opt(update.cwd, self.cwd.clone()),
            env: merge_opt(update.env, self.env.clone()),
            disabled: keep(update.disabled, self.disabled),
            timeout: merge_opt(update.timeout, self.timeout),
            enabled: keep(update.enabled, self.enabled),
            created_at: self.created_at,
            updated_at: now,
            headers: merge_opt(update.headers, self.headers.clone()),
        }
    }
}

impl Conversation {
    /// A new conversation, titled "新对话" where no title is given.
    pub fn create(id: String, title: Option<String>, model_id: Option<String>, now: i64) -> (r: Conversation)
        ensures
            r.id == id,
            r.title@ == match title {
                Some(t) => t@,
                None => "新对话"@,
            },
            !r.is_pinned,
            r.model_id == model_id,
            r.created_at == now && r.updated_at == now,
    {
        let title = match title {
            Some(t) => t,
            None => crate::text::owned("新对话"),
        };
        Conversation { id, title, is_pinned: false, model_id, created_at: now, updated_at: now }
    }

    /// The conversation after an update made at `now`: title, pin and model
    /// take the values given, or keep their own; the time of the last update
    /// changes only where something is given.
    pub fn updated(&self, title: Option<String>, is_pinned: Option<bool>, model_id: Option<String>, now: i64) -> (r: Conversation)
        ensures
            r.id == self.id,
            r.title == kept(title, self.title),
            r.is_pinned == kept(is_pinned, self.is_pinned),
            r.model_id == match model_id {
                Some(m) => Some(m),
                None => self.model_id,
            },
            r.created_at == self.created_at,
            r.updated_at == if title is Some || is_pinned is Some || model_id is Some {
                now
            } else {
                self.updated_at
            },
    {
        let touched = title.is_some() || is_pinned.is_some() || model_id.is_some();
        Conversation {
            id: self.id.clone(),
            title: keep(title, self.title.clone()),
            is_pinned: keep(is_pinned, self.is_pinned),
            model_id: match model_id {
                Some(m) => Some(m),
                None => self.model_id.clone(),
            },
            created_at: self.created_at,
            updated_at: if touched { now } else { self.updated_at },
        }
    }
}

/// An update that sets nothing changes nothing of a server but the time of
/// its last update; neither does one that asks to clear an optional field,
/// which an update cannot do.
pub proof fn lemma_empty_update_keeps_server(s: McpServer, now: i64)
    ensures
        updated_server(s, empty_update(), now) == (McpServer { updated_at: now, ..s }),
        updated_server(s, McpServerUpdate { url: Some(None), ..empty_update() }, now) == (McpServer { updated_at: now, ..s }),
{
}

} // verus!
