//! Real-time collaboration: sessions with participants, shared documents and
//! an operation history; permission checks; and the ordering that settles
//! concurrent operations on a document.
//!
//! Times are milliseconds since the Unix epoch (UTC). Operation and event
//! payloads are JSON text.

use vstd::prelude::*;
use crate::error::{ClaudeError, Result};
use crate::ids::{new_uuid, is_v4_uuid_text};
use crate::keyed::{unique_keys, key_map, lemma_key_at, lemma_key_update, lemma_key_push,
    lemma_key_remove, lemma_key_map_len, find_key};

verus! {

/// 用户信息
#[derive(Debug, Clone)]
pub struct User {
    pub id: String,
    pub name: String,
    pub email: String,
    pub avatar_url: Option<String>,
    pub role: UserRole,
    pub preferences: UserPreferences,
}

/// 用户角色
#[derive(Debug, Clone, Copy, PartialEq, Eq, Structural)]
pub enum UserRole {
    Owner,
    Admin,
    Editor,
    Viewer,
    Guest,
}

/// 用户偏好设置
#[derive(Debug, Clone)]
pub struct UserPreferences {
    pub theme: String,
    pub language: String,
    pub notifications: NotificationSettings,
    pub editor_settings: EditorSettings,
}

/// 通知设置
#[derive(Debug, Clone)]
pub struct NotificationSettings {
    pub email_notifications: bool,
    pub push_notifications: bool,
    pub sound_notifications: bool,
    pub notification_types: Vec<String>,
}

/// 编辑器设置
#[derive(Debug, Clone, Copy)]
pub struct EditorSettings {
    pub font_size: u32,
    pub tab_size: u32,
    pub word_wrap: bool,
    pub show_line_numbers: bool,
    pub syntax_highlighting: bool,
}

/// 参与者状态
#[derive(Debug, Clone, Copy, PartialEq, Eq, Structural)]
pub enum ParticipantStatus {
    Online,
    Away,
    Busy,
    Offline,
}

/// 光标位置
#[derive(Debug, Clone)]
pub struct CursorPosition {
    pub document_id: String,
    pub line: u32,
    pub column: u32,
}

/// 文本选择
#[derive(Debug, Clone)]
pub struct TextSelection {
    pub document_id: String,
    pub start: Position,
    pub end: Position,
}

/// 位置
#[derive(Debug, Clone, Copy)]
pub struct Position {
    pub line: u32,
    pub column: u32,
}

/// 文档权限
#[derive(Debug, Clone)]
pub struct DocumentPermissions {
    pub read: Vec<String>,
    pub write: Vec<String>,
    pub admin: Vec<String>,
}

/// 操作类型枚举
#[derive(Debug, Clone)]
pub enum OperationType {
    /// 插入文本
    Insert { position: Position, text: String },
    /// 删除文本
    Delete { start: Position, end: Position },
    /// 替换文本
    Replace { start: Position, end: Position, text: String },
    /// 移动光标
    MoveCursor { position: Position },
    /// 选择文本
    Select { start: Position, end: Position },
    /// 格式化
    Format { start: Position, end: Position, format: FormatType },
}

/// 格式类型
#[derive(Debug, Clone, Copy, PartialEq, Eq, Structural)]
pub enum FormatType {
    Bold,
    Italic,
    Underline,
    Code,
    Comment,
}

/// 会话状态
#[derive(Debug, Clone, Copy, PartialEq, Eq, Structural)]
pub enum SessionStatus {
    Active,
    Paused,
    Ended,
}

/// 协作事件类型
#[derive(Debug, Clone, Copy, PartialEq, Eq, Structural)]
pub enum CollaborationEventType {
    /// 用户加入
    UserJoined,
    /// 用户离开
    UserLeft,
    /// 文档操作
    DocumentOperation,
    /// 光标移动
    CursorMoved,
    /// 文本选择
    TextSelected,
    /// 聊天消息
    ChatMessage,
    /// 状态更新
    StatusUpdate,
}

/// 会话权限
#[derive(Debug, Clone)]
pub struct SessionPermissions {
    pub can_invite: Vec<String>,
    pub can_edit_documents: Vec<String>,
    pub can_create_documents: Vec<String>,
    pub can_delete_documents: Vec<String>,
    pub can_manage_permissions: Vec<String>,
}

/// 操作转换器
#[derive(Debug, Clone, Copy, PartialEq, Eq, Structural)]
pub struct OperationalTransform;

/// 简单冲突解决器实现
#[derive(Debug, Clone, Copy, PartialEq, Eq, Structural)]
pub struct SimpleConflictResolver;

/// 会话信息
#[derive(Debug, Clone)]
pub struct SessionInfo {
    pub id: String,
    pub name: String,
    pub creator: User,
    pub participant_count: usize,
    pub document_count: usize,
    pub status: SessionStatus,
    pub created_at: u64,
}

/// Two users agree in every field.
pub open spec fn same_user(a: User, b: User) -> bool {
    &&& a.id == b.id
    &&& a.name == b.name
    &&& a.email == b.email
    &&& a.avatar_url == b.avatar_url
    &&& a.role == b.role
    &&& a.preferences.theme == b.preferences.theme
    &&& a.preferences.language == b.preferences.language
    &&& a.preferences.notifications.email_notifications == b.preferences.notifications.email_notifications
    &&& a.preferences.notifications.push_notifications == b.preferences.notifications.push_notifications
    &&& a.preferences.notifications.sound_notifications == b.preferences.notifications.sound_notifications
    &&& a.preferences.notifications.notification_types@ == b.preferences.notifications.notification_types@
    &&& a.preferences.editor_settings == b.preferences.editor_settings
}

/// A copy of a user.
pub fn clone_user(u: &User) -> (r: User)
    ensures
        same_user(r, *u),
{
    let n = &u.preferences.notifications;
    let types = n.notification_types.clone();
    assert(types@ =~= n.notification_types@);
    let avatar = match &u.avatar_url {
        Some(a) => Some(a.clone()),
        None => None,
    };
    User {
        id: u.id.clone(),
        name: u.name.clone(),
        email: u.email.clone(),
        avatar_url: avatar,
        role: u.role,
        preferences: UserPreferences {
            theme: u.preferences.theme.clone(),
            language: u.preferences.language.clone(),
            notifications: NotificationSettings {
                email_notifications: n.email_notifications,
                push_notifications: n.push_notifications,
                sound_notifications: n.sound_notifications,
                notification_types: types,
            },
            editor_settings: u.preferences.editor_settings,
        },
    }
}

/// A user taking part in a session.
#[derive(Debug, Clone)]
pub struct Participant {
    pub user: User,
    pub joined_at: i64,
    pub last_activity: i64,
    pub status: ParticipantStatus,
    pub cursor_position: Option<CursorPosition>,
    pub selection: Option<TextSelection>,
}

/// A document shared in a session.
#[derive(Debug, Clone)]
pub struct SharedDocument {
    pub id: String,
    pub name: String,
    pub content: String,
    pub language: String,
    pub version: u64,
    pub created_at: i64,
    pub updated_at: i64,
    pub created_by: String,
    pub last_modified_by: String,
    pub permissions: DocumentPermissions,
}

/// An edit made by a user on a document at a version.
#[derive(Debug, Clone)]
pub struct Operation {
    pub id: String,
    pub operation_type: OperationType,
    pub document_id: String,
    pub user_id: String,
    pub timestamp: i64,
    pub version: u64,
    pub data: String,
}

/// Something that happened in a session, for subscribers.
#[derive(Debug, Clone)]
pub struct CollaborationEvent {
    pub id: String,
    pub session_id: String,
    pub event_type: CollaborationEventType,
    pub user_id: String,
    pub timestamp: i64,
    pub data: String,
}

/// The current time in milliseconds since the Unix epoch
/// (`chrono::DateTime::<Utc>::from(SystemTime::now())`); a clock set before
/// the epoch gives a negative time rather than a panic. Nothing is claimed
/// of the value: it is the time.
#[verifier::external_body]
fn utc_now_millis() -> i64 {
    chrono::DateTime::<chrono::Utc>::from(std::time::SystemTime::now()).timestamp_millis()
}

/// Whether `v` holds a string equal to `s`.
pub open spec fn lists(v: Seq<String>, s: Seq<char>) -> bool {
    exists|i: int| 0 <= i < v.len() && #[trigger] v[i]@ == s
}

fn list_contains(v: &Vec<String>, s: &str) -> (b: bool)
    ensures
        b == lists(v@, s@),
{
    let t = String::from_str(s);
    let mut i: usize = 0;
    while i < v.len()
        invariant
            i <= v@.len(),
            t@ == s@,
            forall|j: int| 0 <= j < i ==> v@[j]@ != s@,
        decreases v.len() - i,
    {
        if v[i] == t {
            assert(v@[i as int]@ == s@);
            return true;
        }
        i = i + 1;
    }
    false
}

/// The list of users that `permission` names in a session's permissions;
/// an unknown permission names no list.
pub open spec fn permission_list(p: SessionPermissions, permission: Seq<char>) -> Option<Seq<String>> {
    if permission == "invite"@ { Some(p.can_invite@) }
    else if permission == "edit"@ { Some(p.can_edit_documents@) }
    else if permission == "create"@ { Some(p.can_create_documents@) }
    else if permission == "delete"@ { Some(p.can_delete_documents@) }
    else if permission == "manage"@ { Some(p.can_manage_permissions@) }
    else { None }
}

/// Whether a user holds a permission in a session under the given
/// permissions: the session is known and its list for the permission names
/// the user.
pub open spec fn holds_permission(perms: Map<Seq<char>, SessionPermissions>, session_id: Seq<char>,
    user_id: Seq<char>, permission: Seq<char>) -> bool {
    perms.contains_key(session_id) && match permission_list(perms[session_id], permission) {
        Some(l) => lists(l, user_id),
        None => false,
    }
}

/// The permissions of each session.
pub struct PermissionManager {
    session_permissions: Vec<(String, SessionPermissions)>,
}

impl PermissionManager {
    /// The permissions by session id.
    pub closed spec fn permissions(&self) -> Map<Seq<char>, SessionPermissions> {
        key_map(self.session_permissions@)
    }

    /// Session ids are distinct.
    pub closed spec fn well_formed(&self) -> bool {
        unique_keys(self.session_permissions@)
    }

    /// A manager that knows no session.
    pub fn new() -> (m: PermissionManager)
        ensures
            m.well_formed(),
            m.permissions() == Map::<Seq<char>, SessionPermissions>::empty(),
    {
        let m = PermissionManager { session_permissions: Vec::new() };
        assert(m.permissions() =~= Map::<Seq<char>, SessionPermissions>::empty());
        m
    }

    /// Whether `user_id` holds `permission` ("invite", "edit", "create",
    /// "delete" or "manage") in the session: only a user listed for that
    /// permission in a known session does.
    pub fn check_permission(&self, session_id: &str, user_id: &str, permission: &str) -> (b: bool)
        requires
            self.well_formed(),
        ensures
            b == holds_permission(self.permissions(), session_id@, user_id@, permission@),
    {
        match find_key(&self.session_permissions, session_id) {
            None => false,
            Some(i) => {
                proof { lemma_key_at(self.session_permissions@, i as int); }
                let p = &self.session_permissions[i].1;
                let perm = String::from_str(permission);
                if perm == String::from_str("invite") {
                    list_contains(&p.can_invite, user_id)
                } else if perm == String::from_str("edit") {
                    list_contains(&p.can_edit_documents, user_id)
                } else if perm == String::from_str("create") {
                    list_contains(&p.can_create_documents, user_id)
                } else if perm == String::from_str("delete") {
                    list_contains(&p.can_delete_documents, user_id)
                } else if perm == String::from_str("manage") {
                    list_contains(&p.can_manage_permissions, user_id)
                } else {
                    false
                }
            },
        }
    }
}

/// `x` placed into `s` after every operation no later than it.
pub open spec fn insert_by_time(s: Seq<Operation>, x: Operation) -> Seq<Operation>
    decreases s.len(),
{
    if s.len() == 0 {
        seq![x]
    } else if s.last().timestamp <= x.timestamp {
        s.push(x)
    } else {
        insert_by_time(s.drop_last(), x).push(s.last())
    }
}

/// `s` ordered by time, operations with equal times kept in their order
/// (a stable sort by timestamp).
pub open spec fn sort_by_time(s: Seq<Operation>) -> Seq<Operation>
    decreases s.len(),
{
    if s.len() == 0 { s } else { insert_by_time(sort_by_time(s.drop_last()), s.last()) }
}

/// Every operation is no later than the ones after it.
pub open spec fn time_ordered(s: Seq<Operation>) -> bool {
    forall|i: int, j: int| 0 <= i < j < s.len() ==> s[i].timestamp <= s[j].timestamp
}

proof fn lemma_insert_at(s: Seq<Operation>, x: Operation, p: int)
    requires
        0 <= p <= s.len(),
        p > 0 ==> s[p - 1].timestamp <= x.timestamp,
        forall|j: int| p <= j < s.len() ==> s[j].timestamp > x.timestamp,
    ensures
        insert_by_time(s, x) == s.insert(p, x),
    decreases s.len(),
{
    if s.len() == 0 {
        assert(s.insert(p, x) =~= seq![x]);
    } else if p == s.len() {
        assert(s.insert(p, x) =~= s.push(x));
    } else {
        assert(s.last().timestamp > x.timestamp);
        lemma_insert_at(s.drop_last(), x, p);
        assert(s.drop_last().insert(p, x).push(s.last()) =~= s.insert(p, x));
    }
}

proof fn lemma_insert_props(s: Seq<Operation>, x: Operation)
    requires
        time_ordered(s),
    ensures
        time_ordered(insert_by_time(s, x)),
        insert_by_time(s, x).to_multiset() == s.to_multiset().insert(x),
    decreases s.len(),
{
    broadcast use vstd::seq_lib::group_to_multiset_ensures;
    if s.len() == 0 {
        assert(seq![x] =~= Seq::<Operation>::empty().push(x));
    } else if s.last().timestamp <= x.timestamp {
        let t = s.push(x);
        assert forall|i: int, j: int| 0 <= i < j < t.len() implies t[i].timestamp <= t[j].timestamp by {
            if j == s.len() { assert(s[i].timestamp <= s[s.len() - 1].timestamp || i == s.len() - 1); }
        }
    } else {
        let p = s.drop_last();
        assert(time_ordered(p)) by {
            assert forall|i: int, j: int| 0 <= i < j < p.len() implies p[i].timestamp <= p[j].timestamp by {
                assert(p[i] == s[i] && p[j] == s[j]);
            }
        }
        lemma_insert_props(p, x);
        let r = insert_by_time(p, x);
        let t = r.push(s.last());
        assert forall|i: int| 0 <= i < r.len() implies #[trigger] r[i].timestamp <= s.last().timestamp by {
            assert(r.to_multiset().count(r[i]) > 0);
            assert(p.to_multiset().insert(x).count(r[i]) > 0);
            if r[i] != x {
                assert(p.to_multiset().count(r[i]) > 0);
                assert(p.contains(r[i]));
                let k = choose|k: int| 0 <= k < p.len() && p[k] == r[i];
                assert(s[k] == p[k]);
            }
        }
        assert forall|i: int, j: int| 0 <= i < j < t.len() implies t[i].timestamp <= t[j].timestamp by {
            if j == r.len() { assert(t[i] == r[i]); } else { assert(t[i] == r[i] && t[j] == r[j]); }
        }
        assert(p.push(s.last()) =~= s);
        assert(s.to_multiset() == p.to_multiset().insert(s.last()));
        assert(t.to_multiset() =~= s.to_multiset().insert(x));
    }
}

/// Conflicting operations are settled in time order: the settled order is
/// ordered by time and holds the same operations, each as often.
pub proof fn law_settled_in_time_order(s: Seq<Operation>)
    ensures
        time_ordered(sort_by_time(s)),
        sort_by_time(s).to_multiset() == s.to_multiset(),
    decreases s.len(),
{
    broadcast use vstd::seq_lib::group_to_multiset_ensures;
    if s.len() > 0 {
        law_settled_in_time_order(s.drop_last());
        lemma_insert_props(sort_by_time(s.drop_last()), s.last());
        assert(s.drop_last().push(s.last()) =~= s);
    }
}

/// Settles conflicting operations by putting them in time order.
pub trait ConflictResolver {
    /// The operations to apply, in the order to apply them.
    fn resolve_conflict(&self, operations: Vec<Operation>) -> Result<Vec<Operation>>;
}

impl ConflictResolver for SimpleConflictResolver {
    /// Orders the operations by time, keeping the order of operations with
    /// equal times.
    fn resolve_conflict(&self, operations: Vec<Operation>) -> (res: Result<Vec<Operation>>)
        ensures
            res matches Ok(v) && v@ == sort_by_time(operations@),
    {
        let mut rest = operations;
        let mut out: Vec<Operation> = Vec::new();
        let ghost input = rest@;
        let ghost mut k: int = 0;
        while rest.len() > 0
            invariant
                0 <= k <= input.len(),
                rest@ == input.skip(k),
                out@ == sort_by_time(input.take(k)),
            decreases rest.len(),
        {
            let op = rest.remove(0);
            proof {
                law_settled_in_time_order(input.take(k));
                assert(input.take(k + 1).drop_last() =~= input.take(k));
                assert(input.take(k + 1).last() == op);
            }
            let mut p = out.len();
            while p > 0 && out[p - 1].timestamp > op.timestamp
                invariant
                    p <= out@.len(),
                    forall|j: int| p <= j < out@.len() ==> out@[j].timestamp > op.timestamp,
                decreases p,
            {
                p = p - 1;
            }
            proof { lemma_insert_at(out@, op, p as int); }
            out.insert(p, op);
            proof {
                k = k + 1;
                assert(rest@ =~= input.skip(k));
            }
        }
        assert(input.take(input.len() as int) =~= input);
        Ok(out)
    }
}


/// A session: its participants and documents by id, its operation history
/// and its status.
pub struct CollaborationSession {
    pub id: String,
    pub name: String,
    pub creator: User,
    participants: Vec<(String, Participant)>,
    documents: Vec<(String, SharedDocument)>,
    operation_history: Vec<Operation>,
    status: SessionStatus,
    permission_manager: PermissionManager,
}

impl CollaborationSession {
    /// The session's id.
    pub closed spec fn id_view(&self) -> Seq<char> {
        self.id@
    }

    /// The session's name.
    pub closed spec fn name_view(&self) -> Seq<char> {
        self.name@
    }

    /// Who created the session.
    pub closed spec fn creator_view(&self) -> User {
        self.creator
    }

    /// The participants by user id.
    pub closed spec fn participants(&self) -> Map<Seq<char>, Participant> {
        key_map(self.participants@)
    }

    /// The documents by document id.
    pub closed spec fn documents(&self) -> Map<Seq<char>, SharedDocument> {
        key_map(self.documents@)
    }

    /// The operations applied so far, in order.
    pub closed spec fn history(&self) -> Seq<Operation> {
        self.operation_history@
    }

    /// The session's status.
    pub closed spec fn status(&self) -> SessionStatus {
        self.status
    }

    /// Ids are distinct among participants and among documents.
    pub closed spec fn well_formed(&self) -> bool {
        unique_keys(self.participants@) && unique_keys(self.documents@) && self.permission_manager.well_formed()
    }
}

/// Whether `o` conflicts with `op`: same document, same or later version,
/// another user.
pub open spec fn conflicts(o: Operation, op: Operation) -> bool {
    o.document_id@ == op.document_id@ && o.version >= op.version && o.user_id@ != op.user_id@
}

/// The operations of `history` that conflict with `op`, in order.
pub open spec fn conflicts_with(history: Seq<Operation>, op: Operation) -> Seq<Operation>
    decreases history.len(),
{
    if history.len() == 0 {
        Seq::empty()
    } else {
        let r = conflicts_with(history.drop_last(), op);
        if conflicts(history.last(), op) { r.push(history.last()) } else { r }
    }
}

/// The operations to apply for `op`: `op` alone without conflicts, else the
/// conflicting operations and `op`, settled into time order.
pub open spec fn operations_to_apply(history: Seq<Operation>, op: Operation) -> Seq<Operation> {
    let c = conflicts_with(history, op);
    if c.len() == 0 { seq![op] } else { sort_by_time(c.push(op)) }
}

/// A document after `ops` were applied to it at `now`: its version moves on
/// by one per operation and the last operation's user modified it last.
pub open spec fn applied_document(d: SharedDocument, ops: Seq<Operation>, now: i64) -> SharedDocument {
    if ops.len() == 0 {
        d
    } else {
        SharedDocument {
            version: (d.version + ops.len()) as u64,
            updated_at: now,
            last_modified_by: ops.last().user_id,
            ..d
        }
    }
}

/// `s` is the session that opening `id` named `name` by `creator` at `now`
/// makes: the creator as its one participant, arrived at `now`, no document,
/// no history, and active.
pub open spec fn new_session(s: CollaborationSession, id: Seq<char>, name: Seq<char>, creator: User, now: i64) -> bool {
    &&& s.id_view() == id
    &&& s.name_view() == name
    &&& s.creator_view() == creator
    &&& same_user(s.participants()[creator.id@].user, creator)
    &&& s.participants().dom() == set![creator.id@]
    &&& arrived(s.participants()[creator.id@], creator.id@, now)
    &&& s.documents() == Map::<Seq<char>, SharedDocument>::empty()
    &&& s.history() == Seq::<Operation>::empty()
    &&& s.status() == SessionStatus::Active
}

/// `after` is `before` with `user` joined to session `sid` at `now`, in place
/// of any participant with the same id; nothing else changes.
pub open spec fn joined(before: Map<Seq<char>, CollaborationSession>, after: Map<Seq<char>, CollaborationSession>,
    sid: Seq<char>, user: User, now: i64) -> bool {
    let s = before[sid];
    let t = after[sid];
    &&& after.remove(sid) == before.remove(sid)
    &&& after.contains_key(sid)
    &&& t.participants().remove(user.id@) == s.participants().remove(user.id@)
    &&& t.participants().contains_key(user.id@)
    &&& arrived(t.participants()[user.id@], user.id@, now)
    &&& same_user(t.participants()[user.id@].user, user)
    &&& t.id_view() == s.id_view() && t.name_view() == s.name_view()
    &&& t.creator_view() == s.creator_view()
    &&& t.documents() == s.documents() && t.history() == s.history() && t.status() == s.status()
}

/// `after` is `before` with `operation` applied in session `sid` at `now`:
/// the conflicting operations of the history settled with it in time order,
/// each moving its document on by a version and joining the history.
pub open spec fn applied(before: Map<Seq<char>, CollaborationSession>, after: Map<Seq<char>, CollaborationSession>,
    sid: Seq<char>, operation: Operation, now: i64) -> bool {
    &&& after.remove(sid) == before.remove(sid)
    &&& after.contains_key(sid)
    &&& session_after(before[sid], after[sid], operation.document_id@,
        operations_to_apply(before[sid].history(), operation), now)
}

/// Live sessions by id, with conflicts settled in time order.
pub struct CollaborationManager {
    sessions: Vec<(String, CollaborationSession)>,
    user_manager: UserManager,
    document_manager: DocumentManager,
    conflict_resolver: SimpleConflictResolver,
}

/// The error for an unknown session.
pub open spec fn is_session_not_found(e: ClaudeError) -> bool {
    e matches ClaudeError::Validation { field, message } && field@ == "session"@ && message@ == "Session not found"@
}

/// The error for an unknown document.
pub open spec fn is_document_not_found(e: ClaudeError) -> bool {
    e matches ClaudeError::Validation { field, message } && field@ == "document"@ && message@ == "Document not found"@
}

fn session_not_found() -> (e: ClaudeError)
    ensures
        is_session_not_found(e),
{
    ClaudeError::Validation { field: String::from_str("session"), message: String::from_str("Session not found") }
}

fn document_not_found() -> (e: ClaudeError)
    ensures
        is_document_not_found(e),
{
    ClaudeError::Validation { field: String::from_str("document"), message: String::from_str("Document not found") }
}

/// A participant who arrived at `now` and is online, with no cursor or selection.
pub open spec fn arrived(p: Participant, user_id: Seq<char>, now: i64) -> bool {
    &&& p.user.id@ == user_id
    &&& p.joined_at == now
    &&& p.last_activity == now
    &&& p.status == ParticipantStatus::Online
    &&& p.cursor_position is None
    &&& p.selection is None
}

impl CollaborationManager {
    /// The sessions by id.
    pub closed spec fn sessions(&self) -> Map<Seq<char>, CollaborationSession> {
        key_map(self.sessions@)
    }

    /// Session ids are distinct and every session is well formed.
    pub closed spec fn well_formed(&self) -> bool {
        &&& unique_keys(self.sessions@)
        &&& forall|i: int| 0 <= i < self.sessions@.len() ==> (#[trigger] self.sessions@[i]).1.well_formed()
    }

    /// A manager without sessions.
    pub fn new() -> (m: CollaborationManager)
        ensures
            m.well_formed(),
            m.sessions() == Map::<Seq<char>, CollaborationSession>::empty(),
    {
        let m = CollaborationManager {
            sessions: Vec::new(),
            user_manager: UserManager::new(),
            document_manager: DocumentManager::new(),
            conflict_resolver: SimpleConflictResolver,
        };
        assert(m.sessions() =~= Map::<Seq<char>, CollaborationSession>::empty());
        m
    }

    proof fn lemma_session_wf(&self, i: int)
        requires
            self.well_formed(),
            0 <= i < self.sessions@.len(),
        ensures
            self.sessions().contains_key(self.sessions@[i].0@),
            self.sessions()[self.sessions@[i].0@] == self.sessions@[i].1,
            self.sessions@[i].1.well_formed(),
    {
        lemma_key_at(self.sessions@, i);
    }

    /// Puts `s` back at index `i`, under the same id.
    fn put_back(&mut self, i: usize, item: (String, CollaborationSession))
        requires
            old(self).well_formed(),
            i < old(self).sessions@.len(),
            item.0@ == old(self).sessions@[i as int].0@,
            item.1.well_formed(),
        ensures
            final(self).well_formed(),
            final(self).sessions() == old(self).sessions().insert(item.0@, item.1),
    {
        let ghost before = self.sessions@;
        proof { lemma_key_update(before, i as int, item); }
        self.sessions.set(i, item);
        assert forall|j: int| 0 <= j < self.sessions@.len() implies (#[trigger] self.sessions@[j]).1.well_formed() by {
            if j != i { assert(self.sessions@[j] == before[j]); }
        }
    }

    /// Opens a session with `id` and `name`, created by `creator` at `now`,
    /// who is its first participant; a session under the same id is replaced.
    pub fn create_session_with_id(&mut self, id: String, name: String, creator: User, now: i64) -> (res: Result<String>)
        requires
            old(self).well_formed(),
        ensures
            final(self).well_formed(),
            res matches Ok(r) && r@ == id@,
            final(self).sessions().remove(id@) == old(self).sessions().remove(id@),
            final(self).sessions().contains_key(id@),
            new_session(final(self).sessions()[id@], id@, name@, creator, now),
    {
        let participant = Participant {
            user: clone_user(&creator),
            joined_at: now,
            last_activity: now,
            status: ParticipantStatus::Online,
            cursor_position: None,
            selection: None,
        };
        let mut participants: Vec<(String, Participant)> = Vec::new();
        let pid = creator.id.clone();
        participants.push((pid, participant));
        let session = CollaborationSession {
            id: id.clone(),
            name,
            creator,
            participants,
            documents: Vec::new(),
            operation_history: Vec::new(),
            status: SessionStatus::Active,
            permission_manager: PermissionManager::new(),
        };
        proof {
            lemma_key_push(Seq::<(String, Participant)>::empty(), session.participants@[0]);
            assert(Seq::<(String, Participant)>::empty().push(session.participants@[0]) =~= session.participants@);
            assert(session.documents() =~= Map::<Seq<char>, SharedDocument>::empty());
            assert(session.participants().dom() =~= set![session.creator.id@]);
        }
        let ret = id.clone();
        let item = (id, session);
        match find_key(&self.sessions, item.0.as_str()) {
            Some(i) => {
                self.put_back(i, item);
            },
            None => {
                let ghost before = self.sessions@;
                proof { lemma_key_push(before, item); }
                self.sessions.push(item);
                assert forall|j: int| 0 <= j < self.sessions@.len() implies (#[trigger] self.sessions@[j]).1.well_formed() by {
                    if j < before.len() { assert(self.sessions@[j] == before[j]); }
                }
            },
        }
        assert(self.sessions().remove(ret@) =~= old(self).sessions().remove(ret@));
        Ok(ret)
    }
}


/// A copy of an operation kind.
fn clone_operation_type(t: &OperationType) -> (r: OperationType)
    ensures
        r == *t,
{
    match t {
        OperationType::Insert { position, text } => OperationType::Insert { position: *position, text: text.clone() },
        OperationType::Delete { start, end } => OperationType::Delete { start: *start, end: *end },
        OperationType::Replace { start, end, text } => OperationType::Replace { start: *start, end: *end, text: text.clone() },
        OperationType::MoveCursor { position } => OperationType::MoveCursor { position: *position },
        OperationType::Select { start, end } => OperationType::Select { start: *start, end: *end },
        OperationType::Format { start, end, format } => OperationType::Format { start: *start, end: *end, format: *format },
    }
}

/// A copy of an operation.
pub fn clone_operation(o: &Operation) -> (r: Operation)
    ensures
        r == *o,
{
    Operation {
        id: o.id.clone(),
        operation_type: clone_operation_type(&o.operation_type),
        document_id: o.document_id.clone(),
        user_id: o.user_id.clone(),
        timestamp: o.timestamp,
        version: o.version,
        data: o.data.clone(),
    }
}

/// The session `t` is `s` after `ops` were applied at `now` to the document
/// `doc`: that document moved on, the operations joined the history, and
/// nothing else changed.
pub open spec fn session_after(s: CollaborationSession, t: CollaborationSession, doc: Seq<char>,
    ops: Seq<Operation>, now: i64) -> bool {
    &&& t.id_view() == s.id_view()
    &&& t.name_view() == s.name_view()
    &&& t.creator_view() == s.creator_view()
    &&& t.participants() == s.participants()
    &&& t.documents() == s.documents().insert(doc, applied_document(s.documents()[doc], ops, now))
    &&& t.history() == s.history() + ops
    &&& t.status() == s.status()
}

/// Every document of the session can take one version step per operation
/// in the history and one more without passing `u64::MAX`.
pub open spec fn versions_fit(s: CollaborationSession) -> bool {
    forall|d: Seq<char>| #[trigger] s.documents().contains_key(d)
        ==> s.documents()[d].version + s.history().len() + 1 <= u64::MAX
}

impl CollaborationManager {
    /// Inserts `item` back at index `i` of the list that `before` was before
    /// index `i` was taken out.
    fn restore(&mut self, i: usize, item: (String, CollaborationSession), Ghost(before): Ghost<Seq<(String, CollaborationSession)>>)
        requires
            unique_keys(before),
            forall|j: int| 0 <= j < before.len() ==> (#[trigger] before[j]).1.well_formed(),
            i < before.len(),
            old(self).sessions@ == before.remove(i as int),
            item.0@ == before[i as int].0@,
            item.1.well_formed(),
        ensures
            final(self).well_formed(),
            final(self).sessions() == key_map(before).insert(item.0@, item.1),
    {
        self.sessions.insert(i, item);
        assert(self.sessions@ =~= before.update(i as int, item));
        proof { lemma_key_update(before, i as int, item); }
        assert forall|j: int| 0 <= j < self.sessions@.len() implies (#[trigger] self.sessions@[j]).1.well_formed() by {
            if j != i { assert(self.sessions@[j] == before[j]); }
        }
    }

    /// Adds `user` to the session as a participant who arrived at `now`,
    /// replacing any participant with the same id.
    pub fn join_session_at(&mut self, session_id: &str, user: User, now: i64) -> (res: Result<()>)
        requires
            old(self).well_formed(),
        ensures
            final(self).well_formed(),
            !old(self).sessions().contains_key(session_id@) ==> (res matches Err(e) && is_session_not_found(e)
                && final(self).sessions() == old(self).sessions()),
            old(self).sessions().contains_key(session_id@) ==> res is Ok
                && joined(old(self).sessions(), final(self).sessions(), session_id@, user, now),
    {
        let i = match find_key(&self.sessions, session_id) {
            Some(i) => i,
            None => { return Err(session_not_found()); },
        };
        let ghost before = self.sessions@;
        proof { self.lemma_session_wf(i as int); lemma_key_remove(before, i as int); }
        let (sid, mut s) = self.sessions.remove(i);
        let ghost ps = s.participants@;
        let uid = user.id.clone();
        let participant = Participant {
            user: clone_user(&user),
            joined_at: now,
            last_activity: now,
            status: ParticipantStatus::Online,
            cursor_position: None,
            selection: None,
        };
        let item = (uid, participant);
        match find_key(&s.participants, user.id.as_str()) {
            Some(j) => {
                proof { lemma_key_update(ps, j as int, item); }
                s.participants.set(j, item);
            },
            None => {
                proof { lemma_key_push(ps, item); }
                s.participants.push(item);
            },
        }
        self.restore(i, (sid, s), Ghost(before));
        proof { lemma_key_at(before, i as int); }
        assert(self.sessions().remove(session_id@) =~= old(self).sessions().remove(session_id@));
        proof {
            let s = old(self).sessions()[session_id@];
            let tt = self.sessions()[session_id@];
            assert(tt.participants().remove(user.id@) =~= s.participants().remove(user.id@));
            assert(tt.documents() =~= s.documents());
            assert(tt.history() =~= s.history());
        }
        Ok(())
    }

    /// Adds `user` to the session, arriving now.
    pub fn join_session(&mut self, session_id: &str, user: User) -> (res: Result<()>)
        requires
            old(self).well_formed(),
        ensures
            final(self).well_formed(),
            res is Ok <==> old(self).sessions().contains_key(session_id@),
            res matches Err(e) ==> is_session_not_found(e) && final(self).sessions() == old(self).sessions(),
            res is Ok ==> exists|now: i64| joined(old(self).sessions(), final(self).sessions(), session_id@, user, now),
    {
        let now = utc_now_millis();
        self.join_session_at(session_id, user, now)
    }

    /// Removes the participant `user_id` from the session, if present.
    pub fn leave_session(&mut self, session_id: &str, user_id: &str) -> (res: Result<()>)
        requires
            old(self).well_formed(),
        ensures
            final(self).well_formed(),
            !old(self).sessions().contains_key(session_id@) ==> (res matches Err(e) && is_session_not_found(e)
                && final(self).sessions() == old(self).sessions()),
            old(self).sessions().contains_key(session_id@) ==> res is Ok && ({
                let s = old(self).sessions()[session_id@];
                let t = final(self).sessions()[session_id@];
                &&& final(self).sessions().remove(session_id@) == old(self).sessions().remove(session_id@)
                &&& final(self).sessions().contains_key(session_id@)
                &&& t.participants() == s.participants().remove(user_id@)
                &&& t.id_view() == s.id_view() && t.name_view() == s.name_view()
                &&& t.creator_view() == s.creator_view()
                &&& t.documents() == s.documents() && t.history() == s.history() && t.status() == s.status()
            }),
    {
        let i = match find_key(&self.sessions, session_id) {
            Some(i) => i,
            None => { return Err(session_not_found()); },
        };
        let ghost before = self.sessions@;
        proof { self.lemma_session_wf(i as int); lemma_key_remove(before, i as int); }
        let (sid, mut s) = self.sessions.remove(i);
        let ghost ps = s.participants@;
        match find_key(&s.participants, user_id) {
            Some(j) => {
                proof { lemma_key_remove(ps, j as int); }
                let _gone = s.participants.remove(j);
            },
            None => {
                assert(key_map(ps).remove(user_id@) =~= key_map(ps));
            },
        }
        self.restore(i, (sid, s), Ghost(before));
        proof { lemma_key_at(before, i as int); }
        assert(self.sessions().remove(session_id@) =~= old(self).sessions().remove(session_id@));
        Ok(())
    }

    /// Applies `operation` in the session at `now`. The operations of the
    /// history that conflict with it are settled together with it in time
    /// order; each operation applied moves its document on by one version and
    /// joins the history. An unknown session or document is refused and
    /// changes nothing.
    pub fn apply_operation_at(&mut self, session_id: &str, operation: Operation, now: i64) -> (res: Result<()>)
        requires
            old(self).well_formed(),
            old(self).sessions().contains_key(session_id@) ==> versions_fit(old(self).sessions()[session_id@]),
        ensures
            final(self).well_formed(),
            !old(self).sessions().contains_key(session_id@) ==> (res matches Err(e) && is_session_not_found(e)
                && final(self).sessions() == old(self).sessions()),
            old(self).sessions().contains_key(session_id@)
                && !old(self).sessions()[session_id@].documents().contains_key(operation.document_id@)
                ==> (res matches Err(e) && is_document_not_found(e) && final(self).sessions() == old(self).sessions()),
            old(self).sessions().contains_key(session_id@)
                && old(self).sessions()[session_id@].documents().contains_key(operation.document_id@)
                ==> res is Ok && applied(old(self).sessions(), final(self).sessions(), session_id@, operation, now),
    {
        let i = match find_key(&self.sessions, session_id) {
            Some(i) => i,
            None => { return Err(session_not_found()); },
        };
        let ghost before = self.sessions@;
        proof { self.lemma_session_wf(i as int); lemma_key_remove(before, i as int); lemma_key_at(before, i as int); }
        let (sid, mut s) = self.sessions.remove(i);
        let ghost s0 = s;
        let ghost hist = s.operation_history@;
        let k = match find_key(&s.documents, operation.document_id.as_str()) {
            Some(k) => k,
            None => {
                self.restore(i, (sid, s), Ghost(before));
                assert(self.sessions() =~= old(self).sessions());
                return Err(document_not_found());
            },
        };
        // the conflicting operations, in history order
        let mut found: Vec<Operation> = Vec::new();
        let mut j: usize = 0;
        while j < s.operation_history.len()
            invariant
                j <= hist.len(),
                s.operation_history@ == hist,
                found@ == conflicts_with(hist.take(j as int), operation),
            decreases s.operation_history.len() - j,
        {
            assert(hist.take(j + 1).drop_last() =~= hist.take(j as int));
            assert(hist.take(j + 1).last() == hist[j as int]);
            let o = &s.operation_history[j];
            if o.document_id == operation.document_id && o.version >= operation.version && o.user_id != operation.user_id {
                found.push(clone_operation(o));
            }
            j = j + 1;
        }
        assert(hist.take(hist.len() as int) =~= hist);
        let ops: Vec<Operation> = if found.len() == 0 {
            let mut v: Vec<Operation> = Vec::new();
            v.push(clone_operation(&operation));
            assert(v@ =~= seq![operation]);
            v
        } else {
            let mut all = found;
            all.push(clone_operation(&operation));
            match self.conflict_resolver.resolve_conflict(all) {
                Ok(v) => v,
                Err(e) => {
                    self.restore(i, (sid, s), Ghost(before));
                    return Err(e);
                },
            }
        };
        let ghost want = operations_to_apply(hist, operation);
        assert(ops@ == want);
        proof {
            law_settled_in_time_order(conflicts_with(hist, operation).push(operation));
            lemma_conflicts_len(hist, operation);
            lemma_ops_same_document(hist, operation);
        }
        // apply them to the document, in order
        let ghost docs = s.documents@;
        let ghost d0 = docs[k as int].1;
        proof {
            lemma_key_at(docs, k as int);
            assert(s0 == old(self).sessions()[session_id@]);
            assert(s0.documents().contains_key(docs[k as int].0@));
            assert(s0.documents()[docs[k as int].0@] == d0);
        }
        assert(d0.version + hist.len() + 1 <= u64::MAX);
        let mut m: usize = 0;
        while m < ops.len()
            invariant
                m <= ops@.len(),
                ops@ == want,
                want.len() <= hist.len() + 1,
                d0.version + hist.len() + 1 <= u64::MAX,
                unique_keys(s.documents@),
                unique_keys(docs),
                s.documents@.len() == docs.len(),
                k < docs.len(),
                s.documents@ == docs.update(k as int, (docs[k as int].0, applied_document(d0, want.take(m as int), now))),
                s.operation_history@ == hist + want.take(m as int),
                s.participants == s0.participants,
                s.id == s0.id && s.name == s0.name && s.creator == s0.creator && s.status == s0.status,
                s.permission_manager == s0.permission_manager,
            decreases ops.len() - m,
        {
            let (dk, mut d) = s.documents.remove(k);
            d.version = d.version + 1;
            d.updated_at = now;
            d.last_modified_by = ops[m].user_id.clone();
            s.documents.insert(k, (dk, d));
            s.operation_history.push(clone_operation(&ops[m]));
            proof {
                assert(want.take(m + 1).drop_last() =~= want.take(m as int));
                assert(want.take(m + 1).last() == want[m as int]);
                assert(s.documents@ =~= docs.update(k as int, (docs[k as int].0, applied_document(d0, want.take(m + 1), now))));
                assert(s.operation_history@ =~= hist + want.take(m + 1));
                lemma_key_update(docs, k as int, (docs[k as int].0, applied_document(d0, want.take(m as int), now)));
            }
            m = m + 1;
        }
        proof {
            assert(want.take(want.len() as int) =~= want);
            lemma_key_update(docs, k as int, (docs[k as int].0, applied_document(d0, want, now)));
        }
        self.restore(i, (sid, s), Ghost(before));
        assert(self.sessions().remove(session_id@) =~= old(self).sessions().remove(session_id@));
        Ok(())
    }

    /// Applies `operation` in the session now.
    pub fn apply_operation(&mut self, session_id: &str, operation: Operation) -> (res: Result<()>)
        requires
            old(self).well_formed(),
            old(self).sessions().contains_key(session_id@) ==> versions_fit(old(self).sessions()[session_id@]),
        ensures
            final(self).well_formed(),
            res is Ok <==> (old(self).sessions().contains_key(session_id@)
                && old(self).sessions()[session_id@].documents().contains_key(operation.document_id@)),
            res is Err ==> final(self).sessions() == old(self).sessions(),
            res is Ok ==> exists|now: i64| applied(old(self).sessions(), final(self).sessions(), session_id@, operation, now),
    {
        let now = utc_now_millis();
        self.apply_operation_at(session_id, operation, now)
    }

    /// Opens a session named `name`, created by `creator` now, under a fresh
    /// random id, which comes back.
    pub fn create_session(&mut self, name: String, creator: User) -> (res: Result<String>)
        requires
            old(self).well_formed(),
        ensures
            final(self).well_formed(),
            res matches Ok(id) && final(self).sessions().contains_key(id@)
                && final(self).sessions().remove(id@) == old(self).sessions().remove(id@)
                && is_v4_uuid_text(id@)
                && exists|now: i64| new_session(final(self).sessions()[id@], id@, name@, creator, now),
    {
        let id = new_uuid();
        let now = utc_now_millis();
        self.create_session_with_id(id, name, creator, now)
    }

    /// What the session tells about itself: its id, name and creator, how
    /// many participants and documents it has, its status, and the number
    /// that stands for its creation time (the creator's editor font size).
    pub fn get_session_info(&self, session_id: &str) -> (res: Result<SessionInfo>)
        requires
            self.well_formed(),
        ensures
            !self.sessions().contains_key(session_id@) ==> (res matches Err(e) && is_session_not_found(e)),
            self.sessions().contains_key(session_id@) ==> (res matches Ok(info) && ({
                let s = self.sessions()[session_id@];
                &&& info.id@ == s.id_view()
                &&& info.name@ == s.name_view()
                &&& same_user(info.creator, s.creator_view())
                &&& info.participant_count == s.participants().len()
                &&& info.document_count == s.documents().len()
                &&& info.status == s.status()
                &&& info.created_at == s.creator_view().preferences.editor_settings.font_size
            })),
    {
        match find_key(&self.sessions, session_id) {
            None => Err(session_not_found()),
            Some(i) => {
                proof { self.lemma_session_wf(i as int); }
                let s = &self.sessions[i].1;
                proof {
                    lemma_key_map_len(s.participants@);
                    lemma_key_map_len(s.documents@);
                }
                Ok(SessionInfo {
                    id: s.id.clone(),
                    name: s.name.clone(),
                    creator: clone_user(&s.creator),
                    participant_count: s.participants.len(),
                    document_count: s.documents.len(),
                    status: s.status,
                    created_at: s.creator.preferences.editor_settings.font_size as u64,
                })
            },
        }
    }
}

proof fn lemma_conflicts_len(h: Seq<Operation>, op: Operation)
    ensures
        conflicts_with(h, op).len() <= h.len(),
        operations_to_apply(h, op).len() <= h.len() + 1,
    decreases h.len(),
{
    if h.len() > 0 {
        lemma_conflicts_len(h.drop_last(), op);
    }
    let c = conflicts_with(h, op);
    if c.len() > 0 {
        law_settled_in_time_order(c.push(op));
        c.push(op).to_multiset_ensures();
        sort_by_time(c.push(op)).to_multiset_ensures();
    }
}

proof fn lemma_ops_same_document(h: Seq<Operation>, op: Operation)
    ensures
        forall|i: int| 0 <= i < operations_to_apply(h, op).len()
            ==> (#[trigger] operations_to_apply(h, op)[i]).document_id@ == op.document_id@,
{
    lemma_conflicts_doc(h, op);
    let c = conflicts_with(h, op);
    if c.len() > 0 {
        let s = sort_by_time(c.push(op));
        law_settled_in_time_order(c.push(op));
        assert forall|i: int| 0 <= i < s.len() implies (#[trigger] s[i]).document_id@ == op.document_id@ by {
            s.to_multiset_ensures();
            c.push(op).to_multiset_ensures();
            assert(s.contains(s[i]));
            assert(s.to_multiset().count(s[i]) > 0);
            assert(c.push(op).to_multiset().count(s[i]) > 0);
            assert(c.push(op).contains(s[i]));
            let j = choose|j: int| 0 <= j < c.push(op).len() && c.push(op)[j] == s[i];
            if j < c.len() { assert(c[j] == s[i]); }
        }
    }
}

proof fn lemma_conflicts_doc(h: Seq<Operation>, op: Operation)
    ensures
        forall|i: int| 0 <= i < conflicts_with(h, op).len()
            ==> (#[trigger] conflicts_with(h, op)[i]).document_id@ == op.document_id@,
    decreases h.len(),
{
    if h.len() > 0 {
        lemma_conflicts_doc(h.drop_last(), op);
        let r = conflicts_with(h.drop_last(), op);
        assert forall|i: int| 0 <= i < conflicts_with(h, op).len()
            implies (#[trigger] conflicts_with(h, op)[i]).document_id@ == op.document_id@ by {
            if i < r.len() { assert(conflicts_with(h, op)[i] == r[i]); }
        }
    }
}


impl OperationalTransform {
    /// Transforms two concurrent operations against each other; both come
    /// back unchanged.
    pub fn transform_operations(op1: &Operation, op2: &Operation) -> (res: Result<(Operation, Operation)>)
        ensures
            res matches Ok(p) && p.0 == *op1 && p.1 == *op2,
    {
        Ok((clone_operation(op1), clone_operation(op2)))
    }
}

/// Known users by id, and when each was last seen online.
pub struct UserManager {
    users: Vec<(String, User)>,
    online_users: Vec<(String, i64)>,
}

impl UserManager {
    /// The users by id.
    pub closed spec fn users(&self) -> Map<Seq<char>, User> {
        key_map(self.users@)
    }

    /// User ids are distinct.
    pub closed spec fn well_formed(&self) -> bool {
        unique_keys(self.users@) && unique_keys(self.online_users@)
    }

    /// A manager without users.
    pub fn new() -> (m: UserManager)
        ensures
            m.well_formed(),
            m.users() == Map::<Seq<char>, User>::empty(),
    {
        let m = UserManager { users: Vec::new(), online_users: Vec::new() };
        assert(m.users() =~= Map::<Seq<char>, User>::empty());
        m
    }

    /// Records `user` under its id, replacing any user with that id.
    pub fn add_user(&mut self, user: User)
        requires
            old(self).well_formed(),
        ensures
            final(self).well_formed(),
            final(self).users() == old(self).users().insert(user.id@, user),
    {
        let ghost before = self.users@;
        let item = (user.id.clone(), user);
        match find_key(&self.users, item.0.as_str()) {
            Some(i) => {
                proof { lemma_key_update(before, i as int, item); }
                self.users.set(i, item);
            },
            None => {
                proof { lemma_key_push(before, item); }
                self.users.push(item);
            },
        }
    }

    /// A copy of the user with id `user_id`, if known.
    pub fn get_user(&self, user_id: &str) -> (res: Option<User>)
        requires
            self.well_formed(),
        ensures
            res is Some <==> self.users().contains_key(user_id@),
            res matches Some(u) ==> same_user(u, self.users()[user_id@]),
    {
        match find_key(&self.users, user_id) {
            Some(i) => {
                proof { lemma_key_at(self.users@, i as int); }
                Some(clone_user(&self.users[i].1))
            },
            None => None,
        }
    }
}

/// Two documents agree in every field.
pub open spec fn same_document(a: SharedDocument, b: SharedDocument) -> bool {
    &&& a.id == b.id
    &&& a.name == b.name
    &&& a.content == b.content
    &&& a.language == b.language
    &&& a.version == b.version
    &&& a.created_at == b.created_at
    &&& a.updated_at == b.updated_at
    &&& a.created_by == b.created_by
    &&& a.last_modified_by == b.last_modified_by
    &&& a.permissions.read@ == b.permissions.read@
    &&& a.permissions.write@ == b.permissions.write@
    &&& a.permissions.admin@ == b.permissions.admin@
}

fn clone_strings(v: &Vec<String>) -> (r: Vec<String>)
    ensures
        r@ == v@,
{
    let r = v.clone();
    assert(r@ =~= v@);
    r
}

/// A copy of a document.
pub fn clone_document(d: &SharedDocument) -> (r: SharedDocument)
    ensures
        same_document(r, *d),
{
    SharedDocument {
        id: d.id.clone(),
        name: d.name.clone(),
        content: d.content.clone(),
        language: d.language.clone(),
        version: d.version,
        created_at: d.created_at,
        updated_at: d.updated_at,
        created_by: d.created_by.clone(),
        last_modified_by: d.last_modified_by.clone(),
        permissions: DocumentPermissions {
            read: clone_strings(&d.permissions.read),
            write: clone_strings(&d.permissions.write),
            admin: clone_strings(&d.permissions.admin),
        },
    }
}

/// Documents by id, and which user holds a lock on which document.
pub struct DocumentManager {
    documents: Vec<(String, SharedDocument)>,
    document_locks: Vec<(String, String)>,
}

impl DocumentManager {
    /// The documents by id.
    pub closed spec fn documents(&self) -> Map<Seq<char>, SharedDocument> {
        key_map(self.documents@)
    }

    /// Document ids are distinct.
    pub closed spec fn well_formed(&self) -> bool {
        unique_keys(self.documents@) && unique_keys(self.document_locks@)
    }

    /// A manager without documents.
    pub fn new() -> (m: DocumentManager)
        ensures
            m.well_formed(),
            m.documents() == Map::<Seq<char>, SharedDocument>::empty(),
    {
        let m = DocumentManager { documents: Vec::new(), document_locks: Vec::new() };
        assert(m.documents() =~= Map::<Seq<char>, SharedDocument>::empty());
        m
    }

    /// Records `document` under its id, replacing any document with that id.
    pub fn create_document(&mut self, document: SharedDocument) -> (res: Result<()>)
        requires
            old(self).well_formed(),
        ensures
            final(self).well_formed(),
            res is Ok,
            final(self).documents() == old(self).documents().insert(document.id@, document),
    {
        let ghost before = self.documents@;
        let item = (document.id.clone(), document);
        match find_key(&self.documents, item.0.as_str()) {
            Some(i) => {
                proof { lemma_key_update(before, i as int, item); }
                self.documents.set(i, item);
            },
            None => {
                proof { lemma_key_push(before, item); }
                self.documents.push(item);
            },
        }
        Ok(())
    }

    /// A copy of the document with id `document_id`, if known.
    pub fn get_document(&self, document_id: &str) -> (res: Option<SharedDocument>)
        requires
            self.well_formed(),
        ensures
            res is Some <==> self.documents().contains_key(document_id@),
            res matches Some(d) ==> same_document(d, self.documents()[document_id@]),
    {
        match find_key(&self.documents, document_id) {
            Some(i) => {
                proof { lemma_key_at(self.documents@, i as int); }
                Some(clone_document(&self.documents[i].1))
            },
            None => None,
        }
    }
}

} // verus!
