//! The file-transfer bridge: the command protocol of a file-management
//! session, the chunked download bookkeeping, the upload lifecycle with its
//! conflict rule and idle reaper, and the per-command decisions around the
//! remote filesystem.
//!
//! The session loop itself runs outside the library: it parses client
//! frames, performs the remote operations, and hands the resulting plain
//! values to the functions here, which decide every state change and every
//! message sent back to the client. Remote file handles are represented by
//! the rule that an active [`UploadState`] owns exactly one open handle; a
//! [`CloseHandle`] value returned by a step instructs the loop to close it.

use vstd::prelude::*;
use crate::editable::{editable_spec, is_content_editable, lower_of, INLINE_EDIT_CEILING};
use crate::errors::BridgeError;
use crate::paths::{base_name, base_name_of, trim_trailing, join_under_dir};

verus! {

/// Milliseconds of inactivity after which an upload is reaped.
pub const UPLOAD_IDLE_LIMIT_MS: u64 = 300 * 1000;

/// One client command of the file-transfer protocol.
#[derive(Debug, PartialEq)]
pub enum SftpClientCommand {
    ListDir { path: String },
    DownloadFile { path: String },
    UploadFileStart { path: String, total_size: u64 },
    UploadFileEnd,
    UploadFileCancel,
    DeleteFile { path: String },
    DeleteDir { path: String },
    CreateDir { path: String },
    Rename { old_path: String, new_path: String },
    GetAttr { path: String },
    UploadLocal { local_path: String, remote_path: String },
    ReadFileContent { path: String },
    SaveFileContent { path: String, content: String },
    SetPermissions { path: String, permissions: u32 },
}

/// One server message of the file-transfer protocol.
#[derive(Debug, PartialEq)]
pub enum SftpServerMessage {
    Connected,
    DirList { path: String, entries: Vec<FileEntry> },
    DownloadStart { total_size: u64 },
    DownloadChunk { chunk_id: u64, size: usize },
    DownloadEnd,
    UploadProgress { received: u64, total: u64 },
    FileAttr { attr: FileAttrInfo },
    Success { message: String },
    Error { message: String },
    Closed,
    FileContent { path: String, content: String },
}

/// One entry of a directory listing.
#[derive(Debug, PartialEq)]
pub struct FileEntry {
    pub name: String,
    pub is_dir: bool,
    pub size: u64,
    pub modified: Option<u64>,
    pub permissions: Option<u32>,
    pub uid: Option<u32>,
    pub gid: Option<u32>,
    pub is_content_editable: bool,
}

/// The attribute payload of a `get_attr` response.
#[derive(Debug, PartialEq)]
pub struct FileAttrInfo {
    pub size: u64,
    pub is_dir: bool,
    pub modified: Option<u64>,
    pub permissions: Option<u32>,
}

/// The attributes of a remote file as the remote filesystem reports them:
/// every field optional, permissions carrying the file-type bits in their
/// high bits as on Unix.
pub struct RemoteAttrs {
    pub size: Option<u64>,
    pub uid: Option<u32>,
    pub user: Option<String>,
    pub gid: Option<u32>,
    pub group: Option<String>,
    pub permissions: Option<u32>,
    pub atime: Option<u32>,
    pub mtime: Option<u32>,
}

/// Directory test on a permissions word: the directory type bit is set.
pub open spec fn perm_is_dir(permissions: Option<u32>) -> bool {
    match permissions {
        Some(p) => p & 0x4000 == 0x4000,
        None => false,
    }
}

/// The reported size, with zero for an absent field.
pub open spec fn attr_size(size: Option<u64>) -> u64 {
    match size {
        Some(n) => n,
        None => 0,
    }
}

/// The modification time widened to the wire type.
pub open spec fn attr_modified(mtime: Option<u32>) -> Option<u64> {
    match mtime {
        Some(t) => Some(t as u64),
        None => None,
    }
}

impl RemoteAttrs {
    /// Whether the attributes describe a directory.
    pub fn is_dir(&self) -> (r: bool)
        ensures
            r == perm_is_dir(self.permissions),
    {
        match self.permissions {
            Some(p) => p & 0x4000 == 0x4000,
            None => false,
        }
    }

    /// The reported size, with zero for an absent field.
    pub fn size_or_zero(&self) -> (n: u64)
        ensures
            n == attr_size(self.size),
    {
        match self.size {
            Some(n) => n,
            None => 0,
        }
    }
}

/// One raw directory entry as the remote filesystem hands it out.
pub struct RemoteEntry {
    pub name: String,
    pub attrs: RemoteAttrs,
}

/// How a listing entry is derived from a raw one.
pub open spec fn entry_matches(e: FileEntry, name: Seq<char>, a: RemoteAttrs) -> bool {
    &&& e.name@ == name
    &&& e.is_dir == perm_is_dir(a.permissions)
    &&& e.size == attr_size(a.size)
    &&& e.modified == attr_modified(a.mtime)
    &&& e.permissions == a.permissions
    &&& e.uid == a.uid
    &&& e.gid == a.gid
    &&& e.is_content_editable == editable_spec(lower_of(name), attr_size(a.size))
}

/// Build one listing entry from a raw directory entry.
pub fn entry_to_file_entry(name: String, attrs: &RemoteAttrs) -> (e: FileEntry)
    ensures
        entry_matches(e, name@, *attrs),
{
    let size = attrs.size_or_zero();
    let editable = is_content_editable(name.as_str(), size);
    let modified: Option<u64> = match attrs.mtime {
        Some(t) => Some(t as u64),
        None => None,
    };
    FileEntry {
        is_content_editable: editable,
        is_dir: attrs.is_dir(),
        size,
        modified,
        permissions: attrs.permissions,
        uid: attrs.uid,
        gid: attrs.gid,
        name,
    }
}

/// Build the listing for a whole directory, in the order the entries came.
pub fn list_dir_entries(raw: Vec<RemoteEntry>) -> (r: Vec<FileEntry>)
    ensures
        r@.len() == raw@.len(),
        forall|i: int|
            0 <= i < raw@.len() ==> entry_matches(#[trigger] r@[i], raw@[i].name@, raw@[i].attrs),
{
    let mut r: Vec<FileEntry> = Vec::new();
    let mut i: usize = 0;
    while i < raw.len()
        invariant
            0 <= i <= raw@.len(),
            r@.len() == i,
            forall|j: int|
                0 <= j < i ==> entry_matches(#[trigger] r@[j], raw@[j].name@, raw@[j].attrs),
        decreases raw@.len() - i,
    {
        let name = raw[i].name.clone();
        let e = entry_to_file_entry(name, &raw[i].attrs);
        r.push(e);
        i = i + 1;
    }
    r
}

/// The path reported with a directory listing: the canonical absolute path
/// when the remote end resolved one, else the path as requested.
pub fn resolved_list_path(canonical: Option<String>, requested: String) -> (p: String)
    ensures
        p@ == match canonical {
            Some(c) => c@,
            None => requested@,
        },
{
    match canonical {
        Some(c) => c,
        None => requested,
    }
}

/// The attribute response for a `get_attr` command.
pub fn attr_message(attrs: &RemoteAttrs) -> (m: SftpServerMessage)
    ensures
        m matches SftpServerMessage::FileAttr { attr } && {
            &&& attr.size == attr_size(attrs.size)
            &&& attr.is_dir == perm_is_dir(attrs.permissions)
            &&& attr.modified == attr_modified(attrs.mtime)
            &&& attr.permissions == attrs.permissions
        },
{
    let modified: Option<u64> = match attrs.mtime {
        Some(t) => Some(t as u64),
        None => None,
    };
    SftpServerMessage::FileAttr {
        attr: FileAttrInfo {
            size: attrs.size_or_zero(),
            is_dir: attrs.is_dir(),
            modified,
            permissions: attrs.permissions,
        },
    }
}

/// Merge a requested permission change into the current mode word: the low
/// nine permission bits come from the request, the file-type bits stay as
/// they were, and nothing else survives.
pub fn merged_permissions(current: u32, requested: u32) -> (r: u32)
    ensures
        r == (current & 0o170000) | (requested & 0o777),
        r & 0o170000 == current & 0o170000,
        r & 0o777 == requested & 0o777,
{
    proof {
        assert(((current & 0o170000) | (requested & 0o777)) & 0o170000 == current & 0o170000)
            by (bit_vector);
        assert(((current & 0o170000) | (requested & 0o777)) & 0o777 == requested & 0o777)
            by (bit_vector);
    }
    (current & 0o170000) | (requested & 0o777)
}

fn clone_opt_string(s: &Option<String>) -> (r: Option<String>)
    ensures
        match s {
            Some(x) => r matches Some(y) && y@ == x@,
            None => r is None,
        },
{
    match s {
        Some(x) => Some(x.clone()),
        None => None,
    }
}

/// The attributes to write back for a `set_permissions` command: everything
/// as currently reported, with only the permissions replaced by the merge of
/// the request into the current mode word.
pub fn set_permissions_attrs(current: &RemoteAttrs, requested: u32) -> (a: RemoteAttrs)
    ensures
        a.size == current.size,
        a.uid == current.uid,
        a.gid == current.gid,
        a.atime == current.atime,
        a.mtime == current.mtime,
        match current.user {
            Some(ref u) => a.user matches Some(v) && v@ == u@,
            None => a.user is None,
        },
        match current.group {
            Some(ref g) => a.group matches Some(v) && v@ == g@,
            None => a.group is None,
        },
        a.permissions matches Some(p) && p == (attr_perm(current.permissions) & 0o170000) | (
        requested & 0o777),
{
    let cur = match current.permissions {
        Some(p) => p,
        None => 0,
    };
    RemoteAttrs {
        size: current.size,
        uid: current.uid,
        user: clone_opt_string(&current.user),
        gid: current.gid,
        group: clone_opt_string(&current.group),
        permissions: Some(merged_permissions(cur, requested)),
        atime: current.atime,
        mtime: current.mtime,
    }
}

/// The current permissions word, with zero for an absent field.
pub open spec fn attr_perm(permissions: Option<u32>) -> u32 {
    match permissions {
        Some(p) => p,
        None => 0,
    }
}

/// Gate for an inline read: a file above the editing ceiling is refused
/// before any content is fetched, so no oversize content message can follow.
pub fn read_content_check(size: u64) -> (r: Result<(), BridgeError>)
    ensures
        r is Ok <==> size <= INLINE_EDIT_CEILING,
        r matches Err(e) ==> e == BridgeError::Oversize(size),
{
    if size > INLINE_EDIT_CEILING {
        Err(BridgeError::Oversize(size))
    } else {
        Ok(())
    }
}

/// The content response for an inline read that passed the size gate.
pub fn file_content_message(path: String, content: String) -> (m: SftpServerMessage)
    ensures
        m matches SftpServerMessage::FileContent { path: p, content: c } && p@ == path@ && c@
            == content@,
{
    SftpServerMessage::FileContent { path, content }
}

/// Gate for an upload from a local path: directories cannot be uploaded.
pub fn local_source_check(local_is_dir: bool) -> (r: Result<(), BridgeError>)
    ensures
        r is Ok <==> !local_is_dir,
        r matches Err(e) ==> e matches BridgeError::Io(_),
{
    if local_is_dir {
        Err(BridgeError::Io(String::from_str("directory upload is not supported; give a file path")))
    } else {
        Ok(())
    }
}

/// Where an upload from a local path lands: the remote path itself, or —
/// when the remote path is a directory — the local file's base name joined
/// under it; a local path without a usable base name is refused.
pub fn resolve_upload_target(remote_path: &str, remote_is_dir: bool, local_path: &str) -> (r:
    Result<String, BridgeError>)
    ensures
        !remote_is_dir ==> (r matches Ok(p) && p@ == remote_path@),
        remote_is_dir ==> match base_name(local_path@) {
            Some(b) => r matches Ok(p) && p@ == trim_trailing(remote_path@) + seq!['/'] + b,
            None => r matches Err(e) && e matches BridgeError::Io(_),
        },
{
    if !remote_is_dir {
        Ok(String::from_str(remote_path))
    } else {
        match base_name_of(local_path) {
            Some(b) => Ok(join_under_dir(remote_path, b.as_str())),
            None => Err(BridgeError::Io(String::from_str("cannot determine the local file name"))),
        }
    }
}

/// The state of the one upload a session may have in flight. While a value
/// of this type exists, the session owns exactly one open remote write
/// handle for `path`.
pub struct UploadState {
    pub path: String,
    pub total_size: u64,
    pub received: u64,
    pub last_activity_ms: u64,
}

impl UploadState {
    pub fn new(path: String, total_size: u64, now_ms: u64) -> (u: UploadState)
        ensures
            u.path@ == path@,
            u.total_size == total_size,
            u.received == 0,
            u.last_activity_ms == now_ms,
    {
        UploadState { path, total_size, received: 0, last_activity_ms: now_ms }
    }

    pub fn update_activity(&mut self, now_ms: u64)
        ensures
            final(self).path@ == old(self).path@,
            final(self).total_size == old(self).total_size,
            final(self).received == old(self).received,
            final(self).last_activity_ms == now_ms,
    {
        self.last_activity_ms = now_ms;
    }

    /// Whether the upload has been idle past the reaping threshold.
    pub fn is_timeout(&self, now_ms: u64) -> (r: bool)
        requires
            self.last_activity_ms <= now_ms,
        ensures
            r == (now_ms - self.last_activity_ms > UPLOAD_IDLE_LIMIT_MS),
    {
        now_ms - self.last_activity_ms > UPLOAD_IDLE_LIMIT_MS
    }
}

/// Field-wise sameness of two upload states.
pub open spec fn same_upload(a: UploadState, b: UploadState) -> bool {
    &&& a.path@ == b.path@
    &&& a.total_size == b.total_size
    &&& a.received == b.received
    &&& a.last_activity_ms == b.last_activity_ms
}

/// Field-wise sameness of two upload slots.
pub open spec fn same_slot(a: Option<UploadState>, b: Option<UploadState>) -> bool {
    match (a, b) {
        (Option::None, Option::None) => true,
        (Option::Some(x), Option::Some(y)) => same_upload(x, y),
        _ => false,
    }
}

/// An instruction to the session loop: close the open remote file handle of
/// the upload, flushing it first when `flush` is set.
#[derive(Debug, PartialEq, Eq)]
pub struct CloseHandle {
    pub flush: bool,
}

/// Gate for `upload_file_start`: starting an upload while one is already
/// active is a conflict, and the active upload is left untouched.
pub fn start_upload_check(slot: &Option<UploadState>) -> (r: Result<(), BridgeError>)
    ensures
        r is Ok <==> slot is None,
        slot is Some ==> (r matches Err(e) && e == BridgeError::UploadConflict),
{
    match slot {
        Some(_) => Err(BridgeError::UploadConflict),
        None => Ok(()),
    }
}

/// Register the upload after the remote file was created: the slot takes a
/// fresh state owning the new handle, and the client gets the ready
/// acknowledgement.
pub fn register_upload(slot: &mut Option<UploadState>, path: String, total_size: u64, now_ms: u64)
    -> (m: SftpServerMessage)
    requires
        *old(slot) is None,
    ensures
        (*final(slot)) matches Some(u) && u.path@ == path@ && u.total_size == total_size && u.received
            == 0 && u.last_activity_ms == now_ms,
        m matches SftpServerMessage::Success { message } && message@ == "ready to receive file"@,
{
    *slot = Some(UploadState::new(path, total_size, now_ms));
    SftpServerMessage::Success { message: String::from_str("ready to receive file") }
}

/// Whether an arriving binary frame belongs to an upload: frames outside an
/// active upload are dropped, not treated as fatal.
pub fn binary_frame_accepted(slot: &Option<UploadState>) -> (r: bool)
    ensures
        r == (slot is Some),
{
    match slot {
        Some(_) => true,
        None => false,
    }
}

/// Account one written chunk: the received counter advances by the chunk's
/// length, the activity stamp is refreshed, and the client gets a progress
/// message with the new counter.
pub fn record_chunk(slot: &mut Option<UploadState>, len: u64, now_ms: u64) -> (m: SftpServerMessage)
    requires
        (*old(slot)) matches Some(u) && u.received + len <= u64::MAX,
    ensures
        (*old(slot)) matches Some(u) ==> {
            &&& (*final(slot)) matches Some(v) && v.path@ == u.path@ && v.total_size == u.total_size
                && v.received == u.received + len && v.last_activity_ms == now_ms
            &&& m matches SftpServerMessage::UploadProgress { received, total } && received
                == u.received + len && total == u.total_size
        },
{
    let u = slot.as_mut().unwrap();
    u.received = u.received + len;
    u.update_activity(now_ms);
    SftpServerMessage::UploadProgress { received: u.received, total: u.total_size }
}

/// Finish the upload: the slot is emptied and the loop is told to flush and
/// close the handle; without an active upload the command is an error.
pub fn end_upload(slot: &mut Option<UploadState>) -> (r: Result<CloseHandle, BridgeError>)
    ensures
        *final(slot) is None,
        r is Ok <==> *old(slot) is Some,
        r matches Ok(c) ==> c.flush,
        r matches Err(e) ==> e == BridgeError::NoActiveUpload,
{
    match slot.take() {
        Some(_) => Ok(CloseHandle { flush: true }),
        None => Err(BridgeError::NoActiveUpload),
    }
}

/// The acknowledgement sent once the finished upload was flushed and closed.
pub fn upload_end_ack() -> (m: SftpServerMessage)
    ensures
        m matches SftpServerMessage::Success { message } && message@ == "file uploaded"@,
{
    SftpServerMessage::Success { message: String::from_str("file uploaded") }
}

/// Cancel the upload: always acknowledged; when one was active, the slot is
/// emptied and its handle is closed without flushing.
pub fn cancel_upload(slot: &mut Option<UploadState>) -> (r: (SftpServerMessage, Option<CloseHandle>))
    ensures
        *final(slot) is None,
        r.1 is Some <==> *old(slot) is Some,
        r.1 matches Some(c) ==> !c.flush,
        r.0 matches SftpServerMessage::Success { message } && message@ == "upload cancelled"@,
{
    let close = match slot.take() {
        Some(_) => Some(CloseHandle { flush: false }),
        None => None,
    };
    (SftpServerMessage::Success { message: String::from_str("upload cancelled") }, close)
}

/// Discard the upload after a failed write or a failed command: the slot is
/// emptied, and an open handle is closed without flushing.
pub fn discard_upload(slot: &mut Option<UploadState>) -> (c: Option<CloseHandle>)
    ensures
        *final(slot) is None,
        c is Some <==> *old(slot) is Some,
        c matches Some(t) ==> !t.flush,
{
    match slot.take() {
        Some(_) => Some(CloseHandle { flush: false }),
        None => None,
    }
}

/// Whether the slot holds an upload that has been idle past the threshold.
pub open spec fn slot_idle(slot: Option<UploadState>, now_ms: u64) -> bool {
    match slot {
        Some(u) => now_ms - u.last_activity_ms > UPLOAD_IDLE_LIMIT_MS,
        None => false,
    }
}

/// The idle reaper: fires exactly when an upload is active and has been
/// idle past the threshold; it then empties the slot, closes the handle
/// without flushing, and yields the one timeout error to send. Otherwise it
/// leaves the slot untouched, so a reaped upload can never yield a second
/// error.
pub fn reap_idle_upload(slot: &mut Option<UploadState>, now_ms: u64) -> (r: Option<
    (BridgeError, CloseHandle),
>)
    requires
        (*old(slot)) matches Some(u) ==> u.last_activity_ms <= now_ms,
    ensures
        r is Some <==> slot_idle(*old(slot), now_ms),
        r matches Some(x) ==> x.0 == BridgeError::UploadIdleTimeout && !x.1.flush
            && *final(slot) is None,
        r is None ==> same_slot(*final(slot), *old(slot)),
{
    let fire = match slot {
        Some(u) => u.is_timeout(now_ms),
        None => false,
    };
    if fire {
        *slot = None;
        Some((BridgeError::UploadIdleTimeout, CloseHandle { flush: false }))
    } else {
        None
    }
}

/// Bookkeeping of one running download.
pub struct DownloadProgress {
    pub remaining: u64,
    pub next_chunk_id: u64,
}

/// Open a download: the client is told the total size, and the chunk ids
/// start at zero.
pub fn download_begin(total_size: u64) -> (r: (SftpServerMessage, DownloadProgress))
    ensures
        r.0 matches SftpServerMessage::DownloadStart { total_size: t } && t == total_size,
        r.1.remaining == total_size,
        r.1.next_chunk_id == 0,
{
    (
        SftpServerMessage::DownloadStart { total_size },
        DownloadProgress { remaining: total_size, next_chunk_id: 0 },
    )
}

/// Whether the next read should try to fill a whole chunk buffer.
pub fn download_wants_full_chunk(p: &DownloadProgress, chunk_size: usize) -> (r: bool)
    ensures
        r == (p.remaining >= chunk_size as u64),
{
    p.remaining >= chunk_size as u64
}

/// Account one read of `n` bytes: a read of zero ends the download; any
/// other read is announced under the next chunk id, in order, and the
/// remaining count goes down by the bytes read.
pub fn download_step(p: &mut DownloadProgress, n: usize) -> (m: Option<SftpServerMessage>)
    requires
        n > 0 ==> old(p).next_chunk_id < u64::MAX,
    ensures
        n == 0 ==> m is None && *final(p) == *old(p),
        n > 0 ==> {
            &&& m matches Some(SftpServerMessage::DownloadChunk { chunk_id, size }) && chunk_id
                == old(p).next_chunk_id && size == n
            &&& final(p).next_chunk_id == old(p).next_chunk_id + 1
            &&& final(p).remaining == if n as u64 <= old(p).remaining {
                old(p).remaining - n as u64
            } else {
                0
            }
        },
{
    if n == 0 {
        None
    } else {
        let id = p.next_chunk_id;
        p.next_chunk_id = p.next_chunk_id + 1;
        p.remaining = p.remaining.saturating_sub(n as u64);
        Some(SftpServerMessage::DownloadChunk { chunk_id: id, size: n })
    }
}

/// The end-of-download marker.
pub fn download_end_message() -> (m: SftpServerMessage)
    ensures
        m == SftpServerMessage::DownloadEnd,
{
    SftpServerMessage::DownloadEnd
}

/// Account one chunk of an upload from a local path and report progress.
pub fn record_local_progress(received: &mut u64, n: u64, total: u64) -> (m: SftpServerMessage)
    requires
        *old(received) + n <= u64::MAX,
    ensures
        *final(received) == *old(received) + n,
        m matches SftpServerMessage::UploadProgress { received: rec, total: t }
            && rec == *old(received) + n && t == total,
{
    *received = *received + n;
    SftpServerMessage::UploadProgress { received: *received, total }
}

/// The acknowledgement for a finished upload from a local path.
pub fn upload_local_ack() -> (m: SftpServerMessage)
    ensures
        m matches SftpServerMessage::Success { message } && message@ == "file uploaded"@,
{
    SftpServerMessage::Success { message: String::from_str("file uploaded") }
}

/// The acknowledgement for a deleted file.
pub fn delete_file_ack() -> (m: SftpServerMessage)
    ensures
        m matches SftpServerMessage::Success { message } && message@ == "file deleted"@,
{
    SftpServerMessage::Success { message: String::from_str("file deleted") }
}

/// The acknowledgement for a deleted directory.
pub fn delete_dir_ack() -> (m: SftpServerMessage)
    ensures
        m matches SftpServerMessage::Success { message } && message@ == "directory deleted"@,
{
    SftpServerMessage::Success { message: String::from_str("directory deleted") }
}

/// The acknowledgement for a created directory.
pub fn create_dir_ack() -> (m: SftpServerMessage)
    ensures
        m matches SftpServerMessage::Success { message } && message@ == "directory created"@,
{
    SftpServerMessage::Success { message: String::from_str("directory created") }
}

/// The acknowledgement for a rename.
pub fn rename_ack() -> (m: SftpServerMessage)
    ensures
        m matches SftpServerMessage::Success { message } && message@ == "renamed"@,
{
    SftpServerMessage::Success { message: String::from_str("renamed") }
}

/// The acknowledgement for saved file content.
pub fn save_content_ack() -> (m: SftpServerMessage)
    ensures
        m matches SftpServerMessage::Success { message } && message@ == "file saved"@,
{
    SftpServerMessage::Success { message: String::from_str("file saved") }
}

/// The acknowledgement for a permission change, echoing the requested
/// permissions in octal.
pub fn set_permissions_ack(permissions: u32) -> (m: SftpServerMessage)
    ensures
        m matches SftpServerMessage::Success { message } && message@ == "permissions updated to "@
            + crate::strutil::oct_digits(permissions as nat),
{
    let mut text = String::from_str("permissions updated to ");
    let digits = crate::strutil::u32_to_oct(permissions);
    text.append(digits.as_str());
    SftpServerMessage::Success { message: text }
}

/// The error frame for a failed command.
pub fn error_message(e: &BridgeError) -> (m: SftpServerMessage)
    ensures
        m matches SftpServerMessage::Error { message } && message@ == e.spec_message(),
{
    SftpServerMessage::Error { message: e.message() }
}

/// One lifecycle event of the upload slot, as the session loop experienced
/// it: `Reaped` stands for a reaper pass that fired, `Failed` for a write or
/// command failure that discarded the upload.
pub enum UploadEvent {
    Started,
    Chunk,
    Ended,
    Cancelled,
    Reaped,
    Failed,
}

/// Whether an upload — and with it one open remote handle — is active after
/// a trace of lifecycle events.
pub open spec fn active_after(tr: Seq<UploadEvent>) -> bool
    decreases tr.len(),
{
    if tr.len() == 0 {
        false
    } else {
        match tr.last() {
            UploadEvent::Started => true,
            UploadEvent::Chunk => active_after(tr.drop_last()),
            _ => false,
        }
    }
}

/// The traces the verified steps can produce: an upload only starts when
/// none is active, and chunks only land while one is active.
pub open spec fn wf_trace(tr: Seq<UploadEvent>) -> bool
    decreases tr.len(),
{
    if tr.len() == 0 {
        true
    } else {
        wf_trace(tr.drop_last()) && match tr.last() {
            UploadEvent::Started => !active_after(tr.drop_last()),
            UploadEvent::Chunk => active_after(tr.drop_last()),
            _ => true,
        }
    }
}

/// How many handles a trace opened: one per started upload.
pub open spec fn opens_in(tr: Seq<UploadEvent>) -> nat
    decreases tr.len(),
{
    if tr.len() == 0 {
        0
    } else {
        opens_in(tr.drop_last()) + match tr.last() {
            UploadEvent::Started => 1nat,
            _ => 0nat,
        }
    }
}

/// How many close instructions a trace emitted: ending, cancelling, reaping
/// or failing an upload closes its handle exactly when one was active.
pub open spec fn closes_in(tr: Seq<UploadEvent>) -> nat
    decreases tr.len(),
{
    if tr.len() == 0 {
        0
    } else {
        closes_in(tr.drop_last()) + match tr.last() {
            UploadEvent::Started => 0nat,
            UploadEvent::Chunk => 0nat,
            _ => if active_after(tr.drop_last()) {
                1nat
            } else {
                0nat
            },
        }
    }
}

/// Law of the upload lifecycle: over any well-formed trace, every opened
/// handle is closed exactly once, except the one still held by an active
/// upload. In particular, after a trace whose upload is over — ended,
/// cancelled, reaped or failed — the closes balance the opens exactly, so no
/// handle leaks and none is closed twice.
pub proof fn lemma_close_balance(tr: Seq<UploadEvent>)
    requires
        wf_trace(tr),
    ensures
        closes_in(tr) + (if active_after(tr) {
            1nat
        } else {
            0nat
        }) == opens_in(tr),
    decreases tr.len(),
{
    if tr.len() > 0 {
        lemma_close_balance(tr.drop_last());
    }
}

} // verus!
