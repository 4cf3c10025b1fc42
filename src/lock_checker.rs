//! Finding the processes that hold a file or a directory.
//!
//! Files are looked up through a file-lock session: the caller starts the
//! session, registers the paths and lists the processes in two calls, one
//! that sizes the list and one that fills it, handing each status code here.
//! Directories are looked up by comparing each running process's current
//! working directory with the target.
use crate::deleter::TargetKind;
use crate::text::chars_of;
use crate::text::decimal;
use crate::text::decimal_text;
use crate::text::has_prefix;
use crate::text::lower_of;
use crate::text::lowercase;
use crate::text::starts_with;
use vstd::prelude::*;

verus! {

/// Information about a process holding a lock.
#[derive(Debug, Clone)]
pub struct ProcessInfo {
    pub process_id: u32,
    pub executable_name: Option<String>,
    pub application_name: Option<String>,
}

/// Why a lock query failed.
#[derive(Debug, Clone)]
pub enum LockCheckError {
    /// The file-lock session could not be started.
    SessionStart { code: u32 },
    /// The paths could not be registered with the session.
    RegisterResources { code: u32 },
    /// Listing the processes failed.
    GetList { code: u32, message: String },
    /// The target does not exist.
    FileNotFound(String),
}

/// The status code of success.
pub const ERROR_SUCCESS: u32 = 0;

/// The status code of a refused access.
pub const ERROR_ACCESS_DENIED: u32 = 5;

/// The status code that says the list holds more entries than were asked for.
pub const ERROR_MORE_DATA: u32 = 234;

pub open spec fn get_list_message(code: nat) -> Seq<char> {
    if code == ERROR_ACCESS_DENIED {
        "Access is denied."@
    } else {
        "Error code "@ + decimal(code)
    }
}

pub open spec fn not_found_message(path: Seq<char>) -> Seq<char> {
    "Cannot list locks of '"@ + path + "'. No such file or directory"@
}

impl LockCheckError {
    /// The message reported to the user.
    pub open spec fn text(&self) -> Seq<char> {
        match self {
            LockCheckError::SessionStart { code } => "Failed to start Restart Manager session: error code "@
                + decimal(*code as nat),
            LockCheckError::RegisterResources { code } => "Failed to register resources: error code "@
                + decimal(*code as nat),
            LockCheckError::GetList { code, message } => "Failed to get list (RmGetList() error "@
                + decimal(*code as nat) + "): "@ + message@,
            LockCheckError::FileNotFound(m) => "File not found: "@ + m@,
        }
    }

    /// The message reported to the user.
    pub fn to_string(&self) -> (r: String)
        ensures
            r@ == self.text(),
    {
        match self {
            LockCheckError::SessionStart { code } => {
                let mut r = String::from_str("Failed to start Restart Manager session: error code ");
                let n = decimal_text(*code as u64);
                r.append(n.as_str());
                r
            },
            LockCheckError::RegisterResources { code } => {
                let mut r = String::from_str("Failed to register resources: error code ");
                let n = decimal_text(*code as u64);
                r.append(n.as_str());
                r
            },
            LockCheckError::GetList { code, message } => {
                let mut r = String::from_str("Failed to get list (RmGetList() error ");
                let n = decimal_text(*code as u64);
                r.append(n.as_str());
                r.append("): ");
                r.append(message.as_str());
                r
            },
            LockCheckError::FileNotFound(m) => {
                let mut r = String::from_str("File not found: ");
                r.append(m.as_str());
                r
            },
        }
    }
}

/// How the holders of an existing target are looked up.
#[derive(Debug, Clone, Copy, PartialEq, Eq, Structural)]
pub enum LockStrategy {
    /// A directory: compare the processes' working directories with it.
    WorkingDirectoryScan,
    /// Anything else: ask a file-lock session.
    FileSession,
}

/// How the holders of `path`, of kind `kind`, are looked up; an absent path
/// is an error.
pub fn get_locks(path: &str, kind: TargetKind) -> (r: Result<LockStrategy, LockCheckError>)
    ensures
        kind == TargetKind::Directory ==> r == Ok::<LockStrategy, LockCheckError>(
            LockStrategy::WorkingDirectoryScan,
        ),
        kind == TargetKind::File ==> r == Ok::<LockStrategy, LockCheckError>(
            LockStrategy::FileSession,
        ),
        kind == TargetKind::Absent ==> (r matches Err(LockCheckError::FileNotFound(m))
            && m@ == not_found_message(path@)),
{
    match kind {
        TargetKind::Directory => Ok(LockStrategy::WorkingDirectoryScan),
        TargetKind::File => Ok(LockStrategy::FileSession),
        TargetKind::Absent => {
            let mut m = String::from_str("Cannot list locks of '");
            m.append(path);
            m.append("'. No such file or directory");
            Err(LockCheckError::FileNotFound(m))
        },
    }
}

/// The prefix of a verbatim path, `\\?\`.
pub open spec fn verbatim_prefix() -> Seq<char> {
    seq!['\\', '\\', '?', '\\']
}

/// `s` without a leading verbatim prefix.
pub open spec fn strip_verbatim(s: Seq<char>) -> Seq<char> {
    if has_prefix(s, verbatim_prefix()) {
        s.subrange(4, s.len() as int)
    } else {
        s
    }
}

/// The key under which a path is compared: lower-cased, without a verbatim
/// prefix.
pub open spec fn path_key(path: Seq<char>) -> Seq<char> {
    strip_verbatim(lower_of(path))
}

/// One path lies within the other (or they are equal).
pub open spec fn keys_meet(a: Seq<char>, b: Seq<char>) -> bool {
    has_prefix(a, b) || has_prefix(b, a)
}

/// A running process and its current working directory, when it could be read.
#[derive(Debug, Clone)]
pub struct ProcessDirectory {
    pub process_id: u32,
    pub current_directory: Option<String>,
}

/// The process holds the directory whose key is `target_key`.
pub open spec fn holds_directory(target_key: Seq<char>, own_id: u32, p: ProcessDirectory) -> bool {
    p.process_id != 0 && p.process_id != own_id && match p.current_directory {
        Some(d) => keys_meet(path_key(d@), target_key),
        None => false,
    }
}

/// The ids of the processes among `ps` that hold the directory, in order.
pub open spec fn directory_holder_ids(
    target_key: Seq<char>,
    own_id: u32,
    ps: Seq<ProcessDirectory>,
) -> Seq<u32>
    decreases ps.len(),
{
    if ps.len() == 0 {
        Seq::empty()
    } else {
        let earlier = directory_holder_ids(target_key, own_id, ps.drop_last());
        if holds_directory(target_key, own_id, ps.last()) {
            earlier.push(ps.last().process_id)
        } else {
            earlier
        }
    }
}

/// The comparison key of a path that is already lower-cased: the path
/// without a leading verbatim prefix.
pub fn key_of_lowered(lowered: &str) -> (r: String)
    ensures
        r@ == strip_verbatim(lowered@),
{
    let chars = chars_of(lowered);
    let prefix = chars_of("\\\\?\\");
    proof {
        reveal_strlit("\\\\?\\");
        assert(prefix@ =~= verbatim_prefix());
    }
    if starts_with(&chars, &prefix) {
        let n = chars.len();
        String::from_str(lowered.substring_char(4, n))
    } else {
        String::from_str(lowered)
    }
}

/// The comparison key of a path: lower-cased, without a verbatim prefix.
pub fn path_comparison_key(path: &str) -> (r: String)
    ensures
        r@ == path_key(path@),
{
    let lowered = lowercase(path);
    key_of_lowered(lowered.as_str())
}

/// Whether a process whose working directory has key `directory_key` holds
/// the directory whose key is `target_key`: one lies within the other.
pub fn working_directory_matches(target_key: &str, directory_key: &str) -> (r: bool)
    ensures
        r == keys_meet(directory_key@, target_key@),
{
    let t = chars_of(target_key);
    let d = chars_of(directory_key);
    starts_with(&d, &t) || starts_with(&t, &d)
}

/// The ids of the processes that hold the directory `target` (a canonical
/// path), in the order given, leaving out id 0 and `own_id`. A process whose
/// working directory could not be read is left out.
pub fn get_locking_process_ids_low_level(
    target: &str,
    own_id: u32,
    processes: &Vec<ProcessDirectory>,
) -> (r: Vec<u32>)
    ensures
        r@ == directory_holder_ids(path_key(target@), own_id, processes@),
{
    let target_key = path_comparison_key(target);
    let mut r: Vec<u32> = Vec::new();
    let mut i: usize = 0;
    while i < processes.len()
        invariant
            i <= processes@.len(),
            target_key@ == path_key(target@),
            r@ == directory_holder_ids(path_key(target@), own_id, processes@.subrange(0, i as int)),
        decreases processes@.len() - i,
    {
        let p = &processes[i];
        proof {
            let next = processes@.subrange(0, i + 1);
            assert(next.drop_last() =~= processes@.subrange(0, i as int));
            assert(next.last() == processes@[i as int]);
        }
        if p.process_id != 0 && p.process_id != own_id {
            match &p.current_directory {
                Some(d) => {
                    let key = path_comparison_key(d.as_str());
                    if working_directory_matches(target_key.as_str(), key.as_str()) {
                        r.push(p.process_id);
                    }
                },
                None => {},
            }
        }
        i = i + 1;
    }
    assert(processes@.subrange(0, processes@.len() as int) =~= processes@);
    r
}

/// The holder record of a process found by the working-directory scan: its
/// executable path serves as both names.
pub fn directory_holder(process_id: u32, executable_path: Option<String>) -> (r: ProcessInfo)
    ensures
        r.process_id == process_id,
        r.executable_name == executable_path,
        r.application_name == executable_path,
{
    match executable_path {
        Some(p) => ProcessInfo {
            process_id,
            executable_name: Some(p.clone()),
            application_name: Some(p),
        },
        None => ProcessInfo { process_id, executable_name: None, application_name: None },
    }
}

/// What `String::from_utf16` makes of a sequence of UTF-16 code units:
/// the decoded text, or nothing where the units are not valid UTF-16.
pub uninterp spec fn utf16_decoded(units: Seq<u16>) -> Option<Seq<char>>;

/// Relies on `String::from_utf16`: it decodes the units, and fails exactly
/// when they are not valid UTF-16, a property of the units alone.
#[verifier::external_body]
fn decode_utf16(units: &[u16]) -> (r: Option<String>)
    ensures
        match r {
            Some(s) => utf16_decoded(units@) == Some(s@),
            None => utf16_decoded(units@) is None,
        },
{
    String::from_utf16(units).ok()
}

/// `n` is the number of units before the first NUL of `w` (all of them
/// when there is none).
pub open spec fn is_text_length(w: Seq<u16>, n: nat) -> bool {
    n <= w.len() && (forall|i: int| 0 <= i < n ==> w[i] != 0) && (n < w.len() ==> w[n as int]
        == 0)
}

/// The number of units of `w` before its first NUL.
pub open spec fn text_length(w: Seq<u16>) -> nat {
    choose|n: nat| is_text_length(w, n)
}

/// The text held in a NUL-terminated buffer: nothing when it is empty or
/// not valid UTF-16.
pub open spec fn wide_text(w: Seq<u16>) -> Option<Seq<char>> {
    if text_length(w) == 0 {
        None
    } else {
        utf16_decoded(w.subrange(0, text_length(w) as int))
    }
}

/// The number of units before the first NUL is the one that meets its
/// description.
pub proof fn lemma_text_length_unique(w: Seq<u16>, n: nat)
    requires
        is_text_length(w, n),
    ensures
        text_length(w) == n,
{
    let m = text_length(w);
    assert(is_text_length(w, m));
    if m < n {
        assert(w[m as int] != 0);
    } else if n < m {
        assert(w[n as int] != 0);
    }
}

/// The text held in a NUL-terminated wide-character buffer.
pub fn wide_to_string(wide: &[u16]) -> (r: Option<String>)
    ensures
        match r {
            Some(s) => wide_text(wide@) == Some(s@),
            None => wide_text(wide@) is None,
        },
{
    let mut len: usize = 0;
    while len < wide.len() && wide[len] != 0
        invariant
            len <= wide@.len(),
            forall|i: int| 0 <= i < len ==> wide@[i] != 0,
        decreases wide@.len() - len,
    {
        len = len + 1;
    }
    proof {
        lemma_text_length_unique(wide@, len as nat);
    }
    if len == 0 {
        return None;
    }
    let text = vstd::slice::slice_subrange(wide, 0, len);
    decode_utf16(text)
}

/// One entry of a file-lock session's process list, with its names in
/// NUL-terminated buffers.
#[derive(Debug, Clone)]
pub struct SessionEntry {
    pub process_id: u32,
    pub app_name: Vec<u16>,
    pub service_short_name: Vec<u16>,
}

/// The executable name of a session entry: its service short name where
/// present and non-empty, else its application name.
pub open spec fn entry_executable_name(e: SessionEntry) -> Option<Seq<char>> {
    preferred_name(wide_text(e.service_short_name@), wide_text(e.app_name@))
}

/// The service name where present and non-empty, else the application name.
pub open spec fn preferred_name(service: Option<Seq<char>>, app: Option<Seq<char>>) -> Option<
    Seq<char>,
> {
    match service {
        Some(s) => if s.len() > 0 {
            Some(s)
        } else {
            app
        },
        None => app,
    }
}

pub open spec fn text_of(s: Option<String>) -> Option<Seq<char>> {
    match s {
        Some(t) => Some(t@),
        None => None,
    }
}

/// The holder record of a session entry.
pub open spec fn holder_of_entry(e: SessionEntry, p: ProcessInfo) -> bool {
    p.process_id == e.process_id && text_of(p.executable_name) == entry_executable_name(e)
        && text_of(p.application_name) == wide_text(e.app_name@)
}

/// The display name of a listed process: its service short name where
/// present and non-empty, else its application name.
pub fn executable_name(service_name: Option<String>, app_name: Option<String>) -> (r: Option<
    String,
>)
    ensures
        text_of(r) == preferred_name(text_of(service_name), text_of(app_name)),
{
    match service_name {
        Some(s) => if s.unicode_len() > 0 {
            Some(s)
        } else {
            app_name
        },
        None => app_name,
    }
}

/// The holder record of a session entry.
pub fn session_holder(entry: &SessionEntry) -> (r: ProcessInfo)
    ensures
        holder_of_entry(*entry, r),
{
    let app_name = wide_to_string(entry.app_name.as_slice());
    let service_name = wide_to_string(entry.service_short_name.as_slice());
    let executable_name = executable_name(service_name, app_name.clone());
    ProcessInfo { process_id: entry.process_id, executable_name, application_name: app_name }
}

/// The holders listed by a session: the first `count` entries, in order.
pub fn session_holders(entries: &Vec<SessionEntry>, count: u32) -> (r: Vec<ProcessInfo>)
    ensures
        r@.len() == if count as nat <= entries@.len() {
            count as nat
        } else {
            entries@.len()
        },
        forall|i: int| 0 <= i < r@.len() ==> holder_of_entry(entries@[i], #[trigger] r@[i]),
{
    let mut r: Vec<ProcessInfo> = Vec::new();
    let mut i: usize = 0;
    while i < entries.len() && (i as u64) < (count as u64)
        invariant
            i <= entries@.len(),
            i <= count,
            r@.len() == i,
            forall|k: int| 0 <= k < i ==> holder_of_entry(entries@[k], #[trigger] r@[k]),
        decreases entries@.len() - i,
    {
        r.push(session_holder(&entries[i]));
        i = i + 1;
    }
    r
}

/// A file query over no paths is answered with no holders, without a
/// session; otherwise (`None`) a session is needed.
pub fn get_locking_processes_without_session(paths: &Vec<String>) -> (r: Option<Vec<ProcessInfo>>)
    ensures
        paths@.len() == 0 <==> r is Some,
        r matches Some(v) ==> v@.len() == 0,
{
    if paths.len() == 0 {
        Some(Vec::new())
    } else {
        None
    }
}

/// The outcome of starting a file-lock session with status `code`.
pub fn check_session_start(code: u32) -> (r: Result<(), LockCheckError>)
    ensures
        code == ERROR_SUCCESS <==> r is Ok,
        r is Err ==> (r matches Err(LockCheckError::SessionStart { code: c }) && c == code),
{
    if code == ERROR_SUCCESS {
        Ok(())
    } else {
        Err(LockCheckError::SessionStart { code })
    }
}

/// The outcome of registering the paths with status `code`.
pub fn check_registration(code: u32) -> (r: Result<(), LockCheckError>)
    ensures
        code == ERROR_SUCCESS <==> r is Ok,
        r is Err ==> (r matches Err(LockCheckError::RegisterResources { code: c }) && c == code),
{
    if code == ERROR_SUCCESS {
        Ok(())
    } else {
        Err(LockCheckError::RegisterResources { code })
    }
}

/// The outcome of a list call with status `code`: success or more data is
/// fine; anything else is an error that tells a refused access apart.
pub fn check_list_status(code: u32) -> (r: Result<(), LockCheckError>)
    ensures
        (code == ERROR_SUCCESS || code == ERROR_MORE_DATA) <==> r is Ok,
        r is Err ==> (r matches Err(LockCheckError::GetList { code: c, message })
            && c == code && message@ == get_list_message(code as nat)),
{
    if code == ERROR_SUCCESS || code == ERROR_MORE_DATA {
        Ok(())
    } else if code == ERROR_ACCESS_DENIED {
        Err(LockCheckError::GetList { code, message: String::from_str("Access is denied.") })
    } else {
        let mut message = String::from_str("Error code ");
        let n = decimal_text(code as u64);
        message.append(n.as_str());
        Err(LockCheckError::GetList { code, message })
    }
}

/// After the sizing list call (status `code`, `needed` entries): the number
/// of entries to fetch with the second call, or `None` when there are none
/// and no second call is made.
pub fn list_size(code: u32, needed: u32) -> (r: Result<Option<u32>, LockCheckError>)
    ensures
        (code == ERROR_SUCCESS || code == ERROR_MORE_DATA) <==> r is Ok,
        r is Err ==> (r matches Err(LockCheckError::GetList { code: c, message })
            && c == code && message@ == get_list_message(code as nat)),
        r matches Ok(n) ==> (n == if needed == 0 {
            None::<u32>
        } else {
            Some(needed)
        }),
{
    match check_list_status(code) {
        Err(e) => Err(e),
        Ok(()) => if needed == 0 {
            Ok(None)
        } else {
            Ok(Some(needed))
        },
    }
}

/// The byte offsets, inside a process's control structures, of the pointer
/// to its parameters and of its current-directory string, for one pointer
/// width.
#[derive(Debug, Clone, Copy, PartialEq, Eq, Structural)]
pub struct ControlBlockOffsets {
    pub process_parameters: usize,
    pub current_directory: usize,
}

/// The offsets for a platform whose pointers are `pointer_width` bits wide:
/// known for 64 and 32 bits only.
pub fn control_block_offsets(pointer_width: u32) -> (r: Option<ControlBlockOffsets>)
    ensures
        pointer_width == 64 ==> r == Some(
            ControlBlockOffsets { process_parameters: 0x20, current_directory: 0x38 },
        ),
        pointer_width == 32 ==> r == Some(
            ControlBlockOffsets { process_parameters: 0x10, current_directory: 0x24 },
        ),
        pointer_width != 64 && pointer_width != 32 ==> r is None,
{
    if pointer_width == 64 {
        Some(ControlBlockOffsets { process_parameters: 0x20, current_directory: 0x38 })
    } else if pointer_width == 32 {
        Some(ControlBlockOffsets { process_parameters: 0x10, current_directory: 0x24 })
    } else {
        None
    }
}

/// A value paired with the action that releases it. The guard is consumed
/// by [`ScopeGuard::release`], so the action runs at most once; the caller
/// releases it on every path out of the scope.
pub struct ScopeGuard<T, F: FnOnce(T)> {
    value: T,
    dropfn: F,
}

impl<T, F: FnOnce(T)> ScopeGuard<T, F> {
    pub closed spec fn spec_value(&self) -> T {
        self.value
    }

    pub closed spec fn spec_dropfn(&self) -> F {
        self.dropfn
    }

    /// The guarded value.
    pub fn value(&self) -> (r: &T)
        ensures
            *r == self.spec_value(),
    {
        &self.value
    }

    /// Runs the release action on the value, once.
    pub fn release(self)
        requires
            self.spec_dropfn().requires((self.spec_value(),)),
        ensures
            call_ensures(self.spec_dropfn(), (self.spec_value(),), ()),
    {
        let ScopeGuard { value, dropfn } = self;
        dropfn(value);
    }
}

/// Pairs `value` with the action `dropfn` that releases it.
pub fn guard<T, F: FnOnce(T)>(value: T, dropfn: F) -> (r: ScopeGuard<T, F>)
    ensures
        r.spec_value() == value,
        r.spec_dropfn() == dropfn,
{
    ScopeGuard { value, dropfn }
}

/// The holders to terminate after a lookup: those found, or none when the
/// lookup failed, so that the retry goes on.
pub fn holders_or_none(found: Result<Vec<ProcessInfo>, LockCheckError>) -> (r: Vec<ProcessInfo>)
    ensures
        match found {
            Ok(v) => r@ == v@,
            Err(_) => r@.len() == 0,
        },
{
    match found {
        Ok(v) => v,
        Err(_) => Vec::new(),
    }
}

/// The header line of a listing of holders.
pub open spec fn list_header_text() -> Seq<char> {
    "ProcessId,ExecutableName,ApplicationName"@
}

/// A name as listed: the literal `<null>` when absent.
pub open spec fn listed_name(name: Option<String>) -> Seq<char> {
    match name {
        Some(n) => n@,
        None => "<null>"@,
    }
}

/// The line of one holder in a listing: id, executable name and
/// application name, separated by commas.
pub open spec fn list_row_text(p: ProcessInfo) -> Seq<char> {
    decimal(p.process_id as nat) + ","@ + listed_name(p.executable_name) + ","@ + listed_name(
        p.application_name,
    )
}

/// The header line of a listing of holders.
pub fn list_header() -> (r: String)
    ensures
        r@ == list_header_text(),
{
    String::from_str("ProcessId,ExecutableName,ApplicationName")
}

fn append_listed_name(r: &mut String, name: &Option<String>)
    ensures
        final(r)@ == old(r)@ + listed_name(*name),
{
    match name {
        Some(n) => r.append(n.as_str()),
        None => r.append("<null>"),
    }
}

/// The line of one holder in a listing.
pub fn list_row(p: &ProcessInfo) -> (r: String)
    ensures
        r@ == list_row_text(*p),
{
    let mut r = decimal_text(p.process_id as u64);
    r.append(",");
    append_listed_name(&mut r, &p.executable_name);
    r.append(",");
    append_listed_name(&mut r, &p.application_name);
    r
}

} // verus!
