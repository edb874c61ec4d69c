use vstd::prelude::*;

use crate::error::BridgeError;
use crate::poll::{settle, settled, PollEnd};

verus! {

/// At most this many notifications are read per listing.
pub const MAX_LISTED: usize = 10;

/// 100-nanosecond ticks from 1601-01-01 to the Unix epoch.
pub const EPOCH_OFFSET_TICKS: i64 = 116_444_736_000_000_000;

/// 100-nanosecond ticks per millisecond.
pub const TICKS_PER_MS: i64 = 10_000;

/// Creation times later than this many milliseconds after now are not believed.
pub const DAY_MS: u64 = 86_400_000;

/// Spacing of synthesized timestamps, in milliseconds per list position.
pub const SPACING_MS: u64 = 60_000;

/// A model identifier is launched above this launcher return code.
pub const LAUNCH_FAILURE_LIMIT: i64 = 32;

/// Outcome of a request for access to the user's notifications.
#[derive(Debug, Clone, Copy, PartialEq, Eq)]
pub enum AccessStatus {
    Unspecified,
    Allowed,
    Denied,
}

/// One toast notification as listed to the user.
#[derive(Debug, Clone, PartialEq, Eq)]
pub struct SystemNotification {
    pub id: u32,
    pub app_name: String,
    pub title: String,
    pub body: String,
    /// Unix time in milliseconds.
    pub timestamp: u64,
}

pub struct NotificationView {
    pub id: u32,
    pub app_name: Seq<char>,
    pub title: Seq<char>,
    pub body: Seq<char>,
    pub timestamp: u64,
}

impl View for SystemNotification {
    type V = NotificationView;

    open spec fn view(&self) -> NotificationView {
        NotificationView {
            id: self.id,
            app_name: self.app_name@,
            title: self.title@,
            body: self.body@,
            timestamp: self.timestamp,
        }
    }
}

/// What the platform reported about one listed toast. `None` marks a value
/// that could not be read; `texts` holds the text elements of the toast's first
/// binding, and is `None` when its content could not be read at all.
#[derive(Debug, Clone, PartialEq, Eq)]
pub struct ToastRecord {
    pub id: Option<u32>,
    pub app_display_name: Option<String>,
    pub texts: Option<Vec<String>>,
    /// 100-nanosecond ticks since 1601-01-01.
    pub creation_ticks: Option<i64>,
}

pub open spec fn text_views(v: Vec<String>) -> Seq<Seq<char>> {
    v@.map_values(|t: String| t@)
}

pub open spec fn fallback_app_name() -> Seq<char> {
    seq!['W', 'i', 'n', 'd', 'o', 'w', 's', ' ', 'A', 'p', 'p']
}

/// The texts joined by newlines.
pub open spec fn join_lines(s: Seq<Seq<char>>) -> Seq<char>
    decreases s.len(),
{
    if s.len() == 0 {
        Seq::empty()
    } else if s.len() == 1 {
        s[0]
    } else {
        join_lines(s.drop_last()) + seq!['\n'] + s.last()
    }
}

/// The first text is the title.
pub open spec fn title_of(texts: Seq<Seq<char>>) -> Seq<char> {
    if texts.len() > 0 {
        texts[0]
    } else {
        Seq::empty()
    }
}

/// The texts after the first, one per line, are the body.
pub open spec fn body_of(texts: Seq<Seq<char>>) -> Seq<char> {
    if texts.len() > 1 {
        join_lines(texts.subrange(1, texts.len() as int))
    } else {
        Seq::empty()
    }
}

/// Unix milliseconds of a creation time, when it is not before the Unix epoch.
pub open spec fn unix_ms_of(ticks: i64) -> Option<int> {
    if ticks >= EPOCH_OFFSET_TICKS {
        Some((ticks - EPOCH_OFFSET_TICKS) / TICKS_PER_MS as int)
    } else {
        None
    }
}

/// The creation time when it lies within a day from now, else a time
/// synthesized from the list position.
pub open spec fn timestamp_of(ticks: Option<i64>, now: u64, index: nat) -> u64 {
    let fallback = if now >= index * SPACING_MS {
        (now - index * SPACING_MS) as u64
    } else {
        0u64
    };
    match ticks {
        Some(t) => match unix_ms_of(t) {
            Some(ms) => if now <= ms <= now + DAY_MS {
                ms as u64
            } else {
                fallback
            },
            None => fallback,
        },
        None => fallback,
    }
}

/// The listed notification for the toast at position `index`, if it has
/// readable content with a title or a body.
pub open spec fn notification_of(r: ToastRecord, index: nat, now: u64) -> Option<NotificationView> {
    match r.texts {
        None => None,
        Some(texts) => {
            let t = text_views(texts);
            if title_of(t).len() == 0 && body_of(t).len() == 0 {
                None
            } else {
                Some(
                    NotificationView {
                        id: match r.id {
                            Some(i) => i,
                            None => index as u32,
                        },
                        app_name: match r.app_display_name {
                            Some(n) => if n@.len() > 0 {
                                n@
                            } else {
                                fallback_app_name()
                            },
                            None => fallback_app_name(),
                        },
                        title: title_of(t),
                        body: body_of(t),
                        timestamp: timestamp_of(r.creation_ticks, now, index),
                    },
                )
            }
        },
    }
}

/// The notifications listed for the given toasts, in order.
pub open spec fn collected(records: Seq<ToastRecord>, now: u64) -> Seq<NotificationView>
    decreases records.len(),
{
    if records.len() == 0 {
        Seq::empty()
    } else {
        let rest = collected(records.drop_last(), now);
        match notification_of(records.last(), (records.len() - 1) as nat, now) {
            Some(n) => rest.push(n),
            None => rest,
        }
    }
}

/// The toasts that are read: the first `MAX_LISTED` of them.
pub open spec fn listing_window(records: Seq<ToastRecord>) -> Seq<ToastRecord> {
    if records.len() <= MAX_LISTED {
        records
    } else {
        records.subrange(0, MAX_LISTED as int)
    }
}

pub open spec fn notification_views(s: Seq<SystemNotification>) -> Seq<NotificationView> {
    s.map_values(|n: SystemNotification| n@)
}

/// The items that could be fetched, in order.
pub open spec fn present<T>(s: Seq<Option<T>>) -> Seq<T>
    decreases s.len(),
{
    if s.len() == 0 {
        Seq::empty()
    } else {
        match s[0] {
            Some(x) => seq![x] + present(s.drop_first()),
            None => present(s.drop_first()),
        }
    }
}

/// Result of polling the access request.
pub fn poll_notification_access(end: PollEnd, results: Result<AccessStatus, String>) -> (r: Result<
    AccessStatus,
    BridgeError,
>)
    ensures
        r == settled(end, results),
{
    settle(end, results)
}

/// Result of polling the toast listing: on completion, the toasts that could be
/// fetched, in order.
pub fn poll_notifications_list<T>(
    end: PollEnd,
    results: Result<Vec<Option<T>>, String>,
) -> (r: Result<Vec<T>, BridgeError>)
    ensures
        match settled(end, results) {
            Ok(items) => r is Ok && r->Ok_0@ == present(items@),
            Err(e) => r == Err::<Vec<T>, BridgeError>(e),
        },
{
    let mut items = match settle(end, results) {
        Ok(items) => items,
        Err(e) => {
            return Err(e);
        },
    };
    let ghost all = items@;
    let mut out: Vec<T> = Vec::new();
    while items.len() > 0
        invariant
            out@ + present(items@) == present(all),
        decreases items@.len(),
    {
        let ghost before = items@;
        let item = items.remove(0);
        assert(items@ =~= before.drop_first());
        match item {
            Some(t) => {
                assert(out@.push(t) + present(items@) =~= out@ + (seq![t] + present(items@)));
                out.push(t);
            },
            None => {},
        }
    }
    assert(out@ + present(items@) =~= out@);
    Ok(out)
}

/// Whether the access request was granted.
pub fn check_notification_access(status: AccessStatus) -> (r: bool)
    ensures
        r == (status == AccessStatus::Allowed),
{
    match status {
        AccessStatus::Allowed => true,
        _ => false,
    }
}

fn join_texts(texts: &Vec<String>) -> (r: (String, String))
    ensures
        r.0@ == title_of(text_views(*texts)),
        r.1@ == body_of(text_views(*texts)),
{
    let ghost t = text_views(*texts);
    let n = texts.len();
    if n == 0 {
        return (String::new(), String::new());
    }
    let title = texts[0].clone();
    let mut body = String::new();
    let mut j: usize = 1;
    while j < n
        invariant
            1 <= j <= n == texts@.len() == t.len(),
            t == text_views(*texts),
            body@ == join_lines(t.subrange(1, j as int)),
        decreases n - j,
    {
        proof {
            reveal_strlit("\n");
            assert(t.subrange(1, j + 1).drop_last() =~= t.subrange(1, j as int));
        }
        if j > 1 {
            body.append("\n");
        }
        body.append(texts[j].as_str());
        j = j + 1;
    }
    (title, body)
}

fn timestamp_at(ticks: Option<i64>, now: u64, index: usize) -> (r: u64)
    requires
        index < MAX_LISTED,
    ensures
        r == timestamp_of(ticks, now, index as nat),
{
    let back = index as u64 * SPACING_MS;
    let fallback = if now >= back {
        now - back
    } else {
        0
    };
    match ticks {
        Some(t) => {
            if t >= EPOCH_OFFSET_TICKS {
                let ms = ((t - EPOCH_OFFSET_TICKS) / TICKS_PER_MS) as u64;
                if now <= ms && ms - now <= DAY_MS {
                    ms
                } else {
                    fallback
                }
            } else {
                fallback
            }
        },
        None => fallback,
    }
}

fn toast_entry(r: &ToastRecord, index: usize, now: u64) -> (n: Option<SystemNotification>)
    requires
        index < MAX_LISTED,
    ensures
        match n {
            Some(x) => notification_of(*r, index as nat, now) == Some(x@),
            None => notification_of(*r, index as nat, now) is None,
        },
{
    proof {
        reveal_strlit("Windows App");
        assert("Windows App"@ =~= fallback_app_name());
    }
    let texts = match &r.texts {
        Some(t) => t,
        None => {
            return None;
        },
    };
    let (title, body) = join_texts(texts);
    if title.unicode_len() == 0 && body.unicode_len() == 0 {
        return None;
    }
    let id = match r.id {
        Some(i) => i,
        None => index as u32,
    };
    let app_name = match &r.app_display_name {
        Some(name) => if name.unicode_len() > 0 {
            name.clone()
        } else {
            String::from_str("Windows App")
        },
        None => String::from_str("Windows App"),
    };
    let timestamp = timestamp_at(r.creation_ticks, now, index);
    Some(SystemNotification { id, app_name, title, body, timestamp })
}

/// The notifications listed to the user: none unless access is allowed;
/// otherwise, of the first `MAX_LISTED` toasts, those with a title or a body.
pub fn get_notifications(access: AccessStatus, records: &Vec<ToastRecord>, now_ms: u64) -> (r: Vec<
    SystemNotification,
>)
    ensures
        access != AccessStatus::Allowed ==> r@.len() == 0,
        access == AccessStatus::Allowed ==> notification_views(r@) == collected(
            listing_window(records@),
            now_ms,
        ),
{
    let mut out: Vec<SystemNotification> = Vec::new();
    match access {
        AccessStatus::Allowed => {},
        _ => {
            return out;
        },
    }
    let n = if records.len() < MAX_LISTED {
        records.len()
    } else {
        MAX_LISTED
    };
    let ghost first = listing_window(records@);
    assert(first.len() == n);
    let mut i: usize = 0;
    assert(notification_views(out@) =~= Seq::<NotificationView>::empty());
    assert(first.subrange(0, 0) =~= Seq::<ToastRecord>::empty());
    while i < n
        invariant
            i <= n == first.len() <= MAX_LISTED,
            first == listing_window(records@),
            n <= records@.len(),
            forall|k: int| 0 <= k < n ==> #[trigger] first[k] == records@[k],
            notification_views(out@) == collected(first.subrange(0, i as int), now_ms),
        decreases n - i,
    {
        let ghost prefix = first.subrange(0, i + 1);
        assert(prefix.drop_last() =~= first.subrange(0, i as int));
        assert(prefix.last() == records@[i as int]);
        match toast_entry(&records[i], i, now_ms) {
            Some(x) => {
                let ghost before = out@;
                out.push(x);
                assert(notification_views(out@) =~= notification_views(before).push(x@));
            },
            None => {},
        }
        i = i + 1;
    }
    assert(first.subrange(0, n as int) =~= first);
    out
}

/// Which listed notification to activate: access must be allowed, and some
/// listed notification must carry `id` (one whose id cannot be read counts as 0).
pub fn activation_target(access: AccessStatus, ids: &Vec<Option<u32>>, id: u32) -> (r: Result<
    usize,
    BridgeError,
>)
    ensures
        access != AccessStatus::Allowed ==> r == Err::<usize, BridgeError>(
            BridgeError::AccessDenied,
        ),
        access == AccessStatus::Allowed ==> match r {
            Ok(i) => i < ids@.len() && id_or_zero(ids@[i as int]) == id && forall|k: int|
                0 <= k < i ==> id_or_zero(#[trigger] ids@[k]) != id,
            Err(e) => e == BridgeError::NotificationNotFound(id) && forall|k: int|
                0 <= k < ids@.len() ==> id_or_zero(#[trigger] ids@[k]) != id,
        },
{
    match access {
        AccessStatus::Allowed => {},
        _ => {
            return Err(BridgeError::AccessDenied);
        },
    }
    let mut i: usize = 0;
    while i < ids.len()
        invariant
            i <= ids@.len(),
            access == AccessStatus::Allowed,
            forall|k: int| 0 <= k < i ==> id_or_zero(#[trigger] ids@[k]) != id,
        decreases ids@.len() - i,
    {
        let found = match ids[i] {
            Some(x) => x,
            None => 0,
        };
        if found == id {
            return Ok(i);
        }
        i = i + 1;
    }
    Err(BridgeError::NotificationNotFound(id))
}

pub open spec fn id_or_zero(o: Option<u32>) -> u32 {
    match o {
        Some(x) => x,
        None => 0,
    }
}

pub open spec fn apps_folder_prefix() -> Seq<char> {
    seq!['s', 'h', 'e', 'l', 'l', ':', 'A', 'p', 'p', 's', 'F', 'o', 'l', 'd', 'e', 'r', '\\']
}

/// The shell path that launches the application with model identifier
/// `app_id`; an empty identifier cannot be launched.
pub fn shell_path(app_id: &str) -> (r: Result<String, BridgeError>)
    ensures
        app_id@.len() == 0 ==> r == Err::<String, BridgeError>(BridgeError::MissingAppId),
        app_id@.len() > 0 ==> r is Ok && r->Ok_0@ == apps_folder_prefix() + app_id@,
{
    proof {
        reveal_strlit("shell:AppsFolder\\");
        assert("shell:AppsFolder\\"@ =~= apps_folder_prefix());
    }
    if app_id.unicode_len() == 0 {
        return Err(BridgeError::MissingAppId);
    }
    let mut path = String::from_str("shell:AppsFolder\\");
    path.append(app_id);
    Ok(path)
}

/// The two ways of launching an application, tried in this order.
#[derive(Debug, Clone, Copy, PartialEq, Eq)]
pub enum LaunchAttempt {
    /// Open the shell path directly.
    ShellPath,
    /// Run the shell's own executable with the shell path as its argument.
    Launcher,
}

/// After a launch attempt returned `code`: `Ok(None)` when the application was
/// launched, `Ok(Some(next))` for the attempt to make next, or the failure once
/// both failed.
pub fn after_launch(attempt: LaunchAttempt, code: i64) -> (r: Result<
    Option<LaunchAttempt>,
    BridgeError,
>)
    ensures
        code > LAUNCH_FAILURE_LIMIT ==> r == Ok::<Option<LaunchAttempt>, BridgeError>(None),
        code <= LAUNCH_FAILURE_LIMIT && attempt == LaunchAttempt::ShellPath ==> r == Ok::<
            Option<LaunchAttempt>,
            BridgeError,
        >(Some(LaunchAttempt::Launcher)),
        code <= LAUNCH_FAILURE_LIMIT && attempt == LaunchAttempt::Launcher ==> r == Err::<
            Option<LaunchAttempt>,
            BridgeError,
        >(BridgeError::ActivationFailed(code)),
{
    if code > LAUNCH_FAILURE_LIMIT {
        Ok(None)
    } else {
        match attempt {
            LaunchAttempt::ShellPath => Ok(Some(LaunchAttempt::Launcher)),
            LaunchAttempt::Launcher => Err(BridgeError::ActivationFailed(code)),
        }
    }
}

} // verus!
