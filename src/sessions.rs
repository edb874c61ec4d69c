use vstd::prelude::*;
use vstd::seq_lib::to_multiset_build;
use vstd::seq_lib::to_multiset_insert;

use crate::error::BridgeError;
use crate::text::{
    after_last, after_last_of, before_first, before_first_of, decimal, decimal_of, has_prefix,
    less_than, lex_lt, lower_of, starts_with, strip_exe, strip_exe_of, to_lower,
};

verus! {

/// Full scale of a per-session volume, in parts per million (1.0 on the native scale).
pub const FULL_VOLUME: u32 = 1_000_000;

/// One application's audio session on the default output device.
///
/// `volume` is in parts per million of full scale, never above `FULL_VOLUME`.
#[derive(Debug, Clone, PartialEq, Eq)]
pub struct AudioSession {
    pub session_id: String,
    pub app_name: String,
    pub process_id: u32,
    pub volume: u32,
    pub is_muted: bool,
    pub is_active: bool,
}

pub struct SessionView {
    pub session_id: Seq<char>,
    pub app_name: Seq<char>,
    pub process_id: u32,
    pub volume: u32,
    pub is_muted: bool,
    pub is_active: bool,
}

impl View for AudioSession {
    type V = SessionView;

    open spec fn view(&self) -> SessionView {
        SessionView {
            session_id: self.session_id@,
            app_name: self.app_name@,
            process_id: self.process_id,
            volume: self.volume,
            is_muted: self.is_muted,
            is_active: self.is_active,
        }
    }
}

/// What the platform reported about one session of the session graph.
///
/// `None` marks a value that could not be read.
#[derive(Debug, Clone, PartialEq, Eq)]
pub struct SessionRecord {
    pub process_id: u32,
    pub is_active: bool,
    pub display_name: Option<String>,
    pub session_identifier: Option<String>,
    pub volume: Option<u32>,
    pub is_muted: Option<bool>,
}

pub open spec fn text_view(o: Option<String>) -> Option<Seq<char>> {
    match o {
        Some(s) => Some(s@),
        None => None,
    }
}

pub open spec fn indirect_prefix() -> Seq<char> {
    seq!['@', '{']
}

pub open spec fn app_prefix() -> Seq<char> {
    seq!['A', 'p', 'p', ' ']
}

/// Application name parsed from a session identifier: the last path segment,
/// cut at the first `|`, without a trailing ".exe".
pub open spec fn name_from_identifier(id: Seq<char>) -> Seq<char> {
    strip_exe(before_first(after_last(id, '\\'), '|'))
}

/// The name shown for a session: its display name when that is usable, else one
/// derived from its identifier, else "App {pid}".
pub open spec fn session_name(
    display_name: Option<Seq<char>>,
    identifier: Option<Seq<char>>,
    process_id: u32,
) -> Seq<char> {
    if display_name is Some && display_name->0.len() > 0 && !starts_with(
        display_name->0,
        indirect_prefix(),
    ) {
        display_name->0
    } else {
        match identifier {
            Some(id) => name_from_identifier(id),
            None => app_prefix() + decimal(process_id as nat),
        }
    }
}

/// The listed entry for a record with a non-zero process id.
pub open spec fn entry_of(r: SessionRecord) -> SessionView {
    SessionView {
        session_id: decimal(r.process_id as nat),
        app_name: session_name(
            text_view(r.display_name),
            text_view(r.session_identifier),
            r.process_id,
        ),
        process_id: r.process_id,
        volume: match r.volume {
            Some(v) => if v > FULL_VOLUME { FULL_VOLUME } else { v },
            None => FULL_VOLUME,
        },
        is_muted: match r.is_muted {
            Some(m) => m,
            None => false,
        },
        is_active: r.is_active,
    }
}

/// Entries for the records, in record order, leaving out the system-sounds
/// session (process id 0).
pub open spec fn listed(records: Seq<SessionRecord>) -> Seq<SessionView>
    decreases records.len(),
{
    if records.len() == 0 {
        Seq::empty()
    } else {
        let rest = listed(records.drop_last());
        if records.last().process_id == 0 {
            rest
        } else {
            rest.push(entry_of(records.last()))
        }
    }
}

pub open spec fn views(s: Seq<AudioSession>) -> Seq<SessionView> {
    s.map_values(|x: AudioSession| x@)
}

/// `a` is listed strictly before `b`: active before inactive, and within equal
/// activity by lowercase name.
pub open spec fn ranks_before(a: SessionView, b: SessionView) -> bool {
    (a.is_active && !b.is_active) || (a.is_active == b.is_active && lex_lt(
        lower_of(a.app_name),
        lower_of(b.app_name),
    ))
}

/// No entry ranks strictly before an entry that precedes it.
pub open spec fn sessions_sorted(s: Seq<SessionView>) -> bool {
    forall|i: int, j: int| 0 <= i < j < s.len() ==> !ranks_before(#[trigger] s[j], #[trigger] s[i])
}

proof fn lemma_lex_asym(a: Seq<char>, b: Seq<char>)
    ensures
        lex_lt(a, b) ==> !lex_lt(b, a),
    decreases a.len(),
{
    if a.len() > 0 && b.len() > 0 && a[0] == b[0] {
        lemma_lex_asym(a.drop_first(), b.drop_first());
    }
}

proof fn lemma_lex_trans(a: Seq<char>, b: Seq<char>, c: Seq<char>)
    ensures
        lex_lt(a, b) && lex_lt(b, c) ==> lex_lt(a, c),
    decreases a.len(),
{
    if a.len() > 0 && b.len() > 0 && c.len() > 0 && a[0] == b[0] && b[0] == c[0] {
        lemma_lex_trans(a.drop_first(), b.drop_first(), c.drop_first());
    }
}

proof fn lemma_ranks_trans(a: SessionView, b: SessionView, c: SessionView)
    ensures
        ranks_before(a, b) && ranks_before(b, c) ==> ranks_before(a, c),
{
    lemma_lex_trans(lower_of(a.app_name), lower_of(b.app_name), lower_of(c.app_name));
}

proof fn lemma_ranks_asym(a: SessionView, b: SessionView)
    ensures
        ranks_before(a, b) ==> !ranks_before(b, a),
{
    lemma_lex_asym(lower_of(a.app_name), lower_of(b.app_name));
}

/// The name shown for a session, as `session_name` states it.
pub fn session_app_name(
    display_name: &Option<String>,
    identifier: &Option<String>,
    process_id: u32,
) -> (r: String)
    ensures
        r@ == session_name(text_view(*display_name), text_view(*identifier), process_id),
{
    proof {
        reveal_strlit("@{");
        reveal_strlit("App ");
        assert("@{"@ =~= indirect_prefix());
        assert("App "@ =~= app_prefix());
    }
    if let Some(d) = display_name {
        if d.unicode_len() > 0 && !has_prefix(d.as_str(), "@{") {
            return d.clone();
        }
    }
    match identifier {
        Some(id) => {
            let segment = after_last_of(id.as_str(), '\\');
            let head = before_first_of(segment.as_str(), '|');
            strip_exe_of(head.as_str())
        },
        None => {
            let mut s = String::from_str("App ");
            let digits = decimal_of(process_id);
            s.append(digits.as_str());
            s
        },
    }
}

fn session_entry(r: &SessionRecord) -> (s: AudioSession)
    ensures
        s@ == entry_of(*r),
{
    let volume = match r.volume {
        Some(v) => if v > FULL_VOLUME { FULL_VOLUME } else { v },
        None => FULL_VOLUME,
    };
    let is_muted = match r.is_muted {
        Some(m) => m,
        None => false,
    };
    AudioSession {
        session_id: decimal_of(r.process_id),
        app_name: session_app_name(&r.display_name, &r.session_identifier, r.process_id),
        process_id: r.process_id,
        volume,
        is_muted,
        is_active: r.is_active,
    }
}

fn ranks_before_exec(a: &AudioSession, a_key: &String, b: &AudioSession, b_key: &String) -> (r:
    bool)
    requires
        a_key@ == lower_of(a.app_name@),
        b_key@ == lower_of(b.app_name@),
    ensures
        r == ranks_before(a@, b@),
{
    (a.is_active && !b.is_active) || (a.is_active == b.is_active && less_than(
        a_key.as_str(),
        b_key.as_str(),
    ))
}

/// The sessions of the session graph as listed to the user: the system-sounds
/// session is left out, and the rest are ordered active first, then by
/// lowercase name.
pub fn list_audio_sessions(records: &Vec<SessionRecord>) -> (r: Vec<AudioSession>)
    ensures
        views(r@).to_multiset() == listed(records@).to_multiset(),
        sessions_sorted(views(r@)),
        forall|i: int| 0 <= i < r@.len() ==> #[trigger] r@[i].process_id != 0,
{
    let mut out: Vec<AudioSession> = Vec::new();
    let mut keys: Vec<String> = Vec::new();
    let mut i: usize = 0;
    assert(records@.subrange(0, 0) =~= Seq::<SessionRecord>::empty());
    assert(views(out@) =~= Seq::<SessionView>::empty());
    while i < records.len()
        invariant
            i <= records@.len(),
            keys@.len() == out@.len(),
            forall|j: int| 0 <= j < out@.len() ==> #[trigger] keys@[j]@ == lower_of(out@[j].app_name@),
            forall|j: int| 0 <= j < out@.len() ==> #[trigger] out@[j].process_id != 0,
            views(out@).to_multiset() == listed(records@.subrange(0, i as int)).to_multiset(),
            sessions_sorted(views(out@)),
        decreases records@.len() - i,
    {
        let ghost prefix = records@.subrange(0, i as int);
        assert(records@.subrange(0, i + 1).drop_last() =~= prefix);
        let rec = &records[i];
        if rec.process_id != 0 {
            let s = session_entry(rec);
            let key = to_lower(s.app_name.as_str());
            let mut j: usize = 0;
            while j < out.len() && !ranks_before_exec(&s, &key, &out[j], &keys[j])
                invariant
                    j <= out@.len() == keys@.len(),
                    key@ == lower_of(s.app_name@),
                    forall|k: int| 0 <= k < out@.len() ==> #[trigger] keys@[k]@ == lower_of(out@[k].app_name@),
                    forall|k: int| 0 <= k < j ==> !ranks_before(s@, #[trigger] out@[k]@),
                decreases out@.len() - j,
            {
                j = j + 1;
            }
            let ghost old_out = out@;
            let ghost old_keys = keys@;
            proof {
                if j < old_out.len() {
                    lemma_ranks_asym(s@, old_out[j as int]@);
                }
            }
            out.insert(j, s);
            keys.insert(j, key);
            proof {
                assert(views(out@) =~= views(old_out).insert(j as int, entry_of(*rec)));
                to_multiset_insert(views(old_out), j as int, entry_of(*rec));
                to_multiset_build(listed(prefix), entry_of(*rec));
                let v = views(out@);
                let w = views(old_out);
                assert forall|p: int, q: int| 0 <= p < q < v.len() implies !ranks_before(#[trigger] v[q], #[trigger] v[p]) by {
                    if q < j {
                        assert(v[p] == w[p] && v[q] == w[q]);
                    } else if q == j {
                        assert(v[p] == w[p]);
                        assert(w[p] == old_out[p]@);
                        assert(v[q] == s@);
                    } else if p > j {
                        assert(v[p] == w[p - 1] && v[q] == w[q - 1]);
                    } else if p < j {
                        assert(v[p] == w[p] && v[q] == w[q - 1]);
                    } else {
                        assert(v[p] == s@);
                        assert(v[q] == w[q - 1]);
                        assert(w[q - 1] == old_out[q - 1]@);
                        assert(w[j as int] == old_out[j as int]@);
                        if q - 1 > j {
                            assert(!ranks_before(w[q - 1], w[j as int]));
                            lemma_ranks_trans(w[q - 1], s@, w[j as int]);
                        }
                    }
                }
                assert forall|k: int| 0 <= k < out@.len() implies #[trigger] keys@[k]@ == lower_of(out@[k].app_name@) by {
                    if k < j {
                    } else if k == j {
                    } else {
                        assert(keys@[k] == old_keys[k - 1]);
                    }
                }
            }
        }
        i = i + 1;
    }
    assert(records@.subrange(0, records@.len() as int) =~= records@);
    out
}

/// A per-session volume given in parts per million of full scale, checked
/// against `0..=FULL_VOLUME`.
pub fn session_volume_level(level: i64) -> (r: Result<u32, BridgeError>)
    ensures
        0 <= level <= FULL_VOLUME ==> r == Ok::<u32, BridgeError>(level as u32),
        !(0 <= level <= FULL_VOLUME) ==> r == Err::<u32, BridgeError>(BridgeError::InvalidArgument),
{
    if level < 0 || level > FULL_VOLUME as i64 {
        Err(BridgeError::InvalidArgument)
    } else {
        Ok(level as u32)
    }
}

/// Position of the first session of the graph whose process id could be read
/// and is `process_id`.
pub open spec fn first_session_of(pids: Seq<Option<u32>>, process_id: u32) -> int
    decreases pids.len(),
{
    if pids.len() == 0 {
        0
    } else if pids[0] == Some(process_id) {
        0
    } else {
        1 + first_session_of(pids.drop_first(), process_id)
    }
}

/// Finds, by linear scan, the session of the graph that belongs to `process_id`.
/// `pids[i]` is the process id of the graph's i-th session, `None` where it
/// could not be read.
pub fn find_session(pids: &Vec<Option<u32>>, process_id: u32) -> (r: Result<usize, BridgeError>)
    ensures
        first_session_of(pids@, process_id) < pids@.len() ==> r == Ok::<usize, BridgeError>(
            first_session_of(pids@, process_id) as usize,
        ),
        first_session_of(pids@, process_id) >= pids@.len() ==> r == Err::<usize, BridgeError>(
            BridgeError::SessionNotFound(process_id),
        ),
{
    let n = pids.len();
    let mut i: usize = 0;
    assert(pids@.subrange(0, n as int) =~= pids@);
    while i < n
        invariant
            i <= n == pids@.len(),
            first_session_of(pids@, process_id) == i + first_session_of(
                pids@.subrange(i as int, n as int),
                process_id,
            ),
        decreases n - i,
    {
        assert(pids@.subrange(i as int, n as int).drop_first() =~= pids@.subrange(i + 1, n as int));
        assert(pids@.subrange(i as int, n as int)[0] == pids@[i as int]);
        match pids[i] {
            Some(p) => {
                if p == process_id {
                    return Ok(i);
                }
            },
            None => {},
        }
        i = i + 1;
    }
    Err(BridgeError::SessionNotFound(process_id))
}

/// Where and what to write for a per-session volume change.
#[derive(Debug, Clone, Copy, PartialEq, Eq)]
pub struct SessionVolumeWrite {
    pub index: usize,
    pub volume: u32,
}

/// Checks a per-session volume change: the level first, then the session.
pub fn set_session_volume(pids: &Vec<Option<u32>>, process_id: u32, level: i64) -> (r: Result<
    SessionVolumeWrite,
    BridgeError,
>)
    ensures
        !(0 <= level <= FULL_VOLUME) ==> r == Err::<SessionVolumeWrite, BridgeError>(
            BridgeError::InvalidArgument,
        ),
        0 <= level <= FULL_VOLUME && first_session_of(pids@, process_id) >= pids@.len() ==> r
            == Err::<SessionVolumeWrite, BridgeError>(BridgeError::SessionNotFound(process_id)),
        0 <= level <= FULL_VOLUME && first_session_of(pids@, process_id) < pids@.len() ==> r
            == Ok::<SessionVolumeWrite, BridgeError>(
            (SessionVolumeWrite {
                index: first_session_of(pids@, process_id) as usize,
                volume: level as u32,
            }),
        ),
{
    let volume = match session_volume_level(level) {
        Ok(v) => v,
        Err(e) => {
            return Err(e);
        },
    };
    match find_session(pids, process_id) {
        Ok(index) => Ok(SessionVolumeWrite { index, volume }),
        Err(e) => Err(e),
    }
}

} // verus!
