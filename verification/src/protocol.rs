//! Messages between the command line, a foreground session and the menu bar
//! process, and the handoff of a live session from one process to another.

use vstd::prelude::*;
use crate::config::{parse_duration_pref_in, parse_duration_spec, parse_until_spec, DurationPref};
use crate::i18n::{failed_text, pairing_unavailable_text, Lang, Tr};
use crate::keyval::{
    has_prefix, last_filled_value, last_filled_value_range, last_value, last_value_range,
};
use crate::status::JsonStatus;
use crate::text::{
    chars_eq, chars_of, dec, is_digit, is_ws, lemma_dec_digits, lemma_find_to, lemma_lines_cons,
    lemma_lower_fixed, lemma_parse_dec, lemma_parse_pad2, lemma_trim_fixed, lemma_trimmed_last,
    line_ranges, lines_of, lower_seq, pad2, push_char, push_dec, push_pad2, range_eq, string_of,
    trim_bounds, trim_seq,
};

verus! {

/// A request sent over the menu's socket.
#[derive(Debug, Clone, PartialEq, Eq)]
pub enum IpcRequest {
    On {
        duration: Option<String>,
        /// Leftover seconds of a timed session. Only set on an internal handoff.
        remaining_secs: Option<u64>,
        /// Elapsed seconds of the live session. Only set on an internal handoff.
        elapsed_secs: Option<u64>,
        /// Adopt a live session with remote display semantics (do not fight HID).
        handoff: bool,
        /// Command ids the donor already applied. Only set on an internal handoff.
        applied_command_ids: Vec<String>,
        /// Stable id so a timed-out donor can confirm a handoff that already adopted.
        handoff_id: Option<String>,
    },
    Off,
    Toggle,
    Status,
    Quit,
    Ping,
    Pair,
}

/// The menu's answer to a request.
#[derive(Debug, Clone)]
pub struct IpcResponse {
    pub ok: bool,
    pub error: Option<String>,
    pub status: Option<JsonStatus>,
    pub pong: Option<bool>,
    pub pairing_code: Option<String>,
    pub pairing_url: Option<String>,
    pub device_id: Option<String>,
    /// Set only when this process dispatched a handoff onto an idle engine.
    pub adopted: bool,
    /// Ask the foreground donor to stop after a deferred Off that this process
    /// could not adopt.
    pub stop_donor: bool,
}

/// The character view of an optional string.
pub open spec fn opt_view(o: Option<String>) -> Option<Seq<char>> {
    match o {
        Some(s) => Some(s@),
        None => None,
    }
}

impl IpcRequest {
    /// A plain `On` from the command line.
    pub fn on(duration: Option<String>) -> (r: Self)
        ensures
            r matches IpcRequest::On {
                duration: d,
                remaining_secs: None,
                elapsed_secs: None,
                handoff: false,
                applied_command_ids: ids,
                handoff_id: None,
            } && d == duration && ids@.len() == 0,
    {
        IpcRequest::On {
            duration,
            remaining_secs: None,
            elapsed_secs: None,
            handoff: false,
            applied_command_ids: Vec::new(),
            handoff_id: None,
        }
    }

    /// An `On` that hands a live session over, with what is left of it.
    pub fn handoff(duration: Option<String>, remaining_secs: Option<u64>, elapsed_secs: Option<u64>) -> (r: Self)
        ensures
            r matches IpcRequest::On {
                duration: d,
                remaining_secs: rs,
                elapsed_secs: es,
                handoff: true,
                applied_command_ids: ids,
                handoff_id: None,
            } && d == duration && rs == remaining_secs && es == elapsed_secs && ids@.len() == 0,
    {
        IpcRequest::On {
            duration,
            remaining_secs,
            elapsed_secs,
            handoff: true,
            applied_command_ids: Vec::new(),
            handoff_id: None,
        }
    }

    /// The same request naming the commands the donor already applied; other
    /// requests are returned unchanged.
    pub fn with_applied_command_ids(self, ids: Vec<String>) -> (r: Self)
        ensures
            match self {
                IpcRequest::On {
                    duration,
                    remaining_secs,
                    elapsed_secs,
                    handoff,
                    handoff_id,
                    ..
                } => r == (IpcRequest::On {
                    duration,
                    remaining_secs,
                    elapsed_secs,
                    handoff,
                    applied_command_ids: ids,
                    handoff_id,
                }),
                _ => r == self,
            },
    {
        match self {
            IpcRequest::On { duration, remaining_secs, elapsed_secs, handoff, handoff_id, .. } => {
                IpcRequest::On {
                    duration,
                    remaining_secs,
                    elapsed_secs,
                    handoff,
                    applied_command_ids: ids,
                    handoff_id,
                }
            },
            other => other,
        }
    }

    /// The same request carrying handoff id `id`; other requests are returned unchanged.
    pub fn with_handoff_id(self, id: &str) -> (r: Self)
        ensures
            match self {
                IpcRequest::On {
                    duration,
                    remaining_secs,
                    elapsed_secs,
                    handoff,
                    applied_command_ids,
                    ..
                } => r matches IpcRequest::On {
                    duration: d,
                    remaining_secs: rs,
                    elapsed_secs: es,
                    handoff: h,
                    applied_command_ids: ids,
                    handoff_id: Some(hid),
                } && d == duration && rs == remaining_secs && es == elapsed_secs && h == handoff
                    && ids == applied_command_ids && hid@ == id@,
                _ => r == self,
            },
    {
        match self {
            IpcRequest::On {
                duration,
                remaining_secs,
                elapsed_secs,
                handoff,
                applied_command_ids,
                ..
            } => IpcRequest::On {
                duration,
                remaining_secs,
                elapsed_secs,
                handoff,
                applied_command_ids,
                handoff_id: Some(String::from_str(id)),
            },
            other => other,
        }
    }

    /// The commands a handoff says the donor already applied (none for other requests).
    pub fn applied_command_ids(&self) -> (r: &[String])
        ensures
            match self {
                IpcRequest::On { applied_command_ids, .. } => r@ == applied_command_ids@,
                _ => r@.len() == 0,
            },
    {
        match self {
            IpcRequest::On { applied_command_ids, .. } => applied_command_ids.as_slice(),
            _ => &[],
        }
    }

    /// The handoff id of an `On`, if it carries one.
    pub fn handoff_id(&self) -> (r: Option<&str>)
        ensures
            match self {
                IpcRequest::On { handoff_id: Some(id), .. } => r matches Some(s) && s@ == id@,
                _ => r is None,
            },
    {
        match self {
            IpcRequest::On { handoff_id: Some(id), .. } => Some(id.as_str()),
            _ => None,
        }
    }

    /// Whether this is an `On` that hands a live session over.
    pub fn is_handoff(&self) -> (r: bool)
        ensures
            r == (self matches IpcRequest::On { handoff: true, .. }),
    {
        match self {
            IpcRequest::On { handoff, .. } => *handoff,
            _ => false,
        }
    }
}

impl IpcResponse {
    /// Success, with the current status.
    pub fn ok_status(status: JsonStatus) -> (r: Self)
        ensures
            r == (IpcResponse {
                ok: true,
                error: None,
                status: Some(status),
                pong: None,
                pairing_code: None,
                pairing_url: None,
                device_id: None,
                adopted: false,
                stop_donor: false,
            }),
    {
        IpcResponse {
            ok: true,
            error: None,
            status: Some(status),
            pong: None,
            pairing_code: None,
            pairing_url: None,
            device_id: None,
            adopted: false,
            stop_donor: false,
        }
    }

    /// Success after this process adopted a handed-over session.
    pub fn ok_adopted(status: JsonStatus) -> (r: Self)
        ensures
            r == (IpcResponse {
                ok: true,
                error: None,
                status: Some(status),
                pong: None,
                pairing_code: None,
                pairing_url: None,
                device_id: None,
                adopted: true,
                stop_donor: false,
            }),
    {
        IpcResponse { adopted: true, ..Self::ok_status(status) }
    }

    /// Failure with the error code or message `msg`.
    pub fn err(msg: &str) -> (r: Self)
        ensures
            r matches IpcResponse {
                ok: false,
                error: Some(e),
                status: None,
                pong: None,
                pairing_code: None,
                pairing_url: None,
                device_id: None,
                adopted: false,
                stop_donor: false,
            } && e@ == msg@,
    {
        IpcResponse {
            ok: false,
            error: Some(String::from_str(msg)),
            status: None,
            pong: None,
            pairing_code: None,
            pairing_url: None,
            device_id: None,
            adopted: false,
            stop_donor: false,
        }
    }

    /// The answer to `Ping`.
    pub fn pong() -> (r: Self)
        ensures
            r == (IpcResponse {
                ok: true,
                error: None,
                status: None,
                pong: Some(true),
                pairing_code: None,
                pairing_url: None,
                device_id: None,
                adopted: false,
                stop_donor: false,
            }),
    {
        IpcResponse {
            ok: true,
            error: None,
            status: None,
            pong: Some(true),
            pairing_code: None,
            pairing_url: None,
            device_id: None,
            adopted: false,
            stop_donor: false,
        }
    }

    /// Success of `Pair`, with the code, its link and the device id.
    pub fn ok_pairing(code: String, url: String, device_id: Option<String>) -> (r: Self)
        ensures
            r == (IpcResponse {
                ok: true,
                error: None,
                status: None,
                pong: None,
                pairing_code: Some(code),
                pairing_url: Some(url),
                device_id,
                adopted: false,
                stop_donor: false,
            }),
    {
        IpcResponse {
            ok: true,
            error: None,
            status: None,
            pong: None,
            pairing_code: Some(code),
            pairing_url: Some(url),
            device_id,
            adopted: false,
            stop_donor: false,
        }
    }
}

/// The duration of an `On`: none when absent, else the duration it spells
/// (errors in `lang`).
pub fn parse_on_duration_in(raw: Option<&str>, lang: Lang) -> (r: Result<Option<DurationPref>, String>)
    ensures
        match raw {
            None => r == Ok::<Option<DurationPref>, String>(None),
            Some(s) => match (r, parse_duration_spec(s@, lang)) {
                (Ok(Some(a)), Ok(b)) => a == b,
                (Err(a), Err(b)) => a@ == b,
                _ => false,
            },
        },
{
    match raw {
        None => Ok(None),
        Some(s) => match parse_duration_pref_in(s, lang) {
            Ok(p) => Ok(Some(p)),
            Err(e) => Err(e),
        },
    }
}

/// The spelling of a duration on the command line and over IPC.
pub open spec fn duration_ipc_text(pref: DurationPref) -> Seq<char> {
    match pref {
        DurationPref::Indefinite => "indefinite"@,
        DurationPref::Hours { hours } => dec(hours as nat) + seq!['h'],
        DurationPref::UntilLocal { hour, minute } => "until="@ + pad2(hour as nat) + seq![':'] + pad2(
            minute as nat,
        ),
    }
}

/// Stable CLI/IPC spelling for a duration, so a foreground fallback can hand
/// the live session to the menu with `IpcRequest::On`.
pub fn duration_pref_to_ipc(pref: DurationPref) -> (r: String)
    ensures
        r@ == duration_ipc_text(pref),
{
    match pref {
        DurationPref::Indefinite => String::from_str("indefinite"),
        DurationPref::Hours { hours } => {
            let mut s = String::new();
            push_dec(&mut s, hours as u64);
            push_char(&mut s, 'h');
            assert(s@ =~= duration_ipc_text(pref));
            s
        },
        DurationPref::UntilLocal { hour, minute } => {
            let mut s = String::from_str("until=");
            push_pad2(&mut s, hour as u64);
            push_char(&mut s, ':');
            push_pad2(&mut s, minute as u64);
            assert(s@ =~= duration_ipc_text(pref));
            s
        },
    }
}

/// A valid duration: a timed one lasts at least an hour, a wall-clock one names
/// a real time of day.
pub open spec fn duration_is_valid(pref: DurationPref) -> bool {
    match pref {
        DurationPref::Indefinite => true,
        DurationPref::Hours { hours } => hours >= 1,
        DurationPref::UntilLocal { hour, minute } => hour < 24 && minute < 60,
    }
}

/// `HH:MM` read from its two-column spelling.
proof fn lemma_until_roundtrip(hour: nat, minute: nat, lang: Lang)
    requires
        hour < 24,
        minute < 60,
    ensures
        parse_until_spec(pad2(hour) + seq![':'] + pad2(minute), lang) == Ok::<DurationPref, Seq<char>>(
            DurationPref::UntilLocal { hour: hour as u8, minute: minute as u8 },
        ),
{
    let r = pad2(hour) + seq![':'] + pad2(minute);
    lemma_parse_pad2(hour, 255);
    lemma_parse_pad2(minute, 255);
    assert(r[2] == ':');
    assert(r[0] != ':' && r[1] != ':') by {
        assert(is_digit(pad2(hour)[0]));
        assert(is_digit(pad2(hour)[1]));
    }
    lemma_find_to(r, ':', 0, 2);
    assert forall|t: int| 3 <= t < r.len() implies r[t] != ':' by {
        assert(r[t] == pad2(minute)[t - 3]);
        assert(is_digit(pad2(minute)[t - 3]));
    }
    lemma_find_to(r, ':', 3, r.len() as int);
    assert(r.take(2) =~= pad2(hour));
    assert(r.skip(3) =~= pad2(minute));
}

/// The IPC spelling of a valid duration reads back as that duration, in
/// either language.
#[verifier::rlimit(40)]
pub proof fn law_duration_ipc_roundtrip(pref: DurationPref, lang: Lang)
    requires
        duration_is_valid(pref),
    ensures
        parse_duration_spec(duration_ipc_text(pref), lang) == Ok::<DurationPref, Seq<char>>(pref),
{
    reveal_strlit("indefinite");
    reveal_strlit("inf");
    reveal_strlit("forever");
    reveal_strlit("无限");
    reveal_strlit("until=");
    reveal_strlit("until:");
    reveal_strlit("小时");
    let t = duration_ipc_text(pref);
    match pref {
        DurationPref::Indefinite => {
            lemma_trim_fixed(t);
            lemma_lower_fixed(t);
        },
        DurationPref::Hours { hours } => {
            lemma_parse_dec(hours as nat, u32::MAX as nat);
            lemma_dec_digits(hours as nat);
            let d = dec(hours as nat);
            assert(t.drop_last() =~= d);
            assert(is_digit(t[0])) by {
                assert(t[0] == d[0]);
            }
            lemma_trim_fixed(t);
            assert forall|i: int| 0 <= i < t.len() implies !('A' <= #[trigger] t[i] && t[i] <= 'Z') by {
                if i < d.len() {
                    assert(t[i] == d[i]);
                    assert(is_digit(d[i]));
                }
            }
            lemma_lower_fixed(t);
            let s = lower_seq(trim_seq(t));
            assert(s == t);
            assert(s != "indefinite"@ && s != "inf"@ && s != "forever"@ && s != "无限"@) by {
                assert(s[0] != "indefinite"@[0]);
                assert(s[0] != "inf"@[0]);
                assert(s[0] != "forever"@[0]);
                assert(s[0] != "无限"@[0]);
            }
            if s.len() >= 6 {
                assert(s.take(6)[0] != "until="@[0]);
                assert(s.take(6)[0] != "until:"@[0]);
            }
        },
        DurationPref::UntilLocal { hour, minute } => {
            lemma_parse_pad2(hour as nat, 255);
            lemma_parse_pad2(minute as nat, 255);
            let body = pad2(hour as nat) + seq![':'] + pad2(minute as nat);
            assert(t =~= "until="@ + body);
            assert(is_digit(t.last())) by {
                assert(t.last() == pad2(minute as nat)[1]);
            }
            lemma_trim_fixed(t);
            assert forall|i: int| 0 <= i < t.len() implies !('A' <= #[trigger] t[i] && t[i] <= 'Z') by {
                if i >= 6 && i < 8 {
                    assert(t[i] == pad2(hour as nat)[i - 6]);
                    assert(is_digit(pad2(hour as nat)[i - 6]));
                } else if i >= 9 {
                    assert(t[i] == pad2(minute as nat)[i - 9]);
                    assert(is_digit(pad2(minute as nat)[i - 9]));
                }
            }
            lemma_lower_fixed(t);
            let s = lower_seq(trim_seq(t));
            assert(s == t);
            assert(s != "indefinite"@ && s != "inf"@ && s != "forever"@ && s != "无限"@) by {
                assert(s[0] != "indefinite"@[0]);
                assert(s[0] != "inf"@[0]);
                assert(s[0] != "forever"@[0]);
                assert(s[0] != "无限"@[0]);
            }
            assert(s.take(6) =~= "until="@);
            assert(s.skip(6) =~= body);
            lemma_until_roundtrip(hour as nat, minute as nat, lang);
        },
    }
}

/// Handoff ids of processes with the same pid but different start times differ.
pub proof fn law_handoff_id_tells_starts_apart(pid: u32, a: u64, b: u64, seq: u64)
    requires
        a != b,
    ensures
        handoff_id_text(pid, Some(a), seq) != handoff_id_text(pid, Some(b), seq),
{
    lemma_dec_digits(a as nat);
    lemma_dec_digits(b as nat);
    lemma_dec_digits(seq as nat);
    let p = dec(pid as nat) + seq!['-'];
    let x = handoff_id_text(pid, Some(a), seq);
    let y = handoff_id_text(pid, Some(b), seq);
    if x == y {
        let da = dec(a as nat);
        let db = dec(b as nat);
        let tail = seq!['-'] + dec(seq as nat);
        assert(x =~= p + da + tail);
        assert(y =~= p + db + tail);
        assert(da.len() == db.len());
        assert(da =~= x.subrange(p.len() as int, (p.len() + da.len()) as int));
        assert(db =~= y.subrange(p.len() as int, (p.len() + db.len()) as int));
        assert(da == db);
    }
}

/// The menu took over this handoff: it answered success, said it adopted the
/// session, and reports standby active.
pub fn menu_accepted_handoff(resp: &IpcResponse) -> (r: bool)
    ensures
        r == (resp.ok && resp.adopted && (resp.status matches Some(st) && st.active)),
{
    resp.ok && resp.adopted && match &resp.status {
        Some(status) => status.active,
        None => false,
    }
}

/// The menu asked the donor to stop.
pub fn donor_should_stop(resp: &IpcResponse) -> (r: bool)
    ensures
        r == resp.stop_donor,
{
    resp.stop_donor
}

/// Two strings with the same characters.
fn str_eq(a: &str, b: &str) -> (r: bool)
    ensures
        r == (a@ == b@),
{
    let v = chars_of(a);
    chars_eq(&v, b)
}

/// `request_id` is present, not empty, and the same as `last_id`.
pub open spec fn same_nonempty_id(request_id: Option<&str>, last_id: Option<&str>) -> bool {
    match (request_id, last_id) {
        (Some(r), Some(l)) => r@.len() > 0 && r@ == l@,
        _ => false,
    }
}

/// This menu already completed (or tried) this handoff id, even if standby ended since.
pub fn menu_already_processed_handoff(handoff: bool, request_id: Option<&str>, last_id: Option<&str>) -> (r: bool)
    ensures
        r == (handoff && same_nonempty_id(request_id, last_id)),
{
    if !handoff {
        return false;
    }
    match (request_id, last_id) {
        (Some(r), Some(l)) => r.unicode_len() > 0 && str_eq(r, l),
        _ => false,
    }
}

/// A lost handoff reply still counts as this donor's adopt on retry, while
/// the adopted session is running.
pub fn menu_confirms_prior_handoff(
    handoff: bool,
    engine_active: bool,
    request_id: Option<&str>,
    last_id: Option<&str>,
) -> (r: bool)
    ensures
        r == (handoff && same_nonempty_id(request_id, last_id) && engine_active),
{
    menu_already_processed_handoff(handoff, request_id, last_id) && engine_active
}

/// A matching id after the adopted session ended: stop the donor, do not dispatch again.
pub fn should_stop_donor_after_ended_prior_handoff(already_processed: bool, engine_active: bool) -> (r: bool)
    ensures
        r == (already_processed && !engine_active),
{
    already_processed && !engine_active
}

/// The handoff id text: `{pid}-{starttime}-{seq}`, with `seq` in place of an
/// unknown start time.
pub open spec fn handoff_id_text(pid: u32, starttime: Option<u64>, seq: u64) -> Seq<char> {
    let mid = match starttime {
        Some(start) => start,
        None => seq,
    };
    dec(pid as nat) + seq!['-'] + dec(mid as nat) + seq!['-'] + dec(seq as nat)
}

/// `{pid}-{starttime}-{seq}`, so a reused pid cannot collide with a prior adopt.
pub fn format_handoff_id(pid: u32, starttime: Option<u64>, seq: u64) -> (r: String)
    ensures
        r@ == handoff_id_text(pid, starttime, seq),
{
    let mid = match starttime {
        Some(start) => start,
        None => seq,
    };
    let mut s = String::new();
    push_dec(&mut s, pid as u64);
    push_char(&mut s, '-');
    push_dec(&mut s, mid);
    push_char(&mut s, '-');
    push_dec(&mut s, seq);
    assert(s@ =~= handoff_id_text(pid, starttime, seq));
    s
}

/// What the menu decided about a handoff, persisted so a timed-out donor can
/// still stop after the menu adopted and quit.
#[derive(Debug, Clone, Copy, PartialEq, Eq, Structural)]
pub enum HandoffAckOutcome {
    Adopted,
    Stop,
}

/// A persisted handoff decision, and whether the successor still owns a reporter.
#[derive(Debug, Clone, PartialEq, Eq)]
pub struct HandoffAck {
    pub id: String,
    pub outcome: HandoffAckOutcome,
    pub reporter: bool,
}

/// The word an outcome is written as.
pub open spec fn outcome_text(o: HandoffAckOutcome) -> Seq<char> {
    match o {
        HandoffAckOutcome::Adopted => "adopted"@,
        HandoffAckOutcome::Stop => "stop"@,
    }
}

/// The text of a handoff acknowledgement.
pub open spec fn ack_text(id: Seq<char>, outcome: HandoffAckOutcome, reporter: bool) -> Seq<char> {
    "handoff_id="@ + id + seq!['\n'] + "outcome="@ + outcome_text(outcome) + seq!['\n']
        + "reporter="@ + seq![
        if reporter {
            '1'
        } else {
            '0'
        },
    ] + seq!['\n']
}

/// The acknowledgement that a text describes: the id of the last `handoff_id=`
/// line with a non-blank value (trimmed), the outcome of the last `outcome=`
/// line (`adopted` or `stop`, trimmed), and whether the last `reporter=` line
/// says `1`; no acknowledgement without an id and an outcome.
pub open spec fn ack_of(s: Seq<char>) -> Option<(Seq<char>, HandoffAckOutcome, bool)> {
    let lines = lines_of(s);
    let outcome = match last_value(lines, "outcome="@) {
        Some(v) => if trim_seq(v) == "adopted"@ {
            Some(HandoffAckOutcome::Adopted)
        } else if trim_seq(v) == "stop"@ {
            Some(HandoffAckOutcome::Stop)
        } else {
            None
        },
        None => None,
    };
    let reporter = match last_value(lines, "reporter="@) {
        Some(v) => trim_seq(v) == "1"@,
        None => false,
    };
    match (last_filled_value(lines, "handoff_id="@), outcome) {
        (Some(id), Some(o)) => Some((trim_seq(id), o, reporter)),
        _ => None,
    }
}

/// The lines of an acknowledgement's text, one per field.
proof fn lemma_ack_lines(id: Seq<char>, outcome: HandoffAckOutcome, reporter: bool)
    requires
        id.len() > 0,
        forall|i: int| 0 <= i < id.len() ==> id[i] != '\n',
        trim_seq(id) == id,
    ensures
        lines_of(ack_text(id, outcome, reporter)) == seq![
            "handoff_id="@ + id,
            "outcome="@ + outcome_text(outcome),
            "reporter="@ + seq![if reporter { '1' } else { '0' }],
        ],
{
    reveal_strlit("handoff_id=");
    reveal_strlit("outcome=");
    reveal_strlit("reporter=");
    reveal_strlit("adopted");
    reveal_strlit("stop");
    let d = if reporter { '1' } else { '0' };
    let l1 = "handoff_id="@ + id;
    let l2 = "outcome="@ + outcome_text(outcome);
    let l3 = "reporter="@ + seq![d];
    lemma_trimmed_last(id);
    assert(l1.last() == id.last());
    assert(('\r' as u32) == 13);
    assert(is_ws('\r'));
    assert forall|i: int| 0 <= i < l1.len() implies l1[i] != '\n' by {
        if i >= 11 {
            assert(l1[i] == id[i - 11]);
        }
    }
    assert forall|i: int| 0 <= i < l2.len() implies l2[i] != '\n' by {}
    assert forall|i: int| 0 <= i < l3.len() implies l3[i] != '\n' by {}
    lemma_lines_cons(l3, Seq::empty());
    assert(lines_of(Seq::<char>::empty()) =~= Seq::<Seq<char>>::empty());
    lemma_lines_cons(l2, l3 + seq!['\n']);
    assert(l3 + seq!['\n'] =~= l3 + seq!['\n'] + Seq::<char>::empty());
    lemma_lines_cons(l1, l2 + seq!['\n'] + (l3 + seq!['\n']));
    assert(ack_text(id, outcome, reporter) =~= l1 + seq!['\n'] + (l2 + seq!['\n'] + (l3 + seq![
        '\n',
    ])));
    assert(lines_of(ack_text(id, outcome, reporter)) =~= seq![l1, l2, l3]);
}

/// Reading back the acknowledgement written for a handoff id gives that id,
/// outcome and reporter flag, for any id that is not blank, has no line
/// break and no surrounding whitespace.
#[verifier::rlimit(40)]
pub proof fn law_ack_roundtrip(id: Seq<char>, outcome: HandoffAckOutcome, reporter: bool)
    requires
        id.len() > 0,
        forall|i: int| 0 <= i < id.len() ==> id[i] != '\n',
        trim_seq(id) == id,
    ensures
        ack_of(ack_text(id, outcome, reporter)) == Some((id, outcome, reporter)),
{
    reveal_strlit("handoff_id=");
    reveal_strlit("outcome=");
    reveal_strlit("reporter=");
    reveal_strlit("adopted");
    reveal_strlit("stop");
    reveal_strlit("1");
    lemma_ack_lines(id, outcome, reporter);
    let lines = lines_of(ack_text(id, outcome, reporter));
    let d = if reporter { '1' } else { '0' };
    let l1 = "handoff_id="@ + id;
    let l2 = "outcome="@ + outcome_text(outcome);
    let l3 = "reporter="@ + seq![d];
    assert(l1.take(11) =~= "handoff_id="@);
    assert(l1.skip(11) =~= id);
    assert(l2.take(8) =~= "outcome="@);
    assert(l2.skip(8) =~= outcome_text(outcome));
    assert(l3.take(9) =~= "reporter="@);
    assert(l3.skip(9) =~= seq![d]);
    assert(!has_prefix(l3, "handoff_id="@)) by {
        if 11 <= l3.len() {
            assert(l3.take(11)[0] != "handoff_id="@[0]);
        }
    }
    assert(!has_prefix(l2, "handoff_id="@)) by {
        if 11 <= l2.len() {
            assert(l2.take(11)[0] != "handoff_id="@[0]);
        }
    }
    assert(!has_prefix(l3, "outcome="@)) by {
        assert(l3.take(8)[0] != "outcome="@[0]);
    }
    assert(!has_prefix(l2, "reporter="@)) by {
        assert(l2.take(9)[0] != "reporter="@[0]);
    }
    assert(!has_prefix(l1, "reporter="@)) by {
        assert(l1.take(9)[0] != "reporter="@[0]);
    }
    assert(!has_prefix(l1, "outcome="@)) by {
        assert(l1.take(8)[0] != "outcome="@[0]);
    }
    assert(lines.drop_last() =~= seq![l1, l2]);
    assert(lines.drop_last().drop_last() =~= seq![l1]);
    assert(lines.drop_last().drop_last().drop_last() =~= Seq::<Seq<char>>::empty());
    assert(last_filled_value(lines.drop_last().drop_last(), "handoff_id="@) == Some(id));
    assert(last_filled_value(lines.drop_last(), "handoff_id="@) == Some(id));
    assert(last_filled_value(lines, "handoff_id="@) == Some(id));
    assert(last_value(lines.drop_last(), "outcome="@) == Some(outcome_text(outcome)));
    assert(last_value(lines, "outcome="@) == Some(outcome_text(outcome)));
    assert(last_value(lines, "reporter="@) == Some(seq![d]));
    lemma_trim_fixed(outcome_text(outcome));
    lemma_trim_fixed(seq![d]);
    assert("1"@ =~= seq!['1']);
    assert((seq![d] == "1"@) == reporter) by {
        if !reporter {
            assert(seq![d][0] != "1"@[0]);
        }
    }
    assert(("stop"@ == "adopted"@) == false) by {
        assert("stop"@[0] != "adopted"@[0]);
    }
}

/// The text of a handoff acknowledgement: `handoff_id=`, `outcome=` and
/// `reporter=` (`1` or `0`), one per line.
pub fn format_handoff_ack(id: &str, outcome: HandoffAckOutcome, reporter: bool) -> (r: String)
    ensures
        r@ == ack_text(id@, outcome, reporter),
{
    let mut s = String::from_str("handoff_id=");
    s.append(id);
    push_char(&mut s, '\n');
    s.append("outcome=");
    match outcome {
        HandoffAckOutcome::Adopted => s.append("adopted"),
        HandoffAckOutcome::Stop => s.append("stop"),
    }
    push_char(&mut s, '\n');
    s.append("reporter=");
    push_char(&mut s, if reporter { '1' } else { '0' });
    push_char(&mut s, '\n');
    assert(s@ =~= ack_text(id@, outcome, reporter));
    s
}

/// Reads a handoff acknowledgement; `None` without an id or a known outcome.
pub fn parse_handoff_ack(s: &str) -> (r: Option<HandoffAck>)
    ensures
        match (r, ack_of(s@)) {
            (Some(a), Some((id, o, rep))) => a.id@ == id && a.outcome == o && a.reporter == rep,
            (None, None) => true,
            _ => false,
        },
{
    let v = chars_of(s);
    let ranges = line_ranges(&v);
    let outcome = match last_value_range(&v, &ranges, "outcome=") {
        None => None,
        Some((a, b)) => {
            let (x, y) = trim_bounds(&v, a, b);
            if range_eq(&v, x, y, "adopted") {
                Some(HandoffAckOutcome::Adopted)
            } else if range_eq(&v, x, y, "stop") {
                Some(HandoffAckOutcome::Stop)
            } else {
                None
            }
        },
    };
    let reporter = match last_value_range(&v, &ranges, "reporter=") {
        None => false,
        Some((a, b)) => {
            let (x, y) = trim_bounds(&v, a, b);
            range_eq(&v, x, y, "1")
        },
    };
    let id = match last_filled_value_range(&v, &ranges, "handoff_id=") {
        None => {
            return None;
        },
        Some((a, b)) => {
            let (x, y) = trim_bounds(&v, a, b);
            string_of(&v, x, y)
        },
    };
    match outcome {
        None => None,
        Some(o) => Some(HandoffAck { id, outcome: o, reporter }),
    }
}

/// A persisted acknowledgement for this donor's own handoff id stops it, even
/// if another menu already rebound the socket.
pub fn donor_should_stop_after_successor_gone(
    our_handoff_id: Option<&str>,
    successor_live: bool,
    persisted_id: Option<&str>,
) -> (r: bool)
    ensures
        r == same_nonempty_id(our_handoff_id, persisted_id),
{
    match (our_handoff_id, persisted_id) {
        (Some(ours), Some(p)) => ours.unicode_len() > 0 && str_eq(ours, p),
        _ => false,
    }
}

/// After a stop driven by an acknowledgement, announce the Mac offline only
/// when no successor reporter remains.
pub fn donor_should_flush_offline_after_ack(successor_reporter: bool) -> (r: bool)
    ensures
        r == !successor_reporter,
{
    !successor_reporter
}

/// Persist whether this process still owns the cloud reporter, Stop
/// acknowledgements after a failed adopt included.
pub fn handoff_ack_reporter(owns_reporter: bool) -> (r: bool)
    ensures
        r == owns_reporter,
{
    owns_reporter
}

/// A handoff that adopted, or told the donor to stop, is persisted.
pub fn should_persist_handoff_ack(handoff: bool, adopted: bool, stop_donor: bool) -> (r: bool)
    ensures
        r == (handoff && (adopted || stop_donor)),
{
    handoff && (adopted || stop_donor)
}

/// A just-dispatched adopt must not report success if its acknowledgement was not written.
pub fn should_reject_adopt_if_ack_unpersisted(adopted: bool, dispatched_now: bool, persist_ok: bool) -> (r: bool)
    ensures
        r == (adopted && dispatched_now && !persist_ok),
{
    adopted && dispatched_now && !persist_ok
}

/// A deferred Off must not report `stop_donor` unless the Stop acknowledgement was written.
pub fn should_reject_stop_if_ack_unpersisted(stop_donor: bool, persist_ok: bool) -> (r: bool)
    ensures
        r == (stop_donor && !persist_ok),
{
    stop_donor && !persist_ok
}

/// A held phone On must not restart the menu after an unpersisted adopt or stop.
pub fn should_skip_handoff_drain_after_ack_failure(ack_unpersisted: bool) -> (r: bool)
    ensures
        r == ack_unpersisted,
{
    ack_unpersisted
}

/// The text the command line shows for a stable error code of the socket:
/// "failed" for an empty code, the localized message for
/// `pairing_unavailable`, and any other code as it is.
pub open spec fn ipc_error_text(code: Seq<char>, lang: Lang) -> Seq<char> {
    if code.len() == 0 {
        failed_text(lang)
    } else if code == "pairing_unavailable"@ {
        pairing_unavailable_text(lang)
    } else {
        code
    }
}

/// Maps a stable socket error code to text in `lang` (JSON output keeps the code).
pub fn human_ipc_error(code: &str, lang: Lang) -> (r: String)
    ensures
        r@ == ipc_error_text(code@, lang),
{
    let t = Tr::new(lang);
    if code.unicode_len() == 0 {
        String::from_str(t.failed())
    } else if str_eq(code, "pairing_unavailable") {
        String::from_str(t.pairing_unavailable())
    } else {
        String::from_str(code)
    }
}

} // verus!
