//! Who owns `session.lock` (and with it the global clamshell flag) while a
//! session moves between processes, and the lock file's text.
//!
//! The file itself, process liveness and start times are read by the caller;
//! these functions decide from what was read.

use vstd::prelude::*;
use crate::keyval::{has_prefix, last_value, last_value_range};
use crate::text::{
    char_is_ws, chars_of, dec, is_ws, last_index_of, lemma_lines_cons, lemma_parse_dec,
    lemma_ws_to, line_ranges, lines_of, parse_unsigned, parse_unsigned_range, push_char, push_dec,
    range_eq, trim_bounds, trim_seq, words,
};

verus! {

/// Whether this process should restore clamshell sleep and delete `session.lock`.
///
/// A live peer (the menu, after a foreground handoff) owns the file. Releasing
/// the previous process must not globally re-enable clamshell sleep or remove
/// the lock the next launch uses to restore the flag.
pub fn should_release_clamshell_lock(our_pid: u32, lock_pid: Option<u32>, lock_holder_alive: bool) -> (r: bool)
    ensures
        r == match lock_pid {
            None => true,
            Some(pid) => pid == our_pid || !lock_holder_alive,
        },
{
    match lock_pid {
        None => true,
        Some(pid) => pid == our_pid || !lock_holder_alive,
    }
}

/// Whether ApplyPower may replace `session.lock` with this process's PID.
///
/// `already_holding` is this process's ownership *before* the current
/// ApplyPower. The adopting menu is not yet holding, so it may take a live
/// donor's lock. A timed-out donor is already holding, so it must not steal
/// the successor's lock back on Tick.
pub fn should_claim_session_lock(
    our_pid: u32,
    lock_pid: Option<u32>,
    lock_holder_alive: bool,
    already_holding: bool,
) -> (r: bool)
    ensures
        r == match lock_pid {
            None => true,
            Some(pid) => pid == our_pid || !lock_holder_alive || !already_holding,
        },
{
    match lock_pid {
        None => true,
        Some(pid) => pid == our_pid || !lock_holder_alive || !already_holding,
    }
}

/// Whether this process should re-enable clamshell sleep.
///
/// A live peer that recorded `clamshell=1` owns the global flag. A live peer
/// that recorded `clamshell=0` did not take ownership, so the previous process
/// must still restore clamshell sleep even while leaving the lock file in place.
pub fn should_restore_clamshell(our_pid: u32, lock: Option<(u32, bool)>, lock_holder_alive: bool) -> (r: bool)
    ensures
        r == match lock {
            None => true,
            Some((pid, claimed)) => pid == our_pid || !lock_holder_alive || !claimed,
        },
{
    match lock {
        None => true,
        Some((pid, claimed)) => pid == our_pid || !lock_holder_alive || !claimed,
    }
}

/// Whether the process applying a plan should restore clamshell sleep: a
/// successor that does not claim the flag clears an inherited disable itself.
pub fn should_clear_unclaimed_clamshell(claiming: bool) -> (r: bool)
    ensures
        r == !claiming,
{
    !claiming
}

/// Whether a failed clamshell restore must abort an adopt: only when this
/// process is not claiming the flag and a foreign lock recorded `clamshell=1`,
/// whether or not its holder is still alive.
pub fn should_fail_unclaimed_clamshell_restore(
    claiming: bool,
    lock: Option<(u32, bool)>,
    lock_holder_alive: bool,
    our_pid: u32,
) -> (r: bool)
    ensures
        r == (!claiming && match lock {
            Some((pid, claimed)) => claimed && pid != our_pid,
            None => false,
        }),
{
    if claiming {
        return false;
    }
    match lock {
        Some((pid, claimed)) => claimed && pid != our_pid,
        None => false,
    }
}

/// Keep a foreign `clamshell=1` lock when an inherited restore failed, even if
/// its holder is already dead, so the next launch still has something to
/// recover from.
pub fn should_keep_inherited_clamshell_lock(failed_restore: bool, lock: Option<(u32, bool)>, our_pid: u32) -> (r: bool)
    ensures
        r == (failed_restore && match lock {
            Some((pid, claimed)) => claimed && pid != our_pid,
            None => false,
        }),
{
    failed_restore && match lock {
        Some((pid, claimed)) => claimed && pid != our_pid,
        None => false,
    }
}

/// The contents of `session.lock`.
#[derive(Debug, Clone, Copy, PartialEq, Eq, Structural)]
pub struct SessionLockRecord {
    pub pid: u32,
    pub clamshell: bool,
    /// Start token of the holder, so a reused pid is not taken for it.
    pub starttime: Option<u64>,
}

/// `pid`: the last `pid=` line, trimmed, as a `u32`; 0 when that line does not
/// parse or there is none.
pub open spec fn lock_pid_of(lines: Seq<Seq<char>>) -> u32 {
    match last_value(lines, "pid="@) {
        None => 0,
        Some(v) => match parse_unsigned(trim_seq(v), u32::MAX as nat) {
            Some(n) => n as u32,
            None => 0,
        },
    }
}

/// `clamshell`: whether the last `clamshell=` line, trimmed, is `1`.
pub open spec fn lock_clamshell_of(lines: Seq<Seq<char>>) -> bool {
    match last_value(lines, "clamshell="@) {
        None => false,
        Some(v) => trim_seq(v) == "1"@,
    }
}

/// `starttime`: the last `starttime=` line, trimmed, as a `u64`, if it parses.
pub open spec fn lock_starttime_of(lines: Seq<Seq<char>>) -> Option<u64> {
    match last_value(lines, "starttime="@) {
        None => None,
        Some(v) => match parse_unsigned(trim_seq(v), u64::MAX as nat) {
            Some(n) => Some(n as u64),
            None => None,
        },
    }
}

/// The record the text `s` of a lock file describes.
pub open spec fn lock_record_of(s: Seq<char>) -> SessionLockRecord {
    let lines = lines_of(s);
    SessionLockRecord {
        pid: lock_pid_of(lines),
        clamshell: lock_clamshell_of(lines),
        starttime: lock_starttime_of(lines),
    }
}

/// The text of a lock file for `pid`, its clamshell claim and start token.
pub open spec fn lock_text(pid: u32, clamshell: bool, starttime: Option<u64>) -> Seq<char> {
    "pid="@ + dec(pid as nat) + seq!['\n'] + "clamshell="@ + seq![
        if clamshell {
            '1'
        } else {
            '0'
        },
    ] + seq!['\n'] + match starttime {
        Some(t) => "starttime="@ + dec(t as nat) + seq!['\n'],
        None => Seq::empty(),
    }
}

/// The lines of a lock file's text, one per field.
proof fn lemma_lock_lines(pid: u32, clamshell: bool, starttime: Option<u64>)
    ensures
        lines_of(lock_text(pid, clamshell, starttime)) == seq![
            "pid="@ + dec(pid as nat),
            "clamshell="@ + seq![if clamshell { '1' } else { '0' }],
        ] + match starttime {
            Some(t) => seq!["starttime="@ + dec(t as nat)],
            None => Seq::<Seq<char>>::empty(),
        },
{
    reveal_strlit("pid=");
    reveal_strlit("clamshell=");
    reveal_strlit("starttime=");
    let d = if clamshell { '1' } else { '0' };
    let l1 = "pid="@ + dec(pid as nat);
    let l2 = "clamshell="@ + seq![d];
    lemma_parse_dec(pid as nat, u32::MAX as nat);
    let tail: Seq<char> = match starttime {
        Some(t) => "starttime="@ + dec(t as nat) + seq!['\n'],
        None => Seq::empty(),
    };
    let tail_lines: Seq<Seq<char>> = match starttime {
        Some(t) => seq!["starttime="@ + dec(t as nat)],
        None => Seq::empty(),
    };
    match starttime {
        Some(t) => {
            let l3 = "starttime="@ + dec(t as nat);
            lemma_parse_dec(t as nat, u64::MAX as nat);
            assert forall|i: int| 0 <= i < l3.len() implies l3[i] != '\n' by {
                if i >= 10 {
                    assert(l3[i] == dec(t as nat)[i - 10]);
                }
            }
            assert(l3.last() == dec(t as nat).last());
            lemma_lines_cons(l3, Seq::empty());
            assert(tail =~= l3 + seq!['\n'] + Seq::<char>::empty());
            assert(lines_of(tail) =~= tail_lines);
        },
        None => {
            assert(lines_of(tail) =~= tail_lines);
        },
    }
    assert forall|i: int| 0 <= i < l2.len() implies l2[i] != '\n' by {}
    lemma_lines_cons(l2, tail);
    assert forall|i: int| 0 <= i < l1.len() implies l1[i] != '\n' by {
        if i >= 4 {
            assert(l1[i] == dec(pid as nat)[i - 4]);
        }
    }
    assert(l1.last() == dec(pid as nat).last());
    lemma_lines_cons(l1, l2 + seq!['\n'] + tail);
    assert(lock_text(pid, clamshell, starttime) =~= l1 + seq!['\n'] + (l2 + seq!['\n'] + tail));
    assert(lines_of(lock_text(pid, clamshell, starttime)) =~= seq![l1, l2] + tail_lines);
}

/// Reading back the text written for a lock gives the record it was written for.
#[verifier::rlimit(40)]
pub proof fn law_lock_text_roundtrip(pid: u32, clamshell: bool, starttime: Option<u64>)
    ensures
        lock_record_of(lock_text(pid, clamshell, starttime)) == (SessionLockRecord {
            pid,
            clamshell,
            starttime,
        }),
{
    reveal_strlit("pid=");
    reveal_strlit("clamshell=");
    reveal_strlit("starttime=");
    reveal_strlit("1");
    lemma_lock_lines(pid, clamshell, starttime);
    let lines = lines_of(lock_text(pid, clamshell, starttime));
    let d = if clamshell { '1' } else { '0' };
    let l1 = "pid="@ + dec(pid as nat);
    let l2 = "clamshell="@ + seq![d];
    lemma_parse_dec(pid as nat, u32::MAX as nat);
    assert(l1.take(4) =~= "pid="@);
    assert(l1.skip(4) =~= dec(pid as nat));
    assert(l2.take(10) =~= "clamshell="@);
    assert(l2.skip(10) =~= seq![d]);
    assert(trim_seq(seq![d]) == seq![d]) by {
        assert(seq![d].drop_first() =~= Seq::<char>::empty());
    }
    assert("1"@ =~= seq!['1']);
    assert((seq![d] == "1"@) == clamshell) by {
        if !clamshell {
            assert(seq![d][0] != "1"@[0]);
        }
    }
    assert(!has_prefix(l2, "pid="@)) by {
        assert(l2.take(4)[0] != "pid="@[0]);
    }
    assert(!has_prefix(l1, "clamshell="@)) by {
        if 10 <= l1.len() {
            assert(l1.take(10)[0] != "clamshell="@[0]);
        }
    }
    assert(!has_prefix(l1, "starttime="@)) by {
        if 10 <= l1.len() {
            assert(l1.take(10)[0] != "starttime="@[0]);
        }
    }
    assert(!has_prefix(l2, "starttime="@)) by {
        assert(l2.take(10)[0] != "starttime="@[0]);
    }
    match starttime {
        Some(t) => {
            let l3 = "starttime="@ + dec(t as nat);
            lemma_parse_dec(t as nat, u64::MAX as nat);
            assert(l3.take(10) =~= "starttime="@);
            assert(l3.skip(10) =~= dec(t as nat));
            assert(!has_prefix(l3, "pid="@)) by {
                assert(l3.take(4)[0] != "pid="@[0]);
            }
            assert(!has_prefix(l3, "clamshell="@)) by {
                assert(l3.take(10)[0] != "clamshell="@[0]);
            }
            assert(lines =~= seq![l1, l2, l3]);
            assert(lines.drop_last() =~= seq![l1, l2]);
            assert(lines.drop_last().drop_last() =~= seq![l1]);
            assert(lines.drop_last().drop_last().drop_last() =~= Seq::<Seq<char>>::empty());
            assert(last_value(lines, "starttime="@) == Some(dec(t as nat)));
            assert(last_value(lines.drop_last(), "clamshell="@) == Some(seq![d]));
            assert(last_value(lines, "clamshell="@) == Some(seq![d]));
            assert(last_value(lines.drop_last().drop_last(), "pid="@) == Some(dec(pid as nat)));
            assert(last_value(lines.drop_last(), "pid="@) == Some(dec(pid as nat)));
            assert(last_value(lines, "pid="@) == Some(dec(pid as nat)));
            assert(lock_starttime_of(lines) == Some(t));
            assert(lock_clamshell_of(lines) == clamshell);
            assert(lock_pid_of(lines) == pid);
        },
        None => {
            assert(lines =~= seq![l1, l2]);
            assert(lines.drop_last() =~= seq![l1]);
            assert(lines.drop_last().drop_last() =~= Seq::<Seq<char>>::empty());
            assert(last_value(lines.drop_last().drop_last(), "starttime="@) is None);
            assert(last_value(lines.drop_last(), "starttime="@) is None);
            assert(last_value(lines, "starttime="@) is None);
            assert(last_value(lines, "clamshell="@) == Some(seq![d]));
            assert(last_value(lines.drop_last(), "pid="@) == Some(dec(pid as nat)));
            assert(last_value(lines, "pid="@) == Some(dec(pid as nat)));
        },
    }
    assert(lock_starttime_of(lines) == starttime);
    assert(lock_clamshell_of(lines) == clamshell);
    assert(lock_pid_of(lines) == pid);
}

/// `(pid, clamshell)` of a lock file's text.
pub fn parse_lock_text(s: &str) -> (r: (u32, bool))
    ensures
        r == (lock_record_of(s@).pid, lock_record_of(s@).clamshell),
{
    let rec = parse_lock_record(s);
    (rec.pid, rec.clamshell)
}

/// Reads a lock file's text. Lines other than `pid=`, `clamshell=` and
/// `starttime=` are ignored; a later line overrides an earlier one.
pub fn parse_lock_record(s: &str) -> (r: SessionLockRecord)
    ensures
        r == lock_record_of(s@),
{
    let v = chars_of(s);
    let ranges = line_ranges(&v);
    let pid: u32 = match last_value_range(&v, &ranges, "pid=") {
        None => 0,
        Some((a, b)) => {
            let (x, y) = trim_bounds(&v, a, b);
            match parse_unsigned_range(&v, x, y, 0xffff_ffff) {
                Some(n) => n as u32,
                None => 0,
            }
        },
    };
    let clamshell = match last_value_range(&v, &ranges, "clamshell=") {
        None => false,
        Some((a, b)) => {
            let (x, y) = trim_bounds(&v, a, b);
            range_eq(&v, x, y, "1")
        },
    };
    let starttime: Option<u64> = match last_value_range(&v, &ranges, "starttime=") {
        None => None,
        Some((a, b)) => {
            let (x, y) = trim_bounds(&v, a, b);
            parse_unsigned_range(&v, x, y, 0xffff_ffff_ffff_ffff)
        },
    };
    SessionLockRecord { pid, clamshell, starttime }
}

/// The text of a lock file: `pid=`, `clamshell=` (`1` or `0`) and, when known,
/// `starttime=`, one per line.
pub fn format_lock_text(pid: u32, clamshell: bool, starttime: Option<u64>) -> (r: String)
    ensures
        r@ == lock_text(pid, clamshell, starttime),
{
    let mut body = String::from_str("pid=");
    push_dec(&mut body, pid as u64);
    body.append("\nclamshell=");
    push_char(&mut body, if clamshell { '1' } else { '0' });
    push_char(&mut body, '\n');
    let ghost head = body@;
    if let Some(start) = starttime {
        body.append("starttime=");
        push_dec(&mut body, start);
        push_char(&mut body, '\n');
    }
    proof {
        reveal_strlit("\nclamshell=");
        assert("\nclamshell="@ =~= seq!['\n'] + "clamshell="@) by {
            reveal_strlit("clamshell=");
        }
        assert(head =~= "pid="@ + dec(pid as nat) + seq!['\n'] + "clamshell="@ + seq![
            if clamshell {
                '1'
            } else {
                '0'
            },
        ] + seq!['\n']);
    }
    assert(body@ =~= lock_text(pid, clamshell, starttime));
    body
}

/// Whether the recorded holder of a lock is still the process that wrote it.
pub open spec fn holder_is_live(pid_alive: bool, recorded_start: Option<u64>, observed_start: Option<u64>) -> bool {
    pid_alive && match recorded_start {
        None => true,
        Some(want) => observed_start == Some(want),
    }
}

/// A live pid is not enough: a killed holder can leave `session.lock` behind
/// for a reused pid, so a recorded start token must match the observed one.
pub fn lock_holder_is_live(pid_alive: bool, recorded_start: Option<u64>, observed_start: Option<u64>) -> (r: bool)
    ensures
        r == holder_is_live(pid_alive, recorded_start, observed_start),
{
    if !pid_alive {
        return false;
    }
    match recorded_start {
        None => true,
        Some(want) => match observed_start {
            Some(seen) => seen == want,
            None => false,
        },
    }
}

/// The start time a `/proc/<pid>/stat` line records: after the last `)` (which
/// closes the command name), the twentieth whitespace-separated field, as a `u64`.
pub open spec fn proc_starttime_spec(stat: Seq<char>) -> Option<u64> {
    let p = last_index_of(stat, ')');
    if p < 0 {
        None
    } else {
        let w = words(stat.skip(p + 1));
        if w.len() > 19 {
            match parse_unsigned(w[19], u64::MAX as nat) {
                Some(n) => Some(n as u64),
                None => None,
            }
        } else {
            None
        }
    }
}

/// Reads the start time out of a `/proc/<pid>/stat` line (see `proc_starttime_spec`).
pub fn parse_proc_stat_starttime(stat: &str) -> (r: Option<u64>)
    ensures
        r == proc_starttime_spec(stat@),
{
    let v = chars_of(stat);
    let n = v.len();
    let mut p = n;
    assert(v@.take(n as int) =~= v@);
    while p > 0 && v[p - 1] != ')'
        invariant
            p <= n,
            n == v@.len(),
            last_index_of(v@, ')') == last_index_of(v@.take(p as int), ')'),
        decreases p,
    {
        assert(v@.take(p as int).drop_last() =~= v@.take(p - 1));
        p -= 1;
    }
    if p == 0 {
        assert(v@.take(0) =~= Seq::<char>::empty());
        return None;
    }
    assert(last_index_of(v@, ')') == p - 1) by {
        assert(v@.take(p as int).last() == v@[p - 1]);
    }
    let ghost rest = v@.skip(p as int);
    let mut pos = p;
    let mut count: usize = 0;
    assert(v@.skip(pos as int) == rest);
    while pos < n
        invariant
            n == v@.len(),
            v@ == stat@,
            0 < p <= pos <= n,
            last_index_of(v@, ')') == p - 1,
            rest == v@.skip(p as int),
            count <= 19,
            count + words(v@.skip(pos as int)).len() == words(rest).len(),
            forall|j: int|
                0 <= j < words(v@.skip(pos as int)).len() ==> words(rest)[count + j]
                    == #[trigger] words(v@.skip(pos as int))[j],
        decreases n - pos,
    {
        let ghost here = v@.skip(pos as int);
        assert(here[0] == v@[pos as int]);
        if char_is_ws(v[pos]) {
            assert(here.drop_first() =~= v@.skip(pos + 1));
            pos += 1;
        } else {
            let mut e = pos + 1;
            while e < n && !char_is_ws(v[e])
                invariant
                    n == v@.len(),
                    pos < e <= n,
                    forall|t: int| pos < t < e ==> !is_ws(v@[t]),
                decreases n - e,
            {
                e += 1;
            }
            assert(crate::text::ws_from(here, 1) == e - pos) by {
                assert forall|t: int| 1 <= t < e - pos implies !is_ws(here[t]) by {
                    assert(here[t] == v@[pos + t]);
                }
                if e < n {
                    assert(here[e - pos] == v@[e as int]);
                }
                lemma_ws_to(here, 1, e - pos);
            }
            assert(here.take(e - pos) =~= v@.subrange(pos as int, e as int));
            assert(here.skip(e - pos) =~= v@.skip(e as int));
            assert(words(here) == seq![v@.subrange(pos as int, e as int)] + words(v@.skip(e as int)));
            assert(words(rest)[count as int] == v@.subrange(pos as int, e as int)) by {
                assert(words(here)[0] == v@.subrange(pos as int, e as int));
            }
            if count == 19 {
                assert(words(rest).len() > 19);
                assert(stat@.skip(p - 1 + 1) == rest);
                return parse_unsigned_range(&v, pos, e, 0xffff_ffff_ffff_ffff);
            }
            assert forall|j: int| 0 <= j < words(v@.skip(e as int)).len() implies words(rest)[count + 1
                + j] == #[trigger] words(v@.skip(e as int))[j] by {
                assert(words(here)[1 + j] == words(v@.skip(e as int))[j]);
            }
            count += 1;
            pos = e;
        }
    }
    assert(v@.skip(n as int) =~= Seq::<char>::empty());
    None
}

/// Whether another live process still owns standby: this one is idle, and
/// `lock` names a different pid whose holder (`pid_alive`, `observed_start`
/// read for that pid) is live.
pub open spec fn live_peer_owns_standby(
    engine_active: bool,
    our_pid: u32,
    lock: Option<SessionLockRecord>,
    pid_alive: bool,
    observed_start: Option<u64>,
) -> bool {
    !engine_active && match lock {
        Some(rec) => rec.pid != our_pid && holder_is_live(pid_alive, rec.starttime, observed_start),
        None => false,
    }
}

/// Hold phone On/Off while another live process still owns `session.lock`.
/// Applying Off against an idle menu is a no-op and would drop the command.
pub fn should_hold_cloud_commands(
    engine_active: bool,
    our_pid: u32,
    lock: Option<SessionLockRecord>,
    pid_alive: bool,
    observed_start: Option<u64>,
) -> (r: bool)
    ensures
        r == live_peer_owns_standby(engine_active, our_pid, lock, pid_alive, observed_start),
{
    if engine_active {
        return false;
    }
    match lock {
        Some(rec) => rec.pid != our_pid && lock_holder_is_live(pid_alive, rec.starttime, observed_start),
        None => false,
    }
}

/// Do not start a local session while a live donor still owns standby: a
/// toggle during that overlap would race the handoff.
pub fn should_defer_local_controls(
    engine_active: bool,
    our_pid: u32,
    lock: Option<SessionLockRecord>,
    pid_alive: bool,
    observed_start: Option<u64>,
) -> (r: bool)
    ensures
        r == live_peer_owns_standby(engine_active, our_pid, lock, pid_alive, observed_start),
{
    should_hold_cloud_commands(engine_active, our_pid, lock, pid_alive, observed_start)
}

/// Quit before adopt: the donor will resume, so the reporter detaches instead
/// of announcing the Mac offline.
pub fn should_detach_cloud_on_quit(
    engine_active: bool,
    our_pid: u32,
    lock: Option<SessionLockRecord>,
    pid_alive: bool,
    observed_start: Option<u64>,
) -> (r: bool)
    ensures
        r == live_peer_owns_standby(engine_active, our_pid, lock, pid_alive, observed_start),
{
    should_defer_local_controls(engine_active, our_pid, lock, pid_alive, observed_start)
}

/// Remember a stop request made while a live donor still owns standby.
pub fn note_deferred_escape(deferred: bool, pending_stop: &mut bool)
    ensures
        *final(pending_stop) == (*old(pending_stop) || deferred),
{
    if deferred {
        *pending_stop = true;
    }
}

/// After a successful adopt, apply the remembered stop (once).
pub fn take_pending_stop_on_adopt(adopted: bool, pending_stop: &mut bool) -> (r: bool)
    ensures
        r == (*old(pending_stop) && adopted),
        *final(pending_stop) == (*old(pending_stop) && !r),
{
    take_pending_stop_after_handoff(adopted, false, pending_stop)
}

/// After the handoff drain, apply the remembered stop (once) when the adopt
/// succeeded or the donor was told to stop.
pub fn take_pending_stop_after_handoff(adopted: bool, stop_donor: bool, pending_stop: &mut bool) -> (r: bool)
    ensures
        r == (*old(pending_stop) && (adopted || stop_donor)),
        *final(pending_stop) == (*old(pending_stop) && !r),
{
    let apply = *pending_stop && (adopted || stop_donor);
    if apply {
        *pending_stop = false;
    }
    apply
}

/// `off` while idle behind a live donor is the same escape as the stop hotkey.
pub fn should_record_deferred_off(engine_active: bool, deferred: bool) -> (r: bool)
    ensures
        r == (!engine_active && deferred),
{
    !engine_active && deferred
}

/// A remembered stop must still stop the donor when this process cannot adopt.
pub fn should_stop_donor_on_failed_handoff(handoff: bool, adopted: bool, pending_stop: bool) -> (r: bool)
    ensures
        r == (handoff && !adopted && pending_stop),
{
    handoff && !adopted && pending_stop
}

/// Only one foreground process may poll commands for the persisted identity.
pub fn should_claim_reporter_lock(our_pid: u32, lock_pid: Option<u32>, lock_holder_alive: bool) -> (r: bool)
    ensures
        r == match lock_pid {
            None => true,
            Some(pid) => pid == our_pid || !lock_holder_alive,
        },
{
    match lock_pid {
        None => true,
        Some(pid) => pid == our_pid || !lock_holder_alive,
    }
}

/// Cloud polling for a foreground session when no menu owns IPC.
pub fn should_claim_foreground_reporter_lock(cloud_ok: bool, menu_socket_absent: bool) -> (r: bool)
    ensures
        r == (cloud_ok && menu_socket_absent),
{
    cloud_ok && menu_socket_absent
}

/// Do not start a second local session when this process cannot own the reporter.
pub fn should_abort_foreground_without_reporter_lock(needs_reporter: bool, claimed: bool) -> (r: bool)
    ensures
        r == (needs_reporter && !claimed),
{
    needs_reporter && !claimed
}

} // verus!
