//! The phone board's side of a session: when to (re)pair, which remote
//! commands are new, and the Mac's display name.

use vstd::prelude::*;
use crate::text::{chars_eq, chars_of, string_of, trim_bounds, trim_seq};

verus! {

/// A command queued on the phone board for this Mac.
#[derive(Debug, Clone, PartialEq, Eq)]
pub struct RemoteCommand {
    /// Unique per command; acknowledged once applied.
    pub id: String,
    /// `on` or `off`.
    pub cmd: String,
    /// The duration of an `on`, in the command-line spelling.
    pub duration: Option<String>,
}

impl RemoteCommand {
    /// An `on` command.
    pub fn on(id: &str, duration: Option<String>) -> (r: Self)
        ensures
            r.id@ == id@,
            r.cmd@ == "on"@,
            r.duration == duration,
    {
        RemoteCommand { id: String::from_str(id), cmd: String::from_str("on"), duration }
    }

    /// An `off` command.
    pub fn off(id: &str) -> (r: Self)
        ensures
            r.id@ == id@,
            r.cmd@ == "off"@,
            r.duration is None,
    {
        RemoteCommand { id: String::from_str(id), cmd: String::from_str("off"), duration: None }
    }
}

/// What the reporter thread hands to the process that owns the engine.
#[derive(Debug, Clone, PartialEq, Eq)]
pub enum CloudEvent {
    Pairing { code: String, url: String },
    PairingCleared,
    Commands(Vec<RemoteCommand>),
}

/// Whether this Mac is registered with the board: pairing starts again until
/// it succeeds, and again after an unauthorized heartbeat or an expired offer.
#[derive(Debug, Clone, PartialEq, Eq)]
pub struct ReporterGate {
    registered: bool,
}

impl View for ReporterGate {
    type V = bool;

    /// Whether the Mac is registered.
    closed spec fn view(&self) -> bool {
        self.registered
    }
}

impl Default for ReporterGate {
    fn default() -> (r: Self)
        ensures
            !r@,
    {
        ReporterGate { registered: false }
    }
}

impl ReporterGate {
    pub fn needs_pair_start(&self) -> (r: bool)
        ensures
            r == !self@,
    {
        !self.registered
    }

    pub fn on_pair_start_ok(&mut self)
        ensures
            final(self)@,
    {
        self.registered = true;
    }

    pub fn on_unauthorized(&mut self)
        ensures
            !final(self)@,
    {
        self.registered = false;
    }

    pub fn on_pairing_cleared(&mut self)
        ensures
            !final(self)@,
    {
        self.registered = false;
    }
}

/// The ids of a list of commands.
pub open spec fn command_ids(cmds: Seq<RemoteCommand>) -> Seq<Seq<char>> {
    cmds.map_values(|c: RemoteCommand| c.id@)
}

/// `seen` after taking in `ids` in order: each id not yet present is appended.
pub open spec fn with_new_ids(seen: Seq<Seq<char>>, ids: Seq<Seq<char>>) -> Seq<Seq<char>>
    decreases ids.len(),
{
    if ids.len() == 0 {
        seen
    } else {
        let s = with_new_ids(seen, ids.drop_last());
        if s.contains(ids.last()) {
            s
        } else {
            s.push(ids.last())
        }
    }
}

/// The ids of `seen` that `pending` still lists, in their order.
pub open spec fn still_listed(seen: Seq<Seq<char>>, pending: Seq<Seq<char>>) -> Seq<Seq<char>>
    decreases seen.len(),
{
    if seen.len() == 0 {
        seen
    } else {
        let s = still_listed(seen.drop_last(), pending);
        if pending.contains(seen.last()) {
            s.push(seen.last())
        } else {
            s
        }
    }
}

/// No id occurs twice.
pub open spec fn distinct_ids(s: Seq<Seq<char>>) -> bool {
    forall|i: int, j: int| 0 <= i < j < s.len() ==> s[i] != s[j]
}

/// Remote commands seen so far, by id, so each is applied once and
/// acknowledged on the next heartbeat.
#[derive(Debug)]
pub struct CommandInbox {
    seen: Vec<String>,
}

impl CommandInbox {
    /// The ids delivered and not yet dropped, in delivery order.
    pub closed spec fn ids(&self) -> Seq<Seq<char>> {
        self.seen@.map_values(|s: String| s@)
    }

    /// The inbox's invariant: no id is recorded twice.
    pub closed spec fn wf(&self) -> bool {
        distinct_ids(self.ids())
    }
}

impl Default for CommandInbox {
    fn default() -> (r: Self)
        ensures
            r.wf(),
            r.ids() == Seq::<Seq<char>>::empty(),
    {
        let r = CommandInbox { seen: Vec::new() };
        assert(r.ids() =~= Seq::<Seq<char>>::empty());
        r
    }
}

/// A field-by-field copy of a command.
fn copy_command(c: &RemoteCommand) -> (r: RemoteCommand)
    ensures
        r == *c,
{
    RemoteCommand {
        id: c.id.clone(),
        cmd: c.cmd.clone(),
        duration: match &c.duration {
            Some(d) => Some(d.clone()),
            None => None,
        },
    }
}

/// Whether `id` is one of the strings of `v`.
fn holds_id(v: &Vec<String>, id: &String) -> (r: bool)
    ensures
        r == v@.map_values(|s: String| s@).contains(id@),
{
    let mut i: usize = 0;
    while i < v.len()
        invariant
            i <= v@.len(),
            forall|k: int| 0 <= k < i ==> v@[k]@ != id@,
        decreases v@.len() - i,
    {
        if v[i] == *id {
            assert(v@.map_values(|s: String| s@)[i as int] == id@);
            return true;
        }
        i += 1;
    }
    proof {
        let m = v@.map_values(|s: String| s@);
        if m.contains(id@) {
            let k = choose|k: int| 0 <= k < m.len() && m[k] == id@;
            assert(v@[k]@ != id@);
        }
    }
    false
}

/// Whether some command of `pending` has the id `id`.
fn lists_id(pending: &[RemoteCommand], id: &String) -> (r: bool)
    ensures
        r == command_ids(pending@).contains(id@),
{
    let mut i: usize = 0;
    while i < pending.len()
        invariant
            i <= pending@.len(),
            forall|k: int| 0 <= k < i ==> pending@[k].id@ != id@,
        decreases pending@.len() - i,
    {
        if pending[i].id == *id {
            assert(command_ids(pending@)[i as int] == id@);
            return true;
        }
        i += 1;
    }
    proof {
        let m = command_ids(pending@);
        if m.contains(id@) {
            let k = choose|k: int| 0 <= k < m.len() && m[k] == id@;
            assert(pending@[k].id@ != id@);
        }
    }
    false
}

/// `still_listed` keeps a subset of `seen`, and keeps it free of repeats.
proof fn lemma_still_listed(seen: Seq<Seq<char>>, pending: Seq<Seq<char>>)
    ensures
        forall|x: Seq<char>| still_listed(seen, pending).contains(x) ==> seen.contains(x),
        distinct_ids(seen) ==> distinct_ids(still_listed(seen, pending)),
    decreases seen.len(),
{
    if seen.len() > 0 {
        let rest = seen.drop_last();
        lemma_still_listed(rest, pending);
        let s = still_listed(rest, pending);
        assert forall|x: Seq<char>| still_listed(seen, pending).contains(x) implies seen.contains(x) by {
            if s.contains(x) {
                assert(rest.contains(x));
                let k = choose|k: int| 0 <= k < rest.len() && rest[k] == x;
                assert(seen[k] == x);
            } else {
                assert(x == seen.last());
                assert(seen[seen.len() - 1] == x);
            }
        }
        if distinct_ids(seen) {
            assert(distinct_ids(rest));
            if pending.contains(seen.last()) {
                assert(!s.contains(seen.last())) by {
                    if s.contains(seen.last()) {
                        assert(rest.contains(seen.last()));
                        let k = choose|k: int| 0 <= k < rest.len() && rest[k] == seen.last();
                        assert(seen[k] == seen[seen.len() - 1]);
                    }
                }
                let t = s.push(seen.last());
                assert forall|i: int, j: int| 0 <= i < j < t.len() implies t[i] != t[j] by {
                    if j == t.len() - 1 {
                        assert(t[i] == s[i]);
                    }
                }
            }
        }
    }
}

impl CommandInbox {
    /// The commands of `commands` whose ids were not seen before (the first
    /// of each id), in order; their ids join the ones to acknowledge.
    pub fn take_new(&mut self, commands: Vec<RemoteCommand>) -> (out: Vec<RemoteCommand>)
        requires
            old(self).wf(),
        ensures
            final(self).wf(),
            final(self).ids() == with_new_ids(old(self).ids(), command_ids(commands@)),
            command_ids(out@) == final(self).ids().skip(old(self).ids().len() as int),
            forall|k: int|
                0 <= k < out@.len() ==> exists|j: int|
                    0 <= j < commands@.len() && #[trigger] out@[k] == commands@[j] && !old(
                        self,
                    ).ids().contains(commands@[j].id@) && forall|i: int|
                        0 <= i < j ==> commands@[i].id@ != commands@[j].id@,
    {
        let ghost seen0 = self.ids();
        let ghost ids = command_ids(commands@);
        let mut out: Vec<RemoteCommand> = Vec::new();
        let mut i: usize = 0;
        assert(ids.take(0) =~= Seq::<Seq<char>>::empty());
        assert(seen0.take(seen0.len() as int) =~= seen0);
        assert(command_ids(out@) =~= seen0.skip(seen0.len() as int));
        while i < commands.len()
            invariant
                self.wf(),
                ids == command_ids(commands@),
                i <= commands@.len(),
                self.ids() == with_new_ids(seen0, ids.take(i as int)),
                seen0.len() <= self.ids().len(),
                self.ids().take(seen0.len() as int) == seen0,
                command_ids(out@) == self.ids().skip(seen0.len() as int),
                forall|k: int|
                    0 <= k < out@.len() ==> exists|j: int|
                        0 <= j < i && #[trigger] out@[k] == commands@[j] && !seen0.contains(
                            commands@[j].id@,
                        ) && forall|t: int| 0 <= t < j ==> commands@[t].id@ != commands@[j].id@,
                forall|t: int| 0 <= t < i ==> self.ids().contains(#[trigger] commands@[t].id@),
            decreases commands@.len() - i,
        {
            let ghost before = self.ids();
            let ghost out0 = out@;
            let known = holds_id(&self.seen, &commands[i].id);
            assert(ids.take(i + 1).drop_last() =~= ids.take(i as int));
            assert(ids.take(i + 1).last() == commands@[i as int].id@);
            if !known {
                let id = commands[i].id.clone();
                self.seen.push(id);
                assert(self.ids() =~= before.push(commands@[i as int].id@));
                out.push(copy_command(&commands[i]));
                assert(self.ids().take(seen0.len() as int) =~= seen0);
                assert(out@ == out0.push(commands@[i as int]));
                assert(command_ids(out@) =~= command_ids(out0).push(commands@[i as int].id@));
                assert(self.ids().skip(seen0.len() as int) =~= before.skip(seen0.len() as int).push(
                    commands@[i as int].id@,
                ));
                assert(command_ids(out@) =~= self.ids().skip(seen0.len() as int));
                assert(!seen0.contains(commands@[i as int].id@)) by {
                    if seen0.contains(commands@[i as int].id@) {
                        let k = choose|k: int| 0 <= k < seen0.len() && seen0[k] == commands@[i as int].id@;
                        assert(before[k] == seen0[k]);
                    }
                }
                assert forall|a: int, b: int| 0 <= a < b < self.ids().len() implies self.ids()[a]
                    != self.ids()[b] by {
                    if b == self.ids().len() - 1 {
                        assert(self.ids()[a] == before[a]);
                    }
                }
                assert forall|k: int| 0 <= k < out@.len() implies exists|j: int|
                    0 <= j < i + 1 && #[trigger] out@[k] == commands@[j] && !seen0.contains(
                        commands@[j].id@,
                    ) && forall|t: int| 0 <= t < j ==> commands@[t].id@ != commands@[j].id@ by {
                    if k < out0.len() {
                        assert(out@[k] == out0[k]);
                    } else {
                        assert(out@[k] == commands@[i as int]);
                        assert forall|t: int| 0 <= t < i implies commands@[t].id@ != commands@[i as int].id@ by {
                            assert(before.contains(commands@[t].id@));
                        }
                    }
                }
                assert forall|t: int| 0 <= t < i + 1 implies self.ids().contains(#[trigger] commands@[t].id@) by {
                    if t < i {
                        assert(before.contains(commands@[t].id@));
                        let k = choose|k: int| 0 <= k < before.len() && before[k] == commands@[t].id@;
                        assert(self.ids()[k] == before[k]);
                    } else {
                        assert(self.ids()[self.ids().len() - 1] == commands@[t].id@);
                    }
                }
            }
            i += 1;
        }
        assert(ids.take(commands@.len() as int) =~= ids);
        out
    }

    /// Keep only the ids the board still lists. Called after a successful
    /// heartbeat, so acknowledged commands leave the inbox; ids still pending
    /// are never dropped.
    pub fn retain_pending(&mut self, pending: &[RemoteCommand])
        requires
            old(self).wf(),
        ensures
            final(self).wf(),
            final(self).ids() == still_listed(old(self).ids(), command_ids(pending@)),
    {
        let ghost seen0 = self.ids();
        let ghost pids = command_ids(pending@);
        let mut kept: Vec<String> = Vec::new();
        let mut i: usize = 0;
        assert(seen0.take(0) =~= Seq::<Seq<char>>::empty());
        assert(kept@.map_values(|s: String| s@) =~= Seq::<Seq<char>>::empty());
        while i < self.seen.len()
            invariant
                seen0 == self.ids(),
                pids == command_ids(pending@),
                i <= self.seen@.len(),
                kept@.map_values(|s: String| s@) == still_listed(seen0.take(i as int), pids),
            decreases self.seen@.len() - i,
        {
            let ghost k0 = kept@.map_values(|s: String| s@);
            let listed = lists_id(pending, &self.seen[i]);
            assert(seen0.take(i + 1).drop_last() =~= seen0.take(i as int));
            assert(seen0.take(i + 1).last() == self.seen@[i as int]@);
            if listed {
                let id = self.seen[i].clone();
                kept.push(id);
                assert(kept@.map_values(|s: String| s@) =~= k0.push(seen0[i as int]));
            }
            i += 1;
        }
        assert(seen0.take(self.seen@.len() as int) =~= seen0);
        proof {
            lemma_still_listed(seen0, pids);
        }
        self.seen = kept;
    }

    /// The ids to acknowledge on the next heartbeat.
    pub fn ack_ids(&self) -> (r: &[String])
        ensures
            r@.map_values(|s: String| s@) == self.ids(),
    {
        self.seen.as_slice()
    }
}

/// An element-by-element copy of a list of commands.
fn copy_commands(v: &Vec<RemoteCommand>) -> (r: Vec<RemoteCommand>)
    ensures
        r@ == v@,
{
    let mut r: Vec<RemoteCommand> = Vec::new();
    let mut i: usize = 0;
    while i < v.len()
        invariant
            i <= v@.len(),
            r@ == v@.take(i as int),
        decreases v@.len() - i,
    {
        r.push(copy_command(&v[i]));
        i += 1;
        assert(r@ =~= v@.take(i as int));
    }
    assert(v@.take(v@.len() as int) =~= v@);
    r
}

/// Taking in ids never shortens what was seen.
proof fn lemma_with_new_ids_grows(seen: Seq<Seq<char>>, ids: Seq<Seq<char>>)
    ensures
        with_new_ids(seen, ids).len() >= seen.len(),
    decreases ids.len(),
{
    if ids.len() > 0 {
        lemma_with_new_ids_grows(seen, ids.drop_last());
    }
}

/// What handling the heartbeat answer `outcome` does, from a gate that was
/// `g0` and an inbox that held `ids0` to a gate `g1`, an inbox `ids1` and the
/// events `events`: a withdrawn pairing offer makes the Mac pair again and is
/// reported, a present one is passed on; the new commands are passed on (when
/// there are any), and the inbox keeps only the ids the board still lists.
pub open spec fn heartbeat_handled(
    g0: bool,
    ids0: Seq<Seq<char>>,
    outcome: HeartbeatOutcome,
    g1: bool,
    ids1: Seq<Seq<char>>,
    events: Seq<CloudEvent>,
) -> bool {
    let listed = command_ids(outcome.commands@);
    let grown = with_new_ids(ids0, listed);
    &&& ids1 == still_listed(grown, listed)
    &&& (outcome.pairing_code is Some && outcome.pairing_url is Some) ==> g1 == g0 && events.len() >= 1
        && events[0] == (CloudEvent::Pairing {
        code: outcome.pairing_code.unwrap(),
        url: outcome.pairing_url.unwrap(),
    })
    &&& !(outcome.pairing_code is Some && outcome.pairing_url is Some) ==> !g1 && events.len() >= 1
        && events[0] == CloudEvent::PairingCleared
    &&& events.len() == (if grown.len() > ids0.len() {
        2int
    } else {
        1int
    })
    &&& events.len() == 2 ==> (events[1] matches CloudEvent::Commands(cmds) && command_ids(cmds@)
        == grown.skip(ids0.len() as int) && forall|k: int|
        0 <= k < cmds@.len() ==> exists|j: int|
            0 <= j < outcome.commands@.len() && #[trigger] cmds@[k] == outcome.commands@[j]
                && !ids0.contains(outcome.commands@[j].id@) && forall|i: int|
                0 <= i < j ==> outcome.commands@[i].id@ != outcome.commands@[j].id@)
}

/// Handles a heartbeat answer (see `heartbeat_handled`).
pub fn emit_outcome(gate: &mut ReporterGate, inbox: &mut CommandInbox, outcome: HeartbeatOutcome) -> (events: Vec<CloudEvent>)
    requires
        old(inbox).wf(),
    ensures
        final(inbox).wf(),
        heartbeat_handled(old(gate)@, old(inbox).ids(), outcome, final(gate)@, final(inbox).ids(), events@),
{
    let ghost seen0 = inbox.ids();
    let mut events: Vec<CloudEvent> = Vec::new();
    let cleared = outcome.pairing_cleared();
    if cleared {
        gate.on_pairing_cleared();
        events.push(CloudEvent::PairingCleared);
    } else {
        match (&outcome.pairing_code, &outcome.pairing_url) {
            (Some(code), Some(url)) => {
                events.push(CloudEvent::Pairing { code: code.clone(), url: url.clone() });
            },
            _ => {},
        }
    }
    let pending = outcome.commands;
    let fresh = inbox.take_new(copy_commands(&pending));
    let ghost after_take = inbox.ids();
    proof {
        lemma_with_new_ids_grows(seen0, command_ids(pending@));
        assert(command_ids(fresh@).len() == fresh@.len());
        assert(fresh@.len() == after_take.len() - seen0.len());
    }
    inbox.retain_pending(pending.as_slice());
    if fresh.len() > 0 {
        events.push(CloudEvent::Commands(fresh));
    }
    events
}

/// The name the board shows for this Mac: a non-blank configured name
/// (trimmed), else the host name, else `Mac`.
pub open spec fn display_name_of(configured: Option<Seq<char>>, hostname: Option<Seq<char>>) -> Seq<char> {
    match configured {
        Some(n) if trim_seq(n).len() > 0 => trim_seq(n),
        _ => match hostname {
            Some(h) => h,
            None => "Mac"@,
        },
    }
}

/// Picks the display name from the configured value (if any) and the host name.
pub fn display_name_from(configured: Option<&str>, hostname: Option<String>) -> (r: String)
    ensures
        r@ == display_name_of(
            match configured {
                Some(n) => Some(n@),
                None => None,
            },
            match hostname {
                Some(h) => Some(h@),
                None => None,
            },
        ),
{
    match configured {
        Some(n) => {
            let v = chars_of(n);
            let (a, b) = trim_bounds(&v, 0, v.len());
            assert(v@.subrange(0, v@.len() as int) =~= v@);
            if a < b {
                return string_of(&v, a, b);
            }
        },
        None => {},
    }
    match hostname {
        Some(h) => h,
        None => String::from_str("Mac"),
    }
}

/// Taking in `ids` keeps what was seen and adds every id of `ids`.
proof fn lemma_with_new_ids_holds(seen: Seq<Seq<char>>, ids: Seq<Seq<char>>)
    ensures
        forall|t: int| 0 <= t < ids.len() ==> with_new_ids(seen, ids).contains(#[trigger] ids[t]),
        forall|x: Seq<char>| seen.contains(x) ==> with_new_ids(seen, ids).contains(x),
    decreases ids.len(),
{
    if ids.len() > 0 {
        let rest = ids.drop_last();
        lemma_with_new_ids_holds(seen, rest);
        let s = with_new_ids(seen, rest);
        let r = with_new_ids(seen, ids);
        assert forall|x: Seq<char>| s.contains(x) implies r.contains(x) by {
            let k = choose|k: int| 0 <= k < s.len() && s[k] == x;
            if !s.contains(ids.last()) {
                assert(r[k] == s[k]);
            }
        }
        assert forall|t: int| 0 <= t < ids.len() implies r.contains(#[trigger] ids[t]) by {
            if t < ids.len() - 1 {
                assert(rest[t] == ids[t]);
                assert(s.contains(rest[t]));
            } else if !s.contains(ids.last()) {
                assert(r[r.len() - 1] == ids[t]);
            }
        }
    }
}

/// Ids that are all present already change nothing.
proof fn lemma_known_ids_change_nothing(s: Seq<Seq<char>>, ids: Seq<Seq<char>>)
    requires
        forall|t: int| 0 <= t < ids.len() ==> s.contains(#[trigger] ids[t]),
    ensures
        with_new_ids(s, ids) == s,
    decreases ids.len(),
{
    if ids.len() > 0 {
        let rest = ids.drop_last();
        assert forall|t: int| 0 <= t < rest.len() implies s.contains(#[trigger] rest[t]) by {
            assert(rest[t] == ids[t]);
        }
        lemma_known_ids_change_nothing(s, rest);
        assert(s.contains(ids[ids.len() - 1]));
    }
}

/// Remote commands are applied once: delivering the same batch again adds no
/// id and yields no command.
pub proof fn law_inbox_takes_each_id_once(seen: Seq<Seq<char>>, ids: Seq<Seq<char>>)
    ensures
        with_new_ids(with_new_ids(seen, ids), ids) == with_new_ids(seen, ids),
        with_new_ids(with_new_ids(seen, ids), ids).skip(with_new_ids(seen, ids).len() as int)
            == Seq::<Seq<char>>::empty(),
{
    lemma_with_new_ids_holds(seen, ids);
    lemma_known_ids_change_nothing(with_new_ids(seen, ids), ids);
    let s = with_new_ids(seen, ids);
    assert(s.skip(s.len() as int) =~= Seq::<Seq<char>>::empty());
}

/// Acknowledged ids leave the inbox, but an id the board still lists stays.
pub proof fn law_retain_keeps_pending(seen: Seq<Seq<char>>, pending: Seq<Seq<char>>, x: Seq<char>)
    ensures
        still_listed(seen, pending).contains(x) <==> (seen.contains(x) && pending.contains(x)),
    decreases seen.len(),
{
    if seen.len() > 0 {
        let rest = seen.drop_last();
        law_retain_keeps_pending(rest, pending, x);
        let s = still_listed(rest, pending);
        let r = still_listed(seen, pending);
        if r.contains(x) {
            if s.contains(x) && pending.contains(seen.last()) {
                assert(s.contains(x));
            }
            if s.contains(x) {
                let k = choose|k: int| 0 <= k < rest.len() && rest[k] == x;
                assert(seen[k] == x);
            } else {
                assert(x == seen.last());
                assert(seen[seen.len() - 1] == x);
            }
        }
        if seen.contains(x) && pending.contains(x) {
            let k = choose|k: int| 0 <= k < seen.len() && seen[k] == x;
            if k < seen.len() - 1 {
                assert(rest[k] == x);
                let j = choose|j: int| 0 <= j < s.len() && s[j] == x;
                if pending.contains(seen.last()) {
                    assert(r[j] == s[j]);
                }
            } else {
                assert(r[r.len() - 1] == x);
            }
        }
    }
}

/// Every byte is ASCII.
pub open spec fn ascii_bytes(bytes: Seq<u8>) -> bool {
    forall|i: int| 0 <= i < bytes.len() ==> bytes[i] < 128
}

/// ASCII bytes read as characters.
pub open spec fn ascii_chars(bytes: Seq<u8>) -> Seq<char> {
    Seq::new(bytes.len(), |i: int| bytes[i] as char)
}

/// What `std::str::from_utf8` decodes `bytes` to; `None` when they are not UTF-8.
pub uninterp spec fn utf8_text(bytes: Seq<u8>) -> Option<Seq<char>>;

/// `std::str::from_utf8(bytes).ok()`. Claimed: the result is `utf8_text` of the
/// bytes, and bytes that are all ASCII decode to those same characters.
#[verifier::external_body]
fn decode_utf8(bytes: &[u8]) -> (r: Option<&str>)
    ensures
        (r is Some) == (utf8_text(bytes@) is Some),
        r matches Some(s) ==> utf8_text(bytes@) == Some(s@),
        r is Some || !ascii_bytes(bytes@),
        r matches Some(s) ==> (ascii_bytes(bytes@) ==> s@ == ascii_chars(bytes@)),
{
    std::str::from_utf8(bytes).ok()
}

/// Index of the first NUL byte, or the length.
pub open spec fn nul_index(buf: Seq<u8>) -> int
    decreases buf.len(),
{
    if buf.len() == 0 {
        0
    } else if buf[0] == 0 {
        0
    } else {
        1 + nul_index(buf.drop_first())
    }
}

/// The host name a decoded C string names: the text trimmed, none when blank
/// or when the bytes were not UTF-8.
pub open spec fn hostname_of(decoded: Option<Seq<char>>) -> Option<Seq<char>> {
    match decoded {
        Some(s) => if trim_seq(s).len() > 0 {
            Some(trim_seq(s))
        } else {
            None
        },
        None => None,
    }
}

/// The host name in decoded text (see `hostname_of`).
pub fn hostname_from_text(decoded: Option<&str>) -> (r: Option<String>)
    ensures
        match r {
            Some(h) => hostname_of(match decoded {
                Some(s) => Some(s@),
                None => None,
            }) == Some(h@),
            None => hostname_of(match decoded {
                Some(s) => Some(s@),
                None => None,
            }) is None,
        },
{
    match decoded {
        None => None,
        Some(s) => {
            let v = chars_of(s);
            let (a, b) = trim_bounds(&v, 0, v.len());
            assert(v@.subrange(0, v@.len() as int) =~= v@);
            if a == b {
                None
            } else {
                Some(string_of(&v, a, b))
            }
        },
    }
}

/// Reads a `gethostname` / C-string buffer: the bytes before the first NUL,
/// decoded as UTF-8 and trimmed; `None` when blank or not UTF-8.
pub fn hostname_from_c_buffer(buf: &[u8]) -> (r: Option<String>)
    ensures
        match r {
            Some(h) => hostname_of(utf8_text(buf@.take(nul_index(buf@)))) == Some(h@),
            None => hostname_of(utf8_text(buf@.take(nul_index(buf@)))) is None,
        },
{
    let mut nul: usize = 0;
    assert(buf@.skip(0) =~= buf@);
    while nul < buf.len() && buf[nul] != 0
        invariant
            nul <= buf@.len(),
            nul_index(buf@) == nul + nul_index(buf@.skip(nul as int)),
        decreases buf@.len() - nul,
    {
        assert(buf@.skip(nul as int).drop_first() =~= buf@.skip(nul + 1));
        nul += 1;
    }
    assert(nul_index(buf@.skip(nul as int)) == 0) by {
        if nul < buf@.len() {
            assert(buf@.skip(nul as int)[0] == buf@[nul as int]);
        }
    }
    let head = &buf[0..nul];
    assert(head@ =~= buf@.take(nul as int));
    hostname_from_text(decode_utf8(head))
}

/// What a heartbeat answer says: the current pairing offer, if any, and the
/// commands still pending.
#[derive(Debug, Clone)]
pub struct HeartbeatOutcome {
    pub pairing_code: Option<String>,
    pub pairing_url: Option<String>,
    pub commands: Vec<RemoteCommand>,
}

impl HeartbeatOutcome {
    /// Both a pairing code and its link are offered.
    pub fn pairing_present(&self) -> (r: bool)
        ensures
            r == (self.pairing_code is Some && self.pairing_url is Some),
    {
        self.pairing_code.is_some() && self.pairing_url.is_some()
    }

    /// The pairing offer is gone (or incomplete).
    pub fn pairing_cleared(&self) -> (r: bool)
        ensures
            r == !(self.pairing_code is Some && self.pairing_url is Some),
    {
        !self.pairing_present()
    }
}

/// The commands the Mac carries out from the board: `on` and `off`.
pub open spec fn allowed_cmd(cmd: Seq<char>) -> bool {
    cmd == "on"@ || cmd == "off"@
}

/// The allowed commands of `cmds`, in their order.
pub open spec fn allowed_commands(cmds: Seq<RemoteCommand>) -> Seq<RemoteCommand> {
    cmds.filter(|c: RemoteCommand| allowed_cmd(c.cmd@))
}

impl RemoteCommand {
    /// Whether `cmd` is one the Mac carries out.
    pub fn is_allowed_cmd(cmd: &str) -> (r: bool)
        ensures
            r == allowed_cmd(cmd@),
    {
        let v = chars_of(cmd);
        chars_eq(&v, "on") || chars_eq(&v, "off")
    }
}

/// What a decoded heartbeat answer comes to: rejected unless the board said
/// `ok`; otherwise the pairing offer as given and the allowed commands, in
/// order (anything else the board queued is dropped).
pub fn heartbeat_outcome(
    ok: bool,
    pairing_code: Option<String>,
    pairing_url: Option<String>,
    commands: Vec<RemoteCommand>,
) -> (r: Result<HeartbeatOutcome, String>)
    ensures
        r is Err <==> !ok,
        r matches Err(e) ==> e@ == "heartbeat rejected"@,
        r matches Ok(o) ==> o.pairing_code == pairing_code && o.pairing_url == pairing_url
            && o.commands@ == allowed_commands(commands@),
{
    if !ok {
        return Err(String::from_str("heartbeat rejected"));
    }
    let ghost f = |c: RemoteCommand| allowed_cmd(c.cmd@);
    let mut kept: Vec<RemoteCommand> = Vec::new();
    let mut i: usize = 0;
    proof {
        reveal(Seq::filter);
        assert(commands@.take(0) =~= Seq::<RemoteCommand>::empty());
    }
    while i < commands.len()
        invariant
            i <= commands@.len(),
            f == (|c: RemoteCommand| allowed_cmd(c.cmd@)),
            kept@ == commands@.take(i as int).filter(f),
        decreases commands@.len() - i,
    {
        proof {
            reveal(Seq::filter);
            assert(commands@.take(i + 1).drop_last() =~= commands@.take(i as int));
            assert(commands@.take(i + 1).last() == commands@[i as int]);
        }
        if RemoteCommand::is_allowed_cmd(commands[i].cmd.as_str()) {
            kept.push(copy_command(&commands[i]));
        }
        i += 1;
    }
    assert(commands@.take(commands@.len() as int) =~= commands@);
    Ok(HeartbeatOutcome { pairing_code, pairing_url, commands: kept })
}

/// The answer to a pair-start request, as the reporter reads it.
#[derive(Debug, Clone, PartialEq, Eq)]
pub enum PairStartReply {
    /// The board offered a pairing code and its link.
    Offered { code: String, url: String },
    /// The board answered without an offer, or the answer did not parse.
    Rejected,
    /// The board refused this Mac's credentials.
    Unauthorized,
    /// The request did not get through.
    Unreachable,
}

/// The answer to a heartbeat, as the reporter reads it.
#[derive(Debug, Clone)]
pub enum HeartbeatReply {
    /// An accepted answer (see `heartbeat_outcome`).
    Answered(HeartbeatOutcome),
    /// A refused answer, or one that did not parse.
    Rejected,
    /// The board refused this Mac's credentials.
    Unauthorized,
    /// The request did not get through.
    Unreachable,
}

/// One reporter tick starts with a pair-start request exactly when the Mac is
/// not registered.
pub fn should_pair_start(gate: &ReporterGate) -> (r: bool)
    ensures
        r == !gate@,
{
    gate.needs_pair_start()
}

/// Handles the answer to a pair-start request: an offer registers the Mac and
/// is passed on; refused credentials make it pair again; anything else changes
/// nothing.
pub fn on_pair_start_reply(gate: &mut ReporterGate, reply: PairStartReply) -> (events: Vec<CloudEvent>)
    ensures
        match reply {
            PairStartReply::Offered { code, url } => final(gate)@ && events@ == seq![
                CloudEvent::Pairing { code, url },
            ],
            PairStartReply::Unauthorized => !final(gate)@ && events@.len() == 0,
            _ => final(gate)@ == old(gate)@ && events@.len() == 0,
        },
{
    let mut events: Vec<CloudEvent> = Vec::new();
    match reply {
        PairStartReply::Offered { code, url } => {
            gate.on_pair_start_ok();
            events.push(CloudEvent::Pairing { code, url });
        },
        PairStartReply::Unauthorized => gate.on_unauthorized(),
        _ => {},
    }
    events
}

/// Handles the answer to a heartbeat: an accepted answer is handled as
/// `heartbeat_handled` says; refused credentials make the Mac pair again;
/// anything else changes nothing.
pub fn on_heartbeat_reply(gate: &mut ReporterGate, inbox: &mut CommandInbox, reply: HeartbeatReply) -> (events: Vec<
    CloudEvent,
>)
    requires
        old(inbox).wf(),
    ensures
        final(inbox).wf(),
        match reply {
            HeartbeatReply::Answered(o) => heartbeat_handled(
                old(gate)@,
                old(inbox).ids(),
                o,
                final(gate)@,
                final(inbox).ids(),
                events@,
            ),
            HeartbeatReply::Unauthorized => !final(gate)@ && final(inbox).ids() == old(inbox).ids()
                && events@.len() == 0,
            _ => final(gate)@ == old(gate)@ && final(inbox).ids() == old(inbox).ids() && events@.len()
                == 0,
        },
{
    match reply {
        HeartbeatReply::Answered(o) => emit_outcome(gate, inbox, o),
        HeartbeatReply::Unauthorized => {
            gate.on_unauthorized();
            Vec::new()
        },
        _ => Vec::new(),
    }
}

/// The pairing offer the owner of the engine shows after a reporter event: a
/// new offer replaces it, a withdrawn one clears it, commands leave it alone.
pub fn pairing_after(pairing: Option<(String, String)>, event: &CloudEvent) -> (r: Option<(String, String)>)
    ensures
        match *event {
            CloudEvent::Pairing { code, url } => r == Some((code, url)),
            CloudEvent::PairingCleared => r is None,
            CloudEvent::Commands(_) => r == pairing,
        },
{
    match event {
        CloudEvent::Pairing { code, url } => Some((code.clone(), url.clone())),
        CloudEvent::PairingCleared => None,
        CloudEvent::Commands(_) => pairing,
    }
}

} // verus!
