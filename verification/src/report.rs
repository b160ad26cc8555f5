//! What the command line prints for the menu's answer.

use vstd::prelude::*;
use crate::i18n::{
    failed_text, lid_closed_text, lid_open_text, pick_text, power_ac_text, power_battery_text,
    Lang, Tr,
};
use crate::engine::{stop_from_code, stop_label, StopReason};
use crate::protocol::IpcResponse;
use crate::text::dec;

verus! {

/// Output of a command: lines for standard output, an error line for
/// standard error, and whether the command failed.
#[derive(Debug, Clone, PartialEq, Eq)]
pub struct CliReport {
    pub out: Vec<String>,
    pub err: Option<String>,
    pub failed: bool,
}

/// The one-line summary of a running session.
pub open spec fn status_line_text(
    lang: Lang,
    display: Seq<char>,
    lid_closed: bool,
    on_ac: bool,
    battery: Option<u8>,
) -> Seq<char> {
    pick_text(lang, "Standby · display "@, "待命中 · 屏幕 "@) + display + " · "@ + (if lid_closed {
        lid_closed_text(lang)
    } else {
        lid_open_text(lang)
    }) + " · "@ + (if on_ac {
        power_ac_text(lang)
    } else {
        power_battery_text(lang)
    }) + match battery {
        Some(b) => pick_text(lang, " · battery "@, " · 电量 "@) + dec(b as nat) + "%"@,
        None => Seq::<char>::empty(),
    }
}

/// What a successful answer prints: the summary line of a running session,
/// or "not in standby" and the last stop reason, if one is known: told in
/// `lang` when its code is known, otherwise as the menu wrote it.
pub open spec fn status_lines(resp: IpcResponse, lang: Lang) -> Seq<Seq<char>> {
    match resp.status {
        Some(st) => if st.active {
            seq![status_line_text(lang, st.display@, st.lid@ == "closed"@, st.on_ac, st.battery)]
        } else {
            seq![pick_text(lang, "Not in standby."@, "未待命。"@)] + match match st.stop_reason_code {
                Some(c) => stop_from_code(c@),
                None => None,
            } {
                Some(reason) => seq![stop_label(lang, reason)],
                None => match st.stop_reason {
                    Some(r) => seq![r@],
                    None => Seq::<Seq<char>>::empty(),
                },
            }
        },
        None => Seq::empty(),
    }
}

/// The lines of a list of strings.
pub open spec fn lines_view(v: Seq<String>) -> Seq<Seq<char>> {
    v.map_values(|s: String| s@)
}

/// The text form of the menu's answer: a failure prints its error (or
/// "failed") to standard error and fails the command; a success prints
/// `status_lines`.
pub fn status_report(resp: &IpcResponse, lang: Lang) -> (r: CliReport)
    ensures
        r.failed == !resp.ok,
        !resp.ok ==> r.out@.len() == 0 && (r.err matches Some(e) && e@ == match resp.error {
            Some(m) => m@,
            None => failed_text(lang),
        }),
        resp.ok ==> r.err is None && lines_view(r.out@) == status_lines(*resp, lang),
{
    let t = Tr::new(lang);
    if !resp.ok {
        let msg = match &resp.error {
            Some(m) => m.clone(),
            None => String::from_str(t.failed()),
        };
        return CliReport { out: Vec::new(), err: Some(msg), failed: true };
    }
    let mut out: Vec<String> = Vec::new();
    match &resp.status {
        Some(st) => {
            if st.active {
                let closed = crate::text::chars_eq(&crate::text::chars_of(st.lid.as_str()), "closed");
                let lid = if closed {
                    t.lid_closed()
                } else {
                    t.lid_open()
                };
                let power = if st.on_ac {
                    t.power_ac()
                } else {
                    t.power_battery()
                };
                out.push(t.cli_status_line(st.display.as_str(), lid, power, st.battery));
            } else {
                out.push(String::from_str(t.not_in_standby()));
                let known = match &st.stop_reason_code {
                    Some(code) => StopReason::from_code(code.as_str()),
                    None => None,
                };
                match known {
                    Some(reason) => out.push(String::from_str(reason.label(lang))),
                    None => match &st.stop_reason {
                        Some(reason) => out.push(reason.clone()),
                        None => {},
                    },
                }
            }
        },
        None => {},
    }
    assert(lines_view(out@) =~= status_lines(*resp, lang));
    CliReport { out, err: None, failed: false }
}

} // verus!
