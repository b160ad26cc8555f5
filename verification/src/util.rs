//! Text checks around the login item and the app bundle.

use vstd::prelude::*;
use crate::text::{chars_of, push_char, range_eq};

verus! {

/// The XML spelling of one character.
pub open spec fn xml_char(c: char) -> Seq<char> {
    if c == '&' {
        "&amp;"@
    } else if c == '<' {
        "&lt;"@
    } else if c == '>' {
        "&gt;"@
    } else if c == '"' {
        "&quot;"@
    } else if c == '\'' {
        "&apos;"@
    } else {
        seq![c]
    }
}

/// `s` with each XML metacharacter replaced by its entity.
pub open spec fn xml_escaped(s: Seq<char>) -> Seq<char>
    decreases s.len(),
{
    if s.len() == 0 {
        Seq::empty()
    } else {
        xml_escaped(s.drop_last()) + xml_char(s.last())
    }
}

/// Escapes `& < > " '` for an XML text or attribute value.
pub fn xml_escape(s: &str) -> (r: String)
    ensures
        r@ == xml_escaped(s@),
{
    let v = chars_of(s);
    let mut out = String::new();
    let mut i: usize = 0;
    while i < v.len()
        invariant
            v@ == s@,
            i <= v@.len(),
            out@ == xml_escaped(v@.take(i as int)),
        decreases v@.len() - i,
    {
        let c = v[i];
        assert(v@.take(i + 1).drop_last() =~= v@.take(i as int));
        if c == '&' {
            out.append("&amp;");
        } else if c == '<' {
            out.append("&lt;");
        } else if c == '>' {
            out.append("&gt;");
        } else if c == '"' {
            out.append("&quot;");
        } else if c == '\'' {
            out.append("&apos;");
        } else {
            push_char(&mut out, c);
        }
        i += 1;
    }
    assert(v@.take(v@.len() as int) =~= v@);
    out
}

/// `needle` occurs in `hay` (`str::contains`).
pub open spec fn contains_seq(hay: Seq<char>, needle: Seq<char>) -> bool {
    exists|i: int| 0 <= i && i + needle.len() <= hay.len() && #[trigger] hay.subrange(i, i + needle.len()) == needle
}

/// Whether `needle` occurs in the characters `v`.
pub fn chars_contain(v: &Vec<char>, needle: &str) -> (r: bool)
    ensures
        r == contains_seq(v@, needle@),
{
    let n = needle.unicode_len();
    if n > v.len() {
        return false;
    }
    if n == 0 {
        assert(v@.subrange(0, 0int + needle@.len()) =~= needle@);
        return true;
    }
    let mut i: usize = 0;
    let last = v.len() - n;
    while i <= last
        invariant
            n == needle@.len(),
            0 < n <= v@.len() <= usize::MAX,
            last == v@.len() - n,
            i <= last + 1,
            forall|j: int| 0 <= j < i ==> #[trigger] v@.subrange(j, j + n) != needle@,
        decreases last + 1 - i,
    {
        if range_eq(v, i, i + n, needle) {
            return true;
        }
        i += 1;
    }
    assert forall|j: int| 0 <= j && j + needle@.len() <= v@.len() implies #[trigger] v@.subrange(
        j,
        j + needle@.len(),
    ) != needle@ by {
        assert(j < i);
    }
    false
}

/// A login item is stale when it still points at the bundle's old Chinese
/// name, or does not mention the running app at all.
pub fn launch_agent_is_stale(plist: &str, current_target: &str) -> (r: bool)
    ensures
        r == (contains_seq(plist@, "熄屏待命.app"@) || !contains_seq(plist@, current_target@)),
{
    let v = chars_of(plist);
    chars_contain(&v, "熄屏待命.app") || !chars_contain(&v, current_target)
}

/// Some component of the path `exe` ends with `.app`.
pub open spec fn in_app_bundle(exe: Seq<char>) -> bool {
    exists|i: int|
        0 <= i && i + 4 <= exe.len() && #[trigger] exe.subrange(i, i + 4) == ".app"@ && (i + 4
            == exe.len() || exe[i + 4] == '/')
}

/// Whether the executable path lies inside an `.app` bundle.
pub fn is_inside_app_bundle(exe: &str) -> (r: bool)
    ensures
        r == in_app_bundle(exe@),
{
    let v = chars_of(exe);
    let n = v.len();
    if n < 4 {
        return false;
    }
    let mut i: usize = 0;
    let last = n - 4;
    while i <= last
        invariant
            n == v@.len(),
            v@ == exe@,
            4 <= n,
            last == n - 4,
            i <= last + 1,
            forall|j: int|
                0 <= j < i ==> !(#[trigger] v@.subrange(j, j + 4) == ".app"@ && (j + 4 == n || v@[j
                    + 4] == '/')),
        decreases last + 1 - i,
    {
        if range_eq(&v, i, i + 4, ".app") && (i + 4 == n || v[i + 4] == '/') {
            return true;
        }
        i += 1;
    }
    assert forall|j: int| 0 <= j && j + 4 <= n implies !(#[trigger] v@.subrange(j, j + 4) == ".app"@
        && (j + 4 == n || v@[j + 4] == '/')) by {
        assert(j < i);
    }
    false
}

} // verus!
