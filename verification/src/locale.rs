//! Reading the system's preferred languages from the `defaults` listing.

use vstd::prelude::*;
use crate::i18n::{lang_of_tag, Lang};
use crate::text::{
    chars_of, find_char_from, lemma_find_to, string_of, strings_view,
};

verus! {

/// The non-empty pieces of `s` between a `"` and the next `"`, pair by pair;
/// an unpaired last `"` is ignored.
pub open spec fn quoted_tokens(s: Seq<char>) -> Seq<Seq<char>>
    decreases s.len(),
{
    let a = find_char_from(s, '"', 0);
    if a < 0 || a >= s.len() {
        Seq::empty()
    } else {
        let b = find_char_from(s, '"', a + 1);
        if b <= a || b >= s.len() {
            Seq::empty()
        } else {
            let tok = s.subrange(a + 1, b);
            (if tok.len() > 0 {
                seq![tok]
            } else {
                Seq::empty()
            }) + quoted_tokens(s.skip(b + 1))
        }
    }
}

/// The language the Unix locale variables name (`LC_ALL`, `LC_MESSAGES`,
/// `LANG`, in that order): the first one that is set and not empty decides,
/// and one that names no known language means English; English when none is set.
pub open spec fn locale_lang(vars: Seq<Option<Seq<char>>>) -> Lang
    decreases vars.len(),
{
    if vars.len() == 0 {
        Lang::En
    } else {
        match vars[0] {
            Some(v) => match lang_of_tag(v) {
                Some(l) => l,
                None => if v.len() > 0 {
                    Lang::En
                } else {
                    locale_lang(vars.drop_first())
                },
            },
            None => locale_lang(vars.drop_first()),
        }
    }
}

/// The optional texts of a list of optional strings.
pub open spec fn opt_strs_view(vars: Seq<Option<&str>>) -> Seq<Option<Seq<char>>> {
    vars.map_values(|o: Option<&str>| match o {
        Some(s) => Some(s@),
        None => None,
    })
}

/// The language of the Unix locale variables, given in order (see `locale_lang`).
pub fn lang_from_locale_vars(vars: &[Option<&str>]) -> (r: Lang)
    ensures
        r == locale_lang(opt_strs_view(vars@)),
{
    let ghost all = opt_strs_view(vars@);
    let mut i: usize = 0;
    assert(all.skip(0) =~= all);
    while i < vars.len()
        invariant
            i <= vars@.len(),
            all == opt_strs_view(vars@),
            locale_lang(all) == locale_lang(all.skip(i as int)),
        decreases vars@.len() - i,
    {
        let ghost rest = all.skip(i as int);
        assert(rest[0] == all[i as int]);
        assert(rest.drop_first() =~= all.skip(i + 1));
        match vars[i] {
            Some(v) => {
                match Lang::parse_opt(v) {
                    Some(l) => {
                        return l;
                    },
                    None => {
                        if v.unicode_len() > 0 {
                            return Lang::En;
                        }
                    },
                }
            },
            None => {},
        }
        i += 1;
    }
    assert(all.skip(vars@.len() as int) =~= Seq::<Option<Seq<char>>>::empty());
    Lang::En
}

/// The UI language: a valid process override first, then the system's
/// preferred languages, then the Unix locale.
pub fn detect(override_value: Option<&str>, preferred: Option<Lang>, locale: Lang) -> (r: Lang)
    ensures
        r == match override_value {
            Some(v) => match lang_of_tag(v@) {
                Some(l) => l,
                None => match preferred {
                    Some(p) => p,
                    None => locale,
                },
            },
            None => match preferred {
                Some(p) => p,
                None => locale,
            },
        },
{
    let forced = match override_value {
        Some(v) => Lang::parse_opt(v),
        None => None,
    };
    match forced {
        Some(l) => l,
        None => match preferred {
            Some(p) => p,
            None => locale,
        },
    }
}

/// Index of the first `c` in `v` at or after `from`, or the length.
fn find_in(v: &Vec<char>, c: char, from: usize) -> (r: usize)
    requires
        from <= v@.len(),
    ensures
        from <= r <= v@.len(),
        r < v@.len() ==> v@[r as int] == c,
        forall|j: int| from <= j < r ==> v@[j] != c,
{
    let mut k = from;
    while k < v.len() && v[k] != c
        invariant
            from <= k <= v@.len(),
            forall|j: int| from <= j < k ==> v@[j] != c,
        decreases v@.len() - k,
    {
        k += 1;
    }
    k
}

/// The quoted, non-empty tokens of a property-list array, in order.
pub fn parse_quoted_tokens(text: &str) -> (r: Vec<String>)
    ensures
        strings_view(r@) == quoted_tokens(text@),
{
    let v = chars_of(text);
    let n = v.len();
    let mut tags: Vec<String> = Vec::new();
    let mut pos: usize = 0;
    assert(v@.skip(0) =~= v@);
    assert(strings_view(tags@) =~= Seq::<Seq<char>>::empty());
    while pos < n
        invariant
            n == v@.len(),
            v@ == text@,
            pos <= n,
            strings_view(tags@) + quoted_tokens(v@.skip(pos as int)) == quoted_tokens(v@),
        decreases n - pos,
    {
        let ghost rest = v@.skip(pos as int);
        let a = find_in(&v, '"', pos);
        proof {
            assert forall|t: int| 0 <= t < a - pos implies rest[t] != '"' by {
                assert(rest[t] == v@[pos + t]);
            }
            lemma_find_to(rest, '"', 0, a - pos);
        }
        if a == n {
            assert(quoted_tokens(rest) =~= Seq::<Seq<char>>::empty());
            assert(strings_view(tags@) + quoted_tokens(rest) =~= strings_view(tags@));
            pos = n;
            assert(quoted_tokens(v@.skip(n as int)) =~= Seq::<Seq<char>>::empty()) by {
                assert(v@.skip(n as int) =~= Seq::<char>::empty());
            }
            assert(strings_view(tags@) + quoted_tokens(v@.skip(pos as int)) =~= strings_view(tags@));
        } else {
            let b = find_in(&v, '"', a + 1);
            proof {
                assert forall|t: int| a + 1 - pos <= t < b - pos implies rest[t] != '"' by {
                    assert(rest[t] == v@[pos + t]);
                }
                lemma_find_to(rest, '"', a + 1 - pos, b - pos);
            }
            if b == n {
                assert(quoted_tokens(rest) =~= Seq::<Seq<char>>::empty());
                assert(strings_view(tags@) + quoted_tokens(rest) =~= strings_view(tags@));
                pos = n;
                assert(quoted_tokens(v@.skip(n as int)) =~= Seq::<Seq<char>>::empty()) by {
                    assert(v@.skip(n as int) =~= Seq::<char>::empty());
                }
                assert(strings_view(tags@) + quoted_tokens(v@.skip(pos as int)) =~= strings_view(
                    tags@,
                ));
            } else {
                let ghost tok = rest.subrange(a + 1 - pos, b - pos);
                assert(tok =~= v@.subrange(a + 1, b as int));
                assert(rest.skip(b + 1 - pos) =~= v@.skip(b + 1));
                let ghost head: Seq<Seq<char>> = if tok.len() > 0 {
                    seq![tok]
                } else {
                    Seq::empty()
                };
                assert(quoted_tokens(rest) == head + quoted_tokens(v@.skip(b + 1)));
                let ghost before = strings_view(tags@);
                if b > a + 1 {
                    let t = string_of(&v, a + 1, b);
                    tags.push(t);
                    assert(strings_view(tags@) =~= before + head);
                } else {
                    assert(head =~= Seq::<Seq<char>>::empty());
                    assert(before + head =~= before);
                }
                assert(strings_view(tags@) + quoted_tokens(v@.skip(b + 1)) =~= before + quoted_tokens(
                    rest,
                ));
                pos = b + 1;
            }
        }
    }
    assert(v@.skip(n as int) =~= Seq::<char>::empty());
    assert(strings_view(tags@) + quoted_tokens(v@.skip(n as int)) =~= strings_view(tags@));
    tags
}

} // verus!
