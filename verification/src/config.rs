//! Layered configuration: recursive overlay of override documents, and
//! variable substitution over string-valued leaves.

use vstd::prelude::*;

use crate::conf::{ConfMap, ConfValue, ValView, entries_view, lemma_entries_view_at,
    lemma_entries_view_contains, unique_keys, val_view};

verus! {

/// The overlay of override `b` onto base `a`: where both hold mappings the
/// merge recurses, anywhere else the override value replaces the base value
/// wholesale.
pub open spec fn merge_val(a: ValView, b: ValView) -> ValView
    decreases b,
{
    if a is M && b is M {
        ValView::M(
            Map::new(
                |k: Seq<char>| a->M_0.contains_key(k) || b->M_0.contains_key(k),
                |k: Seq<char>|
                    if b->M_0.contains_key(k) {
                        if a->M_0.contains_key(k) {
                            merge_val(a->M_0[k], b->M_0[k])
                        } else {
                            b->M_0[k]
                        }
                    } else {
                        a->M_0[k]
                    },
            ),
        )
    } else {
        b
    }
}

/// The overlay of override `b` onto base `a`, both mappings.
pub open spec fn merge_maps(
    a: Map<Seq<char>, ValView>,
    b: Map<Seq<char>, ValView>,
) -> Map<Seq<char>, ValView> {
    merge_val(ValView::M(a), ValView::M(b))->M_0
}

/// Overlaying an empty override changes nothing.
pub proof fn lemma_merge_empty(a: Map<Seq<char>, ValView>)
    ensures
        merge_maps(a, Map::empty()) == a,
{
    assert(merge_maps(a, Map::empty()) =~= a);
}

/// Binding one more key in the override binds it in the merge: to the
/// value merged with the base's value where the base holds the key, and to
/// the override's value alone where it does not.
pub proof fn lemma_merge_insert(
    a: Map<Seq<char>, ValView>,
    m: Map<Seq<char>, ValView>,
    k: Seq<char>,
    v: ValView,
)
    ensures
        merge_maps(a, m.insert(k, v)) == merge_maps(a, m).insert(
            k,
            if a.contains_key(k) {
                merge_val(a[k], v)
            } else {
                v
            },
        ),
{
    assert(merge_maps(a, m.insert(k, v)) =~= merge_maps(a, m).insert(
        k,
        if a.contains_key(k) {
            merge_val(a[k], v)
        } else {
            v
        },
    ));
}

/// A key the override does not bind keeps the base's value in the merge.
pub proof fn lemma_merge_base_key(
    a: Map<Seq<char>, ValView>,
    b: Map<Seq<char>, ValView>,
    k: Seq<char>,
)
    ensures
        a.contains_key(k) && !b.contains_key(k) ==> merge_maps(a, b).contains_key(k)
            && merge_maps(a, b)[k] == a[k],
        b.contains_key(k) && !a.contains_key(k) ==> merge_maps(a, b).contains_key(k)
            && merge_maps(a, b)[k] == b[k],
{
}

/// No value anywhere in the three arguments pairs a mapping in `a` and a
/// mapping in `c` with a non-mapping override between them: the one shape
/// on which overlay order is observable.
pub open spec fn overlay_compatible(a: ValView, b: ValView, c: ValView) -> bool
    decreases c,
{
    if a is M && b is M && c is M {
        forall|k: Seq<char>|
            a->M_0.contains_key(k) && b->M_0.contains_key(k) && (#[trigger] c->M_0.contains_key(
                k,
            )) ==> overlay_compatible(a->M_0[k], b->M_0[k], c->M_0[k])
    } else {
        !(a is M && !(b is M) && c is M)
    }
}

/// Overlaying `b` then `c` equals overlaying the overlay of `c` onto `b`,
/// wherever the three values are compatible in shape.
pub proof fn lemma_merge_assoc(a: ValView, b: ValView, c: ValView)
    requires
        overlay_compatible(a, b, c),
    ensures
        merge_val(merge_val(a, b), c) == merge_val(a, merge_val(b, c)),
    decreases c,
{
    if a is M && b is M && c is M {
        let ab = merge_val(a, b);
        let bc = merge_val(b, c);
        let lhs = merge_val(ab, c);
        let rhs = merge_val(a, bc);
        assert forall|k: Seq<char>|
            lhs->M_0.contains_key(k) implies rhs->M_0.contains_key(k) && lhs->M_0[k] == rhs->M_0[k] by {
            if a->M_0.contains_key(k) && b->M_0.contains_key(k) && c->M_0.contains_key(k) {
                lemma_merge_assoc(a->M_0[k], b->M_0[k], c->M_0[k]);
            }
        }
        assert forall|k: Seq<char>|
            rhs->M_0.contains_key(k) implies lhs->M_0.contains_key(k) by {}
        assert(lhs->M_0 =~= rhs->M_0);
        assert(lhs == rhs);
    } else if c is M {
        if b is M {
            // `a` is no mapping: b wins over a, and both sides reduce to
            // the overlay of c onto b.
            assert(merge_val(a, b) == b);
            assert(merge_val(a, merge_val(b, c)) == merge_val(b, c));
        } else {
            // `b` is no mapping and, by compatibility, `a` is none either:
            // both sides reduce to c.
            assert(merge_val(merge_val(a, b), c) == c);
            assert(merge_val(a, merge_val(b, c)) == c);
        }
    } else {
        // `c` is no mapping: the last writer wins on both sides.
        assert(merge_val(merge_val(a, b), c) == c);
        assert(merge_val(a, merge_val(b, c)) == c);
    }
}

/// The overlay of `over` onto `base` as a fresh mapping.
pub fn merged_dict(base: &ConfMap, over: &ConfMap) -> (r: ConfMap)
    requires
        base.wf(),
        over.wf(),
    ensures
        r.wf(),
        r@ == merge_maps(base@, over@),
    decreases over,
{
    let mut out = base.clone();
    proof {
        lemma_merge_empty(base@);
        assert(over.entries@.subrange(0, 0) =~= Seq::<(String, ConfValue)>::empty());
        assert(entries_view(over.entries@.subrange(0, 0)) =~= Map::<Seq<char>, ValView>::empty());
    }
    let n = over.entries.len();
    let mut i: usize = 0;
    while i < n
        invariant
            base.wf(),
            over.wf(),
            n == over.entries@.len(),
            i <= n,
            out.wf(),
            out@ == merge_maps(base@, entries_view(over.entries@.subrange(0, i as int))),
        decreases n - i,
    {
        proof {
            assert(decreases_to!(*over => over.entries));
            assert(decreases_to!(over.entries => over.entries@));
            assert(decreases_to!(over.entries@ => over.entries@[i as int]));
            assert(decreases_to!(over.entries@[i as int] => over.entries@[i as int].1));
        }
        let ghost prefix = over.entries@.subrange(0, i as int);
        let e = &over.entries[i];
        let ghost k = e.0@;
        let ghost v = val_view(e.1);
        proof {
            // The key at position i is fresh for the processed prefix.
            lemma_entries_view_contains(prefix, k);
            assert(forall|j: int| 0 <= j < prefix.len() ==> prefix[j] == over.entries@[j]);
            assert(!entries_view(prefix).contains_key(k));
            lemma_merge_insert(base@, entries_view(prefix), k, v);
            assert(e.1.wf()) by {
                assert(over.entries@[i as int].1.wf());
            }
        }
        let new_val: ConfValue = match (out.get(e.0.as_str()), &e.1) {
            (Some(ConfValue::Dict(base_child)), ConfValue::Dict(over_child)) => {
                proof {
                    assert(decreases_to!(over.entries@[i as int].1 => *over_child));
                }
                ConfValue::Dict(merged_dict(base_child, over_child))
            }
            (_, other) => (*other).clone(),
        };
        proof {
            // out holds base's value at k, if any: the prefix does not bind k.
            assert(out@.contains_key(k) <==> base@.contains_key(k));
            if base@.contains_key(k) {
                assert(out@[k] == base@[k]);
            }
            assert(val_view(new_val) == if base@.contains_key(k) {
                merge_val(base@[k], v)
            } else {
                v
            });
        }
        out.insert(e.0.clone(), new_val);
        proof {
            assert(over.entries@.subrange(0, i as int + 1).drop_last() =~= prefix);
            assert(over.entries@.subrange(0, i as int + 1).last() == over.entries@[i as int]);
            assert(entries_view(over.entries@.subrange(0, i as int + 1)) == entries_view(
                prefix,
            ).insert(k, v));
            assert(out@ == merge_maps(base@, entries_view(over.entries@.subrange(0, i as int + 1))));
        }
        i = i + 1;
    }
    proof {
        assert(over.entries@.subrange(0, n as int) =~= over.entries@);
    }
    out
}

/// The position of the first closing brace at or after `from`, or the
/// length of `s` if there is none.
pub open spec fn find_rbrace(s: Seq<char>, from: int) -> int
    decreases s.len() - from,
    when 0 <= from <= s.len()
{
    if from == s.len() {
        s.len() as int
    } else if s[from] == '}' {
        from
    } else {
        find_rbrace(s, from + 1)
    }
}

/// Where the first closing brace lies and what stands before it.
pub proof fn lemma_find_rbrace(s: Seq<char>, from: int)
    requires
        0 <= from <= s.len(),
    ensures
        from <= find_rbrace(s, from) <= s.len(),
        find_rbrace(s, from) < s.len() ==> s[find_rbrace(s, from)] == '}',
        forall|m: int| from <= m < find_rbrace(s, from) ==> s[m] != '}',
    decreases s.len() - from,
{
    if from < s.len() && s[from] != '}' {
        lemma_find_rbrace(s, from + 1);
    }
}

/// The characters of `s` from `pos` on, with each `{name}` placeholder
/// whose name the table binds to a string replaced by that string, in one
/// left-to-right pass; all other characters, unmatched placeholders
/// included, stand unchanged.
pub open spec fn subst_from(tbl: Map<Seq<char>, ValView>, s: Seq<char>, pos: int) -> Seq<char>
    decreases s.len() - pos,
    when 0 <= pos <= s.len()
    via subst_from_decreases
{
    if pos == s.len() {
        Seq::empty()
    } else if s[pos] == '{' {
        let j = find_rbrace(s, pos + 1);
        if j == s.len() {
            s.subrange(pos, s.len() as int)
        } else {
            let name = s.subrange(pos + 1, j);
            if tbl.contains_key(name) && tbl[name] is Str {
                tbl[name]->Str_0 + subst_from(tbl, s, j + 1)
            } else {
                s.subrange(pos, j + 1) + subst_from(tbl, s, j + 1)
            }
        }
    } else {
        seq![s[pos]] + subst_from(tbl, s, pos + 1)
    }
}

#[via_fn]
proof fn subst_from_decreases(tbl: Map<Seq<char>, ValView>, s: Seq<char>, pos: int) {
    if 0 <= pos < s.len() && s[pos] == '{' {
        lemma_find_rbrace(s, pos + 1);
    }
}

/// One whole string, substituted.
pub open spec fn subst_str(tbl: Map<Seq<char>, ValView>, s: Seq<char>) -> Seq<char> {
    subst_from(tbl, s, 0)
}

/// The names of the complete `{name}` placeholders of `s` from `pos` on.
pub open spec fn placeholder_names(s: Seq<char>, pos: int) -> Set<Seq<char>>
    decreases s.len() - pos,
    when 0 <= pos <= s.len()
    via placeholder_names_decreases
{
    if pos == s.len() {
        Set::empty()
    } else if s[pos] == '{' {
        let j = find_rbrace(s, pos + 1);
        if j == s.len() {
            Set::empty()
        } else {
            placeholder_names(s, j + 1).insert(s.subrange(pos + 1, j))
        }
    } else {
        placeholder_names(s, pos + 1)
    }
}

#[via_fn]
proof fn placeholder_names_decreases(s: Seq<char>, pos: int) {
    if 0 <= pos < s.len() && s[pos] == '{' {
        lemma_find_rbrace(s, pos + 1);
    }
}

/// A string none of whose placeholder names the table binds to a string
/// comes out of substitution character for character unchanged.
pub proof fn lemma_subst_unmatched(tbl: Map<Seq<char>, ValView>, s: Seq<char>, pos: int)
    requires
        0 <= pos <= s.len(),
        forall|name: Seq<char>| placeholder_names(s, pos).contains(name) ==> !(
        tbl.contains_key(name) && tbl[name] is Str),
    ensures
        subst_from(tbl, s, pos) == s.subrange(pos, s.len() as int),
    decreases s.len() - pos,
{
    if pos == s.len() {
        assert(subst_from(tbl, s, pos) =~= s.subrange(pos, s.len() as int));
    } else if s[pos] == '{' {
        let j = find_rbrace(s, pos + 1);
        lemma_find_rbrace(s, pos + 1);
        if j == s.len() {
        } else {
            let name = s.subrange(pos + 1, j);
            assert(placeholder_names(s, pos).contains(name));
            lemma_subst_unmatched(tbl, s, j + 1);
            assert(subst_from(tbl, s, pos) =~= s.subrange(pos, s.len() as int));
        }
    } else {
        lemma_subst_unmatched(tbl, s, pos + 1);
        assert(subst_from(tbl, s, pos) =~= s.subrange(pos, s.len() as int));
    }
}

/// The normalized operating-system name: the Mac kernel name maps to its
/// common Unix-style alias, all others pass through.
pub open spec fn spec_normalize_os(os: Seq<char>) -> Seq<char> {
    if os == "macos"@ {
        "darwin"@
    } else {
        os
    }
}

/// The normalized processor-architecture name: the 64-bit x86 name maps
/// to its common short alias, all others pass through.
pub open spec fn spec_normalize_arch(arch: Seq<char>) -> Seq<char> {
    if arch == "x86_64"@ {
        "amd64"@
    } else {
        arch
    }
}

/// The substitution table a mapping offers its own string leaves: the
/// three built-in host facts, each overridable by a string-valued key of
/// the same name, and every other string-valued key of the mapping.
pub open spec fn subst_table(
    m: Map<Seq<char>, ValView>,
    os: Seq<char>,
    arch: Seq<char>,
) -> Map<Seq<char>, ValView> {
    Map::new(
        |k: Seq<char>|
            k == "ozy_os"@ || k == "ozy_arch"@ || k == "ozy_machine"@ || (m.contains_key(k)
                && m[k] is Str),
        |k: Seq<char>|
            if m.contains_key(k) && m[k] is Str {
                m[k]
            } else if k == "ozy_os"@ {
                ValView::Str(spec_normalize_os(os))
            } else if k == "ozy_arch"@ {
                ValView::Str(spec_normalize_arch(arch))
            } else {
                ValView::Str(arch)
            },
    )
}

/// The normalized operating-system name, executable form.
pub fn normalize_os(os: &str) -> (r: String)
    ensures
        r@ == spec_normalize_os(os@),
{
    if crate::strutil::str_eq(os, "macos") {
        "darwin".to_owned()
    } else {
        os.to_owned()
    }
}

/// The normalized processor-architecture name, executable form.
pub fn normalize_arch(arch: &str) -> (r: String)
    ensures
        r@ == spec_normalize_arch(arch@),
{
    if crate::strutil::str_eq(arch, "x86_64") {
        "amd64".to_owned()
    } else {
        arch.to_owned()
    }
}

/// Build the substitution table for one mapping on a host with the given
/// raw operating-system and architecture names.
pub fn get_candidate_substitutions(mapping: &ConfMap, os: &str, arch: &str) -> (tbl: ConfMap)
    requires
        mapping.wf(),
    ensures
        tbl.wf(),
        tbl@ == subst_table(mapping@, os@, arch@),
{
    let mut tbl = ConfMap::new();
    tbl.insert("ozy_os".to_owned(), ConfValue::Str(normalize_os(os)));
    tbl.insert("ozy_arch".to_owned(), ConfValue::Str(normalize_arch(arch)));
    tbl.insert("ozy_machine".to_owned(), ConfValue::Str(arch.to_owned()));
    let ghost builtins = tbl@;
    proof {
        reveal_strlit("ozy_os");
        reveal_strlit("ozy_arch");
        reveal_strlit("ozy_machine");
        assert("ozy_os"@.len() == 6 && "ozy_arch"@.len() == 8 && "ozy_machine"@.len() == 11);
        assert(builtins =~= subst_table(Map::<Seq<char>, ValView>::empty(), os@, arch@));
    }
    let n = mapping.len();
    let mut i: usize = 0;
    while i < n
        invariant
            mapping.wf(),
            tbl.wf(),
            n == mapping.keys().len(),
            i <= n,
            forall|k: Seq<char>| #[trigger] tbl@.contains_key(k) <==> builtins.contains_key(k)
                || (exists|j: int| 0 <= j < i && #[trigger] mapping.keys()[j] == k
                    && mapping@[k] is Str),
            forall|k: Seq<char>| tbl@.contains_key(k) ==> #[trigger] tbl@[k] == (
                if mapping@.contains_key(k) && mapping@[k] is Str && (exists|j: int|
                    0 <= j < i && #[trigger] mapping.keys()[j] == k) {
                    mapping@[k]
                } else {
                    builtins[k]
                }),
            builtins == subst_table(Map::<Seq<char>, ValView>::empty(), os@, arch@),
        decreases n - i,
    {
        let key = mapping.key_at(i);
        let value = mapping.val_at(i);
        if let ConfValue::Str(_) = value {
            let key_copy = key.clone();
            tbl.insert(key_copy, value.clone());
        }
        i = i + 1;
    }
    proof {
        reveal_strlit("ozy_os");
        reveal_strlit("ozy_arch");
        reveal_strlit("ozy_machine");
        assert("ozy_os"@.len() == 6 && "ozy_arch"@.len() == 8 && "ozy_machine"@.len() == 11);
        // Each key of the mapping is one of its keys at some position.
        assert forall|k: Seq<char>| mapping@.contains_key(k) implies exists|j: int|
            0 <= j < n && #[trigger] mapping.keys()[j] == k by {
            lemma_entries_view_contains(mapping.entries@, k);
            let j = choose|j: int| 0 <= j < mapping.entries@.len() && (#[trigger] mapping.entries@[j]).0@
                == k;
            assert(mapping.keys()[j] == k);
        }
        assert forall|j: int| 0 <= j < n implies mapping@.contains_key(
            #[trigger] mapping.keys()[j],
        ) by {
            lemma_entries_view_at(mapping.entries@, j);
        }
        assert(tbl@ =~= subst_table(mapping@, os@, arch@));
    }
    tbl
}

/// Scanning stops at the first closing brace.
proof fn lemma_find_rbrace_eq(s: Seq<char>, from: int, j: int)
    requires
        0 <= from <= j <= s.len(),
        forall|m: int| from <= m < j ==> s[m] != '}',
        j < s.len() ==> s[j] == '}',
    ensures
        find_rbrace(s, from) == j,
    decreases j - from,
{
    if from < j {
        lemma_find_rbrace_eq(s, from + 1, j);
    }
}

/// The position of the first closing brace at or after `from`, or the
/// string's length if there is none.
fn find_rbrace_exec(s: &str, from: usize) -> (r: usize)
    requires
        from <= s@.len(),
    ensures
        r == find_rbrace(s@, from as int),
{
    let len = s.unicode_len();
    let mut j = from;
    while j < len
        invariant
            from <= j <= len,
            len == s@.len(),
            forall|m: int| from <= m < j ==> s@[m] != '}',
        decreases len - j,
    {
        if s.get_char(j) == '}' {
            proof {
                lemma_find_rbrace_eq(s@, from as int, j as int);
            }
            return j;
        }
        j = j + 1;
    }
    proof {
        lemma_find_rbrace_eq(s@, from as int, len as int);
    }
    len
}

/// Replace, in one left-to-right pass, each `{name}` placeholder of `s`
/// whose name the table binds to a string; everything else, unmatched
/// placeholders included, is copied unchanged.
pub fn substitute(tbl: &ConfMap, s: &str) -> (r: String)
    requires
        tbl.wf(),
    ensures
        r@ == subst_str(tbl@, s@),
{
    let len = s.unicode_len();
    let mut out = String::new();
    let mut pos: usize = 0;
    while pos < len
        invariant
            tbl.wf(),
            len == s@.len(),
            pos <= len,
            subst_str(tbl@, s@) == out@ + subst_from(tbl@, s@, pos as int),
        decreases len - pos,
    {
        let ghost out0 = out@;
        let c = s.get_char(pos);
        if c == '{' {
            let j = find_rbrace_exec(s, pos + 1);
            proof {
                lemma_find_rbrace(s@, pos as int + 1);
            }
            if j == len {
                let rest = s.substring_char(pos, len);
                out.append(rest);
                proof {
                    assert(subst_from(tbl@, s@, pos as int) == s@.subrange(
                        pos as int,
                        len as int,
                    ));
                    assert(out@ + subst_from(tbl@, s@, len as int) =~= out0 + subst_from(
                        tbl@,
                        s@,
                        pos as int,
                    ));
                }
                pos = len;
            } else {
                let ghost piece: Seq<char>;
                let name = s.substring_char(pos + 1, j);
                match tbl.get(name) {
                    Some(ConfValue::Str(repl)) => {
                        out.append(repl.as_str());
                        proof {
                            piece = repl@;
                            assert(tbl@[name@] == ValView::Str(repl@));
                        }
                    }
                    _ => {
                        let verbatim = s.substring_char(pos, j + 1);
                        out.append(verbatim);
                        proof {
                            piece = s@.subrange(pos as int, j as int + 1);
                        }
                    }
                }
                proof {
                    assert(subst_from(tbl@, s@, pos as int) == piece + subst_from(
                        tbl@,
                        s@,
                        j as int + 1,
                    ));
                    assert(out@ + subst_from(tbl@, s@, j as int + 1) =~= out0 + subst_from(
                        tbl@,
                        s@,
                        pos as int,
                    ));
                }
                pos = j + 1;
            }
        } else {
            let one = s.substring_char(pos, pos + 1);
            out.append(one);
            proof {
                assert(one@ =~= seq![s@[pos as int]]);
                assert(subst_from(tbl@, s@, pos as int) == seq![s@[pos as int]] + subst_from(
                    tbl@,
                    s@,
                    pos as int + 1,
                ));
                assert(out@ + subst_from(tbl@, s@, pos as int + 1) =~= out0 + subst_from(
                    tbl@,
                    s@,
                    pos as int,
                ));
            }
            pos = pos + 1;
        }
    }
    proof {
        assert(subst_from(tbl@, s@, len as int) =~= Seq::<char>::empty());
        assert(out@ + Seq::<char>::empty() =~= out@);
    }
    out
}

/// Substitute, in place, every string value of the mapping against the
/// table the mapping itself offers; other values stand unchanged.
pub fn resolve(mapping: &mut ConfMap, os: &str, arch: &str)
    requires
        old(mapping).wf(),
    ensures
        final(mapping).wf(),
        final(mapping).keys() == old(mapping).keys(),
        final(mapping)@.dom() == old(mapping)@.dom(),
        forall|k: Seq<char>| old(mapping)@.contains_key(k) ==> #[trigger] final(mapping)@[k]
            == (if old(mapping)@[k] is Str {
            ValView::Str(
                subst_str(subst_table(old(mapping)@, os@, arch@), old(mapping)@[k]->Str_0),
            )
        } else {
            old(mapping)@[k]
        }),
{
    let tbl = get_candidate_substitutions(&*mapping, os, arch);
    let n = mapping.len();
    let mut i: usize = 0;
    while i < n
        invariant
            tbl.wf(),
            tbl@ == subst_table(old(mapping)@, os@, arch@),
            mapping.wf(),
            mapping.keys() == old(mapping).keys(),
            mapping@.dom() == old(mapping)@.dom(),
            n == mapping.keys().len(),
            i <= n,
            forall|k: Seq<char>| old(mapping)@.contains_key(k) ==> #[trigger] mapping@[k] == (
            if old(mapping)@[k] is Str && (exists|j: int|
                0 <= j < i && #[trigger] mapping.keys()[j] == k) {
                ValView::Str(subst_str(tbl@, old(mapping)@[k]->Str_0))
            } else {
                old(mapping)@[k]
            }),
        decreases n - i,
    {
        let ghost k = mapping.keys()[i as int];
        proof {
            lemma_entries_view_at(mapping.entries@, i as int);
            assert(mapping@.contains_key(k));
            assert(forall|j: int| 0 <= j < i ==> #[trigger] mapping.keys()[j] != k) by {
                assert(unique_keys(mapping.entries@));
            }
        }
        let key_copy = mapping.key_at(i).clone();
        let value = mapping.val_at(i);
        if let ConfValue::Str(sval) = value {
            let replaced = substitute(&tbl, sval.as_str());
            mapping.insert(key_copy, ConfValue::Str(replaced));
        }
        i = i + 1;
    }
    proof {
        assert forall|k: Seq<char>| old(mapping)@.contains_key(k) implies exists|j: int|
            0 <= j < n && #[trigger] mapping.keys()[j] == k by {
            lemma_entries_view_contains(mapping.entries@, k);
            let j = choose|j: int| 0 <= j < mapping.entries@.len() && (#[trigger] mapping.entries@[j]).0@
                == k;
            assert(mapping.keys()[j] == k);
        }
    }
}

/// Overlay the entries of `source` onto `dest`, recursively: where both
/// hold mappings at a key the merge recurses, anywhere else the source's
/// value replaces the destination's.
pub fn apply_overrides(source: &ConfMap, dest: &mut ConfMap)
    requires
        source.wf(),
        old(dest).wf(),
    ensures
        final(dest).wf(),
        final(dest)@ == merge_maps(old(dest)@, source@),
{
    let merged = merged_dict(&*dest, source);
    *dest = merged;
}

} // verus!
