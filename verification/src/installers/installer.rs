//! The common installer contract, and the helpers every backend uses to
//! read its fields out of a resolved app mapping.

use vstd::prelude::*;

use crate::conf::{ConfMap, ConfValue, ValView, lemma_entries_view_contains, lemma_list_view_at};
use crate::errors::OzyError;
use crate::strutil::concat2;

verus! {

/// Every installer backend can summarise itself; the summary is stable,
/// derived from the backend's identifying fields alone, and is what app
/// descriptors compare and hash.
pub trait Installer {
    /// The summary as a sequence of characters.
    spec fn describe_spec(&self) -> Seq<char>;

    /// Render the summary.
    fn describe(&self) -> (r: String)
        ensures
            r@ == self.describe_spec(),
    ;
}

/// One subprocess invocation an installer backend asks the surrounding
/// program to run on its behalf.
pub struct CommandPlan {
    /// The program to invoke.
    pub program: String,
    /// Its arguments, in order.
    pub args: Vec<String>,
    /// Environment variables to set for the invocation, later pairs
    /// overriding earlier ones of the same name.
    pub env: Vec<(String, String)>,
}

/// The string a key holds, if it is present and holds one.
pub fn get_str_field(config: &ConfMap, key: &str) -> (r: Option<String>)
    requires
        config.wf(),
    ensures
        match r {
            Option::Some(s) => config@.contains_key(key@) && config@[key@] == ValView::Str(s@),
            Option::None => !(config@.contains_key(key@) && config@[key@] is Str),
        },
{
    match config.get(key) {
        Some(ConfValue::Str(s)) => Some(s.clone()),
        _ => None,
    }
}

/// The boolean a key holds, or the default where the key is absent or
/// holds something else.
pub fn get_bool_or(config: &ConfMap, key: &str, default: bool) -> (r: bool)
    requires
        config.wf(),
    ensures
        r == (if config@.contains_key(key@) && config@[key@] is Bool {
            config@[key@]->Bool_0
        } else {
            default
        }),
{
    match config.get(key) {
        Some(ConfValue::Bool(b)) => *b,
        _ => default,
    }
}

/// The strings of the sequence a key holds: an absent key, or one holding
/// no sequence, yields the empty list; a sequence with a non-string item
/// is a schema error.
pub fn get_string_list(config: &ConfMap, key: &str) -> (r: Result<Vec<String>, OzyError>)
    requires
        config.wf(),
    ensures
        match r {
            Result::Ok(v) => {
                if config@.contains_key(key@) && config@[key@] is List {
                    let l = config@[key@]->List_0;
                    v@.len() == l.len() && forall|i: int|
                        0 <= i < l.len() ==> (#[trigger] l[i]) is Str && v@[i]@ == l[i]->Str_0
                } else {
                    v@.len() == 0
                }
            },
            Result::Err(e) => e is SchemaError && config@.contains_key(key@)
                && config@[key@] is List && exists|i: int|
                0 <= i < config@[key@]->List_0.len() && !((#[trigger] config@[key@]->List_0[i]) is Str),
        },
{
    match config.get(key) {
        Some(ConfValue::List(vs)) => {
            let ghost l = config@[key@]->List_0;
            proof {
                crate::conf::lemma_list_view_len(vs@);
            }
            let n = vs.len();
            let mut out: Vec<String> = Vec::new();
            let mut i: usize = 0;
            while i < n
                invariant
                    n == vs@.len(),
                    i <= n,
                    config@.contains_key(key@),
                    config@[key@] == ValView::List(l),
                    l == crate::conf::list_view(vs@),
                    l.len() == n,
                    out@.len() == i,
                    forall|j: int| 0 <= j < i ==> (#[trigger] l[j]) is Str && out@[j]@
                        == l[j]->Str_0,
                decreases n - i,
            {
                proof {
                    lemma_list_view_at(vs@, i as int);
                }
                match &vs[i] {
                    ConfValue::Str(s) => {
                        out.push(s.clone());
                    }
                    _ => {
                        return Err(
                            OzyError::SchemaError(
                                concat2("Expected a sequence of strings at key ", key),
                            ),
                        );
                    }
                }
                i = i + 1;
            }
            Ok(out)
        }
        _ => Ok(Vec::new()),
    }
}

/// The pairs carry exactly the string-valued bindings of the mapping:
/// every pair is a binding, no key repeats, and every key of the mapping
/// appears.
pub open spec fn env_pairs_match(pairs: Seq<(String, String)>, m: Map<Seq<char>, ValView>) -> bool {
    &&& forall|i: int|
        0 <= i < pairs.len() ==> m.contains_key((#[trigger] pairs[i]).0@) && m[pairs[i].0@]
            == ValView::Str(pairs[i].1@)
    &&& forall|i: int, j: int|
        0 <= i < j < pairs.len() ==> (#[trigger] pairs[i]).0@ != (#[trigger] pairs[j]).0@
    &&& forall|k: Seq<char>| #[trigger] m.contains_key(k) ==> exists|i: int|
        0 <= i < pairs.len() && (#[trigger] pairs[i]).0@ == k
}

/// The string-to-string pairs of one mapping, in key order; a non-string
/// value is a schema error.
pub fn env_pairs_of_dict(m: &ConfMap, key: &str) -> (r: Result<Vec<(String, String)>, OzyError>)
    requires
        m.wf(),
    ensures
        r matches Ok(v) ==> env_pairs_match(v@, m@),
        r matches Err(e) ==> e is SchemaError && exists|k: Seq<char>|
            #[trigger] m@.contains_key(k) && !(m@[k] is Str),
{
    let n = m.len();
    let mut out: Vec<(String, String)> = Vec::new();
    let mut i: usize = 0;
    while i < n
        invariant
            m.wf(),
            n == m.keys().len(),
            i <= n,
            out@.len() == i,
            forall|j: int| 0 <= j < i ==> (#[trigger] out@[j]).0@ == m.keys()[j]
                && m@.contains_key(out@[j].0@) && m@[out@[j].0@] == ValView::Str(out@[j].1@),
        decreases n - i,
    {
        let pair_key = m.key_at(i).clone();
        let value = m.val_at(i);
        match value {
            ConfValue::Str(s) => {
                out.push((pair_key, s.clone()));
            }
            _ => {
                proof {
                    assert(m@.contains_key(m.keys()[i as int]) && !(m@[m.keys()[i as int]] is Str));
                }
                return Err(
                    OzyError::SchemaError(concat2("Expected a mapping of strings at key ", key)),
                );
            }
        }
        i = i + 1;
    }
    proof {
        assert(crate::conf::unique_keys(m.entries@));
        assert forall|a: int, b: int| 0 <= a < b < out@.len()
            implies (#[trigger] out@[a]).0@ != (#[trigger] out@[b]).0@ by {
            assert(m.keys()[a] != m.keys()[b]);
        }
        assert forall|k: Seq<char>| #[trigger] m@.contains_key(k) implies exists|i: int|
            0 <= i < out@.len() && (#[trigger] out@[i]).0@ == k by {
            lemma_entries_view_contains(m.entries@, k);
            let j = choose|j: int| 0 <= j < m.entries@.len() && (#[trigger] m.entries@[j]).0@ == k;
            assert(out@[j].0@ == k);
        }
        assert(env_pairs_match(out@, m@));
    }
    Ok(out)
}

/// The string-to-string pairs of the mapping a key holds, in key order: an
/// absent key, or one holding no mapping, yields no pairs; a mapping with
/// a non-string value is a schema error.
pub fn get_env_pairs(config: &ConfMap, key: &str) -> (r: Result<Vec<(String, String)>, OzyError>)
    requires
        config.wf(),
    ensures
        r matches Ok(v) ==> (config@.contains_key(key@) && config@[key@] is M ==> env_pairs_match(
            v@,
            config@[key@]->M_0,
        )),
        r matches Ok(v) ==> (!(config@.contains_key(key@) && config@[key@] is M) ==> v@.len()
            == 0),
        r matches Err(e) ==> e is SchemaError && config@.contains_key(key@)
            && config@[key@] is M && exists|k: Seq<char>|
            #[trigger] config@[key@]->M_0.contains_key(k) && !(config@[key@]->M_0[k] is Str),
{
    match config.get(key) {
        Some(ConfValue::Dict(m)) => {
            proof {
                assert(config@[key@] == ValView::M(m@));
            }
            let r = env_pairs_of_dict(m, key);
            proof {
                if r is Err {
                    let k = choose|k: Seq<char>| #[trigger] m@.contains_key(k) && !(m@[k] is Str);
                    assert(config@[key@]->M_0.contains_key(k) && !(config@[key@]->M_0[k] is Str));
                }
            }
            r
        }
        _ => Ok(Vec::new()),
    }
}

} // verus!
