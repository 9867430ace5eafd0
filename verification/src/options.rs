//! Option tables: coercing declared option values to their string form
//! and resolving a declaration table into the flat key-value table a
//! plugin invocation receives.

use vstd::prelude::*;

use crate::plugin::{OptionDefaultView, OptionValue, OptionValueView, PluginOptions};
use crate::text::{i64_dec, spec_idec};

verus! {

/// String equality by contents.
pub fn string_eq(a: &String, b: &String) -> (r: bool)
    ensures
        r == (a@ == b@),
{
    a.eq(b)
}

/// The string form of a record's `default` sub-field, if it has one the
/// coercion can read.
pub open spec fn spec_coerce_default(d: OptionDefaultView) -> Option<Seq<char>> {
    match d {
        OptionDefaultView::Text(s) => Some(s),
        OptionDefaultView::Integer(i) => Some(spec_idec(i)),
        OptionDefaultView::Boolean(b) => Some(if b {
            "true"@
        } else {
            "false"@
        }),
        OptionDefaultView::Decimal(s) => Some(s),
        OptionDefaultView::Unsupported => None,
    }
}

/// The string form of a declared option value: literals are rendered,
/// records contribute their `default` sub-field, everything else is
/// dropped (`None`), not an error.
pub open spec fn spec_coerce(v: OptionValueView) -> Option<Seq<char>> {
    match v {
        OptionValueView::Text(s) => Some(s),
        OptionValueView::Integer(i) => Some(spec_idec(i)),
        OptionValueView::Boolean(b) => Some(if b {
            "true"@
        } else {
            "false"@
        }),
        OptionValueView::Decimal(s) => Some(s),
        OptionValueView::Record(Some(d)) => spec_coerce_default(d),
        OptionValueView::Record(None) => None,
        OptionValueView::Other => None,
    }
}

fn bool_string(b: bool) -> (r: String)
    ensures
        r@ == (if b {
            "true"@
        } else {
            "false"@
        }),
{
    if b {
        "true".to_owned()
    } else {
        "false".to_owned()
    }
}

/// Coerce one declared option value to its transported string form.
pub fn coerce_option_value(v: &OptionValue) -> (r: Option<String>)
    ensures
        r.deep_view() == spec_coerce(v.deep_view()),
{
    match v {
        OptionValue::Text(s) => Some(s.clone()),
        OptionValue::Integer(i) => Some(i64_dec(*i)),
        OptionValue::Boolean(b) => Some(bool_string(*b)),
        OptionValue::Decimal(s) => Some(s.clone()),
        OptionValue::Record(Some(d)) => match d {
            crate::plugin::OptionDefault::Text(s) => Some(s.clone()),
            crate::plugin::OptionDefault::Integer(i) => Some(i64_dec(*i)),
            crate::plugin::OptionDefault::Boolean(b) => Some(bool_string(*b)),
            crate::plugin::OptionDefault::Decimal(s) => Some(s.clone()),
            crate::plugin::OptionDefault::Unsupported => None,
        },
        OptionValue::Record(None) => None,
        OptionValue::Other => None,
    }
}

/// Index of the first pair whose key is `k`, or -1.
pub open spec fn spec_key_index(pairs: Seq<(Seq<char>, Seq<char>)>, k: Seq<char>) -> int
    decreases pairs.len(),
{
    if pairs.len() == 0 {
        -1
    } else if pairs[0].0 == k {
        0
    } else {
        let rest = spec_key_index(pairs.drop_first(), k);
        if rest < 0 {
            -1
        } else {
            rest + 1
        }
    }
}

/// What `spec_key_index` finds: the first occurrence of the key, or a
/// witness that the key is absent.
pub proof fn lemma_key_index_first(pairs: Seq<(Seq<char>, Seq<char>)>, k: Seq<char>)
    ensures
        ({
            let i = spec_key_index(pairs, k);
            &&& -1 <= i < pairs.len()
            &&& (i == -1 ==> forall|j: int| 0 <= j < pairs.len() ==> pairs[j].0 != k)
            &&& (i >= 0 ==> pairs[i].0 == k && (forall|j: int| 0 <= j < i ==> pairs[j].0 != k))
        }),
    decreases pairs.len(),
{
    if pairs.len() > 0 && pairs[0].0 != k {
        lemma_key_index_first(pairs.drop_first(), k);
        let rest = spec_key_index(pairs.drop_first(), k);
        if rest < 0 {
            assert forall|j: int| 0 <= j < pairs.len() implies pairs[j].0 != k by {
                if j >= 1 {
                    assert(pairs.drop_first()[j - 1] == pairs[j]);
                }
            }
        } else {
            assert(pairs.drop_first()[rest] == pairs[rest + 1]);
            assert forall|j: int| 0 <= j < rest + 1 implies pairs[j].0 != k by {
                if j >= 1 {
                    assert(pairs.drop_first()[j - 1] == pairs[j]);
                }
            }
        }
    }
}

/// If `k` first occurs at index `i`, then `spec_key_index` finds exactly
/// `i`.
pub proof fn lemma_key_index_unique(pairs: Seq<(Seq<char>, Seq<char>)>, k: Seq<char>, i: int)
    requires
        0 <= i < pairs.len(),
        pairs[i].0 == k,
        forall|j: int| 0 <= j < i ==> pairs[j].0 != k,
    ensures
        spec_key_index(pairs, k) == i,
{
    lemma_key_index_first(pairs, k);
    let i0 = spec_key_index(pairs, k);
    if i0 == -1 {
        assert(pairs[i].0 != k);
    } else if i0 < i {
        assert(pairs[i0].0 != k);
    } else if i0 > i {
        assert(pairs[i].0 != k);
    }
}

/// Value stored under key `k`, if any (first occurrence).
pub open spec fn spec_options_find(pairs: Seq<(Seq<char>, Seq<char>)>, k: Seq<char>) -> Option<
    Seq<char>,
> {
    let i = spec_key_index(pairs, k);
    if i < 0 {
        None
    } else {
        Some(pairs[i].1)
    }
}

/// The table after storing `v` under `k`: the first pair with key `k` is
/// replaced in place, or a new pair is appended.
pub open spec fn spec_options_set(
    pairs: Seq<(Seq<char>, Seq<char>)>,
    k: Seq<char>,
    v: Seq<char>,
) -> Seq<(Seq<char>, Seq<char>)> {
    let i = spec_key_index(pairs, k);
    if i < 0 {
        pairs.push((k, v))
    } else {
        pairs.update(i, (k, v))
    }
}

/// Look a key up in a flat option table.
pub fn options_get(pairs: &PluginOptions, k: &String) -> (r: Option<String>)
    ensures
        r.deep_view() == spec_options_find(pairs.deep_view(), k@),
{
    let mut i: usize = 0;
    while i < pairs.len()
        invariant
            i <= pairs@.len(),
            pairs.deep_view().len() == pairs@.len(),
            forall|j: int| 0 <= j < i ==> #[trigger] pairs.deep_view()[j].0 != k@,
        decreases pairs@.len() - i,
    {
        let (pk, pv) = &pairs[i];
        assert(pairs.deep_view()[i as int] == (pk@, pv@));
        if string_eq(pk, k) {
            proof {
                lemma_key_index_unique(pairs.deep_view(), k@, i as int);
            }
            return Some(pv.clone());
        }
        i = i + 1;
    }
    proof {
        lemma_key_index_first(pairs.deep_view(), k@);
        let i0 = spec_key_index(pairs.deep_view(), k@);
        if i0 >= 0 {
            assert(pairs.deep_view()[i0].0 != k@);
        }
    }
    None
}

/// Store `v` under `k` in a flat option table, replacing the first
/// existing entry for `k` in place.
pub fn options_set(pairs: &mut PluginOptions, k: String, v: String)
    ensures
        final(pairs).deep_view() == spec_options_set(old(pairs).deep_view(), k@, v@),
{
    let mut i: usize = 0;
    while i < pairs.len()
        invariant
            i <= pairs@.len(),
            *pairs == *old(pairs),
            pairs.deep_view().len() == pairs@.len(),
            forall|j: int| 0 <= j < i ==> #[trigger] pairs.deep_view()[j].0 != k@,
        decreases pairs@.len() - i,
    {
        let (pk, pv) = &pairs[i];
        assert(pairs.deep_view()[i as int] == (pk@, pv@));
        if string_eq(pk, &k) {
            proof {
                lemma_key_index_unique(old(pairs).deep_view(), k@, i as int);
            }
            pairs.remove(i);
            pairs.insert(i, (k, v));
            assert(pairs@ =~= old(pairs)@.update(i as int, (k, v)));
            assert(pairs.deep_view() =~= old(pairs).deep_view().update(i as int, (k@, v@)));
            return ;
        }
        i = i + 1;
    }
    proof {
        lemma_key_index_first(old(pairs).deep_view(), k@);
        let i0 = spec_key_index(old(pairs).deep_view(), k@);
        if i0 >= 0 {
            assert(old(pairs).deep_view()[i0].0 != k@);
        }
    }
    pairs.push((k, v));
    assert(pairs.deep_view() =~= old(pairs).deep_view().push((k@, v@)));
}

/// The flat option table resolved from a declaration table: declarations
/// are taken in order, coerced, and stored; declarations the coercion
/// drops contribute nothing.
pub open spec fn spec_defaults(decls: Seq<(Seq<char>, OptionValueView)>) -> Seq<
    (Seq<char>, Seq<char>),
>
    decreases decls.len(),
{
    if decls.len() == 0 {
        Seq::empty()
    } else {
        let prev = spec_defaults(decls.drop_last());
        let (k, v) = decls.last();
        match spec_coerce(v) {
            None => prev,
            Some(s) => spec_options_set(prev, k, s),
        }
    }
}

/// The flat option table of an optional declaration table; an absent
/// table resolves to no options.
pub open spec fn spec_table_options(decls: Option<Seq<(Seq<char>, OptionValueView)>>) -> Seq<
    (Seq<char>, Seq<char>),
> {
    match decls {
        None => Seq::empty(),
        Some(d) => spec_defaults(d),
    }
}

/// Resolve a declaration table into the flat string-keyed table the
/// runner hands a plugin.
pub fn options_from_decls(decls: &Vec<(String, OptionValue)>) -> (r: PluginOptions)
    ensures
        r.deep_view() == spec_defaults(decls.deep_view()),
{
    let mut acc: PluginOptions = Vec::new();
    let mut i: usize = 0;
    while i < decls.len()
        invariant
            i <= decls@.len(),
            decls.deep_view().len() == decls@.len(),
            acc.deep_view() == spec_defaults(decls.deep_view().subrange(0, i as int)),
        decreases decls@.len() - i,
    {
        let ghost dv = decls.deep_view();
        let (k, v) = &decls[i];
        assert(dv[i as int] == (k@, v.deep_view()));
        match coerce_option_value(v) {
            None => {},
            Some(s) => {
                options_set(&mut acc, k.clone(), s);
            },
        }
        proof {
            assert(dv.subrange(0, i as int + 1).drop_last() =~= dv.subrange(0, i as int));
            assert(dv.subrange(0, i as int + 1).last() == dv[i as int]);
        }
        i = i + 1;
    }
    assert(decls.deep_view().subrange(0, decls.deep_view().len() as int) =~= decls.deep_view());
    acc
}

/// Resolve an optional declaration table; an absent table yields no
/// options.
pub fn options_from_table(decls: &Option<Vec<(String, OptionValue)>>) -> (r: PluginOptions)
    ensures
        r.deep_view() == spec_table_options(decls.deep_view()),
{
    match decls {
        None => Vec::new(),
        Some(d) => options_from_decls(d),
    }
}

} // verus!
