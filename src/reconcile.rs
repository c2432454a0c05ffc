//! Keeping the stored extension settings in step with the installed
//! extensions' manifests: missing values are added with their declared
//! default, and values already stored are never touched.

use vstd::prelude::*;
use crate::extensions::Extension;
use crate::settings::{
    ExtensionValue, ExtensionValueView, Settings, is_first_value, lookup_value, values_view,
};

verus! {

/// The setting that every extension has without declaring it.
pub open spec fn keyword_setting() -> Seq<char> {
    "keyword"@
}

/// Some stored value belongs to extension `e` and setting `s`.
pub open spec fn has_pair(vals: Seq<ExtensionValueView>, e: Seq<char>, s: Seq<char>) -> bool {
    exists|i: int|
        0 <= i < vals.len() && (#[trigger] vals[i]).extension_id == e && vals[i].setting_id == s
}

/// Appends `(e, s, v)` unless a value for `(e, s)` is already stored.
pub open spec fn add_if_missing(
    vals: Seq<ExtensionValueView>,
    e: Seq<char>,
    s: Seq<char>,
    v: Seq<char>,
) -> Seq<ExtensionValueView> {
    if has_pair(vals, e, s) {
        vals
    } else {
        vals.push(ExtensionValueView { extension_id: e, setting_id: s, value: v })
    }
}

/// The declared settings of extension `e`, taken in order.
pub open spec fn add_declared(
    vals: Seq<ExtensionValueView>,
    e: Seq<char>,
    settings: Seq<crate::extensions::Setting>,
) -> Seq<ExtensionValueView>
    decreases settings.len(),
{
    if settings.len() == 0 {
        vals
    } else {
        add_if_missing(
            add_declared(vals, e, settings.drop_last()),
            e,
            settings.last().id@,
            settings.last().value@,
        )
    }
}

/// One extension: its declared settings, then its keyword with an empty value.
pub open spec fn add_extension(vals: Seq<ExtensionValueView>, ext: Extension) -> Seq<ExtensionValueView> {
    add_if_missing(add_declared(vals, ext.id@, ext.settings@), ext.id@, keyword_setting(), Seq::empty())
}

/// The stored values after reconciling with the extensions, in order.
pub open spec fn reconciled(vals: Seq<ExtensionValueView>, exts: Seq<Extension>) -> Seq<ExtensionValueView>
    decreases exts.len(),
{
    if exts.len() == 0 {
        vals
    } else {
        add_extension(reconciled(vals, exts.drop_last()), exts.last())
    }
}

/// Every pair that the extensions declare, and each one's keyword, is stored.
pub open spec fn covers(vals: Seq<ExtensionValueView>, exts: Seq<Extension>) -> bool {
    forall|k: int|
        0 <= k < exts.len() ==> {
            &&& has_pair(vals, (#[trigger] exts[k]).id@, keyword_setting())
            &&& forall|j: int|
                0 <= j < exts[k].settings@.len() ==> has_pair(
                    vals,
                    exts[k].id@,
                    (#[trigger] exts[k].settings@[j]).id@,
                )
        }
}

/// Whether a stored value belongs to `(e, s)`.
fn contains_pair(values: &Vec<ExtensionValue>, e: &String, s: &String) -> (r: bool)
    ensures
        r == has_pair(values_view(values@), e@, s@),
{
    let ghost vals = values_view(values@);
    let mut i: usize = 0;
    while i < values.len()
        invariant
            i <= values.len(),
            vals == values_view(values@),
            forall|j: int| 0 <= j < i ==> !(vals[j].extension_id == e@ && vals[j].setting_id == s@),
        decreases values.len() - i,
    {
        if values[i].extension_id == *e && values[i].setting_id == *s {
            assert(vals[i as int].extension_id == e@ && vals[i as int].setting_id == s@);
            return true;
        }
        i = i + 1;
    }
    false
}

fn push_if_missing(values: &mut Vec<ExtensionValue>, e: &String, s: &String, v: &String)
    ensures
        values_view(final(values)@) == add_if_missing(values_view(old(values)@), e@, s@, v@),
{
    if !contains_pair(values, e, s) {
        values.push(ExtensionValue { extension_id: e.clone(), setting_id: s.clone(), value: v.clone() });
        assert(values_view(values@) =~= values_view(old(values)@).push(
            ExtensionValueView { extension_id: e@, setting_id: s@, value: v@ },
        ));
    }
}

/// Adds to the stored values, for each extension in order, each declared
/// setting that has no value yet (with the declared default) and then the
/// keyword setting (empty) if it has none. Nothing else in `settings` changes.
pub fn reconcile_extension_values(settings: &mut Settings, extensions: &Vec<Extension>)
    ensures
        values_view(final(settings).extension_values@) == reconciled(
            values_view(old(settings).extension_values@),
            extensions@,
        ),
        *final(settings) == (Settings { extension_values: final(settings).extension_values, ..*old(settings) }),
{
    let ghost start = values_view(settings.extension_values@);
    let keyword = "keyword".to_owned();
    let empty = String::new();
    let mut k: usize = 0;
    while k < extensions.len()
        invariant
            k <= extensions.len(),
            keyword@ == keyword_setting(),
            empty@ == Seq::<char>::empty(),
            values_view(settings.extension_values@) == reconciled(start, extensions@.subrange(0, k as int)),
            *settings == (Settings { extension_values: settings.extension_values, ..*old(settings) }),
            start == values_view(old(settings).extension_values@),
        decreases extensions.len() - k,
    {
        let ext = &extensions[k];
        let ghost before = values_view(settings.extension_values@);
        let mut j: usize = 0;
        while j < ext.settings.len()
            invariant
                j <= ext.settings.len(),
                ext == extensions@[k as int],
                values_view(settings.extension_values@) == add_declared(before, ext.id@, ext.settings@.subrange(0, j as int)),
                *settings == (Settings { extension_values: settings.extension_values, ..*old(settings) }),
            decreases ext.settings.len() - j,
        {
            let setting = &ext.settings[j];
            push_if_missing(&mut settings.extension_values, &ext.id, &setting.id, &setting.value);
            assert(ext.settings@.subrange(0, j + 1).drop_last() =~= ext.settings@.subrange(0, j as int));
            j = j + 1;
        }
        assert(ext.settings@.subrange(0, ext.settings.len() as int) =~= ext.settings@);
        push_if_missing(&mut settings.extension_values, &ext.id, &keyword, &empty);
        assert(extensions@.subrange(0, k + 1).drop_last() =~= extensions@.subrange(0, k as int));
        k = k + 1;
    }
    assert(extensions@.subrange(0, extensions.len() as int) =~= extensions@);
}

// ---------------------------------------------------------------------
// Laws of reconciliation
// ---------------------------------------------------------------------

/// `w` starts with all of `v`, unchanged.
pub open spec fn is_prefix(v: Seq<ExtensionValueView>, w: Seq<ExtensionValueView>) -> bool {
    v.len() <= w.len() && forall|i: int| 0 <= i < v.len() ==> w[i] == v[i]
}

proof fn lemma_prefix_has_pair(v: Seq<ExtensionValueView>, w: Seq<ExtensionValueView>, e: Seq<char>, s: Seq<char>)
    requires
        is_prefix(v, w),
        has_pair(v, e, s),
    ensures
        has_pair(w, e, s),
{
    let i = choose|i: int| 0 <= i < v.len() && (#[trigger] v[i]).extension_id == e && v[i].setting_id == s;
    assert(w[i] == v[i]);
}

proof fn lemma_add_if_missing(vals: Seq<ExtensionValueView>, e: Seq<char>, s: Seq<char>, v: Seq<char>)
    ensures
        is_prefix(vals, add_if_missing(vals, e, s, v)),
        has_pair(add_if_missing(vals, e, s, v), e, s),
{
    if !has_pair(vals, e, s) {
        let w = add_if_missing(vals, e, s, v);
        assert(w[vals.len() as int].extension_id == e && w[vals.len() as int].setting_id == s);
    }
}

proof fn lemma_add_declared(vals: Seq<ExtensionValueView>, e: Seq<char>, ss: Seq<crate::extensions::Setting>)
    ensures
        is_prefix(vals, add_declared(vals, e, ss)),
        forall|j: int| 0 <= j < ss.len() ==> has_pair(add_declared(vals, e, ss), e, (#[trigger] ss[j]).id@),
    decreases ss.len(),
{
    if ss.len() > 0 {
        let rest = add_declared(vals, e, ss.drop_last());
        let w = add_declared(vals, e, ss);
        lemma_add_declared(vals, e, ss.drop_last());
        lemma_add_if_missing(rest, e, ss.last().id@, ss.last().value@);
        assert forall|j: int| 0 <= j < ss.len() implies has_pair(w, e, (#[trigger] ss[j]).id@) by {
            if j < ss.len() - 1 {
                assert(ss.drop_last()[j] == ss[j]);
                lemma_prefix_has_pair(rest, w, e, ss[j].id@);
            }
        }
    }
}

proof fn lemma_declared_noop(vals: Seq<ExtensionValueView>, e: Seq<char>, ss: Seq<crate::extensions::Setting>)
    requires
        forall|j: int| 0 <= j < ss.len() ==> has_pair(vals, e, (#[trigger] ss[j]).id@),
    ensures
        add_declared(vals, e, ss) == vals,
    decreases ss.len(),
{
    if ss.len() > 0 {
        assert forall|j: int| 0 <= j < ss.drop_last().len() implies has_pair(vals, e, (#[trigger] ss.drop_last()[j]).id@) by {
            assert(ss.drop_last()[j] == ss[j]);
        }
        lemma_declared_noop(vals, e, ss.drop_last());
        assert(has_pair(vals, e, ss[ss.len() - 1].id@));
    }
}

proof fn lemma_reconciled(vals: Seq<ExtensionValueView>, exts: Seq<Extension>)
    ensures
        is_prefix(vals, reconciled(vals, exts)),
        covers(reconciled(vals, exts), exts),
    decreases exts.len(),
{
    if exts.len() > 0 {
        let prev = reconciled(vals, exts.drop_last());
        let ext = exts.last();
        let mid = add_declared(prev, ext.id@, ext.settings@);
        let w = reconciled(vals, exts);
        lemma_reconciled(vals, exts.drop_last());
        lemma_add_declared(prev, ext.id@, ext.settings@);
        lemma_add_if_missing(mid, ext.id@, keyword_setting(), Seq::empty());
        assert forall|k: int| 0 <= k < exts.len() implies {
            &&& has_pair(w, (#[trigger] exts[k]).id@, keyword_setting())
            &&& forall|j: int|
                0 <= j < exts[k].settings@.len() ==> has_pair(
                    w,
                    exts[k].id@,
                    (#[trigger] exts[k].settings@[j]).id@,
                )
        } by {
            if k < exts.len() - 1 {
                assert(exts.drop_last()[k] == exts[k]);
                lemma_prefix_has_pair(prev, w, exts[k].id@, keyword_setting());
                assert forall|j: int| 0 <= j < exts[k].settings@.len() implies has_pair(
                    w,
                    exts[k].id@,
                    (#[trigger] exts[k].settings@[j]).id@,
                ) by {
                    lemma_prefix_has_pair(prev, w, exts[k].id@, exts[k].settings@[j].id@);
                }
            } else {
                assert forall|j: int| 0 <= j < exts[k].settings@.len() implies has_pair(
                    w,
                    exts[k].id@,
                    (#[trigger] exts[k].settings@[j]).id@,
                ) by {
                    lemma_prefix_has_pair(mid, w, exts[k].id@, exts[k].settings@[j].id@);
                }
            }
        }
    }
}

proof fn lemma_covered_noop(vals: Seq<ExtensionValueView>, exts: Seq<Extension>)
    requires
        covers(vals, exts),
    ensures
        reconciled(vals, exts) == vals,
    decreases exts.len(),
{
    if exts.len() > 0 {
        let last = exts.len() - 1;
        assert forall|k: int| 0 <= k < exts.drop_last().len() implies {
            &&& has_pair(vals, (#[trigger] exts.drop_last()[k]).id@, keyword_setting())
            &&& forall|j: int|
                0 <= j < exts.drop_last()[k].settings@.len() ==> has_pair(
                    vals,
                    exts.drop_last()[k].id@,
                    (#[trigger] exts.drop_last()[k].settings@[j]).id@,
                )
        } by {
            assert(exts.drop_last()[k] == exts[k]);
        }
        lemma_covered_noop(vals, exts.drop_last());
        assert(has_pair(vals, exts[last].id@, keyword_setting()));
        assert forall|j: int| 0 <= j < exts[last].settings@.len() implies has_pair(
            vals,
            exts[last].id@,
            (#[trigger] exts[last].settings@[j]).id@,
        ) by {}
        lemma_declared_noop(vals, exts[last].id@, exts[last].settings@);
    }
}

/// Reconciling a second time with the same extensions changes nothing.
pub proof fn reconcile_is_idempotent(vals: Seq<ExtensionValueView>, exts: Seq<Extension>)
    ensures
        reconciled(reconciled(vals, exts), exts) == reconciled(vals, exts),
{
    lemma_reconciled(vals, exts);
    lemma_covered_noop(reconciled(vals, exts), exts);
}

/// Reconciliation only appends: every stored value stays where it was, with
/// its value, and the value found for any pair that was already stored is
/// the same afterwards.
pub proof fn reconcile_keeps_stored_values(
    vals: Seq<ExtensionValueView>,
    exts: Seq<Extension>,
    e: Seq<char>,
    s: Seq<char>,
)
    ensures
        is_prefix(vals, reconciled(vals, exts)),
        lookup_value(vals, e, s) is Some ==> lookup_value(reconciled(vals, exts), e, s) == lookup_value(vals, e, s),
{
    lemma_reconciled(vals, exts);
    let w = reconciled(vals, exts);
    if lookup_value(vals, e, s) is Some {
        let i = choose|i: int| is_first_value(vals, e, s, i);
        assert(is_first_value(w, e, s, i));
        assert forall|k: int| is_first_value(w, e, s, k) implies k == i by {
            if k < i {
                assert(w[k] == vals[k]);
            } else if k > i {
                assert(w[i] == vals[i]);
            }
        }
        assert forall|k: int| is_first_value(vals, e, s, k) implies k == i by {
            if k < i {
                assert(!(vals[k].extension_id == e && vals[k].setting_id == s));
            } else if k > i {
                assert(vals[i].extension_id == e && vals[i].setting_id == s);
            }
        }
    }
}

/// After reconciliation every extension has a stored keyword, even one that
/// declares no settings, and a stored value for each setting it declares.
pub proof fn reconcile_covers_every_extension(vals: Seq<ExtensionValueView>, exts: Seq<Extension>)
    ensures
        covers(reconciled(vals, exts), exts),
        forall|k: int| 0 <= k < exts.len() ==> has_pair(reconciled(vals, exts), (#[trigger] exts[k]).id@, keyword_setting()),
{
    lemma_reconciled(vals, exts);
}

/// No two stored values belong to the same extension and setting.
pub open spec fn pairs_unique(vals: Seq<ExtensionValueView>) -> bool {
    forall|i: int, j: int|
        0 <= i < j < vals.len() ==> !((#[trigger] vals[i]).extension_id == (#[trigger] vals[j]).extension_id
            && vals[i].setting_id == vals[j].setting_id)
}

proof fn lemma_add_if_missing_unique(vals: Seq<ExtensionValueView>, e: Seq<char>, s: Seq<char>, v: Seq<char>)
    requires
        pairs_unique(vals),
    ensures
        pairs_unique(add_if_missing(vals, e, s, v)),
{
    if !has_pair(vals, e, s) {
        let w = add_if_missing(vals, e, s, v);
        assert forall|i: int, j: int| 0 <= i < j < w.len() implies !((#[trigger] w[i]).extension_id
            == (#[trigger] w[j]).extension_id && w[i].setting_id == w[j].setting_id) by {
            if j == vals.len() {
                assert(w[i] == vals[i]);
            } else {
                assert(w[i] == vals[i] && w[j] == vals[j]);
            }
        }
    }
}

proof fn lemma_add_declared_unique(vals: Seq<ExtensionValueView>, e: Seq<char>, ss: Seq<crate::extensions::Setting>)
    requires
        pairs_unique(vals),
    ensures
        pairs_unique(add_declared(vals, e, ss)),
    decreases ss.len(),
{
    if ss.len() > 0 {
        lemma_add_declared_unique(vals, e, ss.drop_last());
        lemma_add_if_missing_unique(add_declared(vals, e, ss.drop_last()), e, ss.last().id@, ss.last().value@);
    }
}

/// Reconciliation never stores a second value for a pair: starting from a
/// store without duplicates, each pair that the extensions declare ends up
/// with exactly one value.
pub proof fn reconcile_keeps_pairs_unique(vals: Seq<ExtensionValueView>, exts: Seq<Extension>)
    requires
        pairs_unique(vals),
    ensures
        pairs_unique(reconciled(vals, exts)),
    decreases exts.len(),
{
    if exts.len() > 0 {
        let prev = reconciled(vals, exts.drop_last());
        let ext = exts.last();
        reconcile_keeps_pairs_unique(vals, exts.drop_last());
        lemma_add_declared_unique(prev, ext.id@, ext.settings@);
        lemma_add_if_missing_unique(add_declared(prev, ext.id@, ext.settings@), ext.id@, keyword_setting(), Seq::empty());
    }
}

} // verus!
