//! The features that a target is built with: extensions and capabilities
//! of SPIR-V, given by name and read in the order of their names.

use vstd::prelude::*;
use crate::enumerants::{enumerant_value, parse_enumerant};
use crate::grammar::OperandKind;
use crate::text::{concat2, has_prefix, starts_with, suffix_from};

verus! {

/// One feature of a target.
#[derive(Clone, Debug, PartialEq, Eq)]
pub enum TargetFeature {
    /// An extension, by its name.
    Extension(String),
    /// A capability, by its number.
    Capability(u32),
}

/// The mathematical content of a [`TargetFeature`].
pub enum FeatureView {
    Extension(Seq<char>),
    Capability(u32),
}

impl View for TargetFeature {
    type V = FeatureView;

    open spec fn view(&self) -> FeatureView {
        match self {
            TargetFeature::Extension(name) => FeatureView::Extension(name@),
            TargetFeature::Capability(number) => FeatureView::Capability(*number),
        }
    }
}

impl DeepView for TargetFeature {
    type V = FeatureView;

    open spec fn deep_view(&self) -> FeatureView {
        self@
    }
}

/// Whether the text `a` comes before the text `b`: at the first place
/// where they differ, `a` has the character with the lower code point, or
/// `a` ends there and `b` does not.
pub open spec fn text_before(a: Seq<char>, b: Seq<char>) -> bool
    decreases a.len(),
{
    if b.len() == 0 {
        false
    } else if a.len() == 0 {
        true
    } else if (a[0] as u32) != (b[0] as u32) {
        (a[0] as u32) < (b[0] as u32)
    } else {
        text_before(a.drop_first(), b.drop_first())
    }
}

/// Tells whether the text `a` comes before the text `b`.
pub fn comes_before(a: &str, b: &str) -> (r: bool)
    ensures
        r == text_before(a@, b@),
{
    let n = a.unicode_len();
    let m = b.unicode_len();
    let mut i: usize = 0;
    assert(a@.subrange(0, n as int) =~= a@);
    assert(b@.subrange(0, m as int) =~= b@);
    while i < n && i < m
        invariant
            i <= n,
            i <= m,
            n == a@.len(),
            m == b@.len(),
            text_before(a@, b@) == text_before(
                a@.subrange(i as int, n as int),
                b@.subrange(i as int, m as int),
            ),
        decreases n - i,
    {
        let ghost ra = a@.subrange(i as int, n as int);
        let ghost rb = b@.subrange(i as int, m as int);
        assert(ra[0] == a@[i as int]);
        assert(rb[0] == b@[i as int]);
        assert(ra.drop_first() =~= a@.subrange(i + 1, n as int));
        assert(rb.drop_first() =~= b@.subrange(i + 1, m as int));
        let x = a.get_char(i);
        let y = b.get_char(i);
        if (x as u32) != (y as u32) {
            return (x as u32) < (y as u32);
        }
        i += 1;
    }
    i < m
}

/// The names `sorted`, with `name` put after the last of them that it does
/// not come before.
pub open spec fn placed(sorted: Seq<Seq<char>>, name: Seq<char>) -> Seq<Seq<char>>
    decreases sorted.len(),
{
    if sorted.len() > 0 && text_before(name, sorted.last()) {
        placed(sorted.drop_last(), name).push(sorted.last())
    } else {
        sorted.push(name)
    }
}

/// The first `k` of the names, in order: each is put in its place among
/// those before it.
pub open spec fn in_order(names: Seq<Seq<char>>, k: nat) -> Seq<Seq<char>>
    decreases k,
{
    if k == 0 || k > names.len() {
        Seq::empty()
    } else {
        placed(in_order(names, (k - 1) as nat), names[k - 1])
    }
}

/// Placing a name makes the names one more.
pub proof fn lemma_placed_len(sorted: Seq<Seq<char>>, name: Seq<char>)
    ensures
        placed(sorted, name).len() == sorted.len() + 1,
    decreases sorted.len(),
{
    if sorted.len() > 0 && text_before(name, sorted.last()) {
        lemma_placed_len(sorted.drop_last(), name);
    }
}

/// As many names are in order as there were.
pub proof fn lemma_in_order_len(names: Seq<Seq<char>>, k: nat)
    requires
        k <= names.len(),
    ensures
        in_order(names, k).len() == k,
    decreases k,
{
    if k > 0 {
        lemma_in_order_len(names, (k - 1) as nat);
        lemma_placed_len(in_order(names, (k - 1) as nat), names[k - 1]);
    }
}

/// A name is placed at the position after which every name comes after
/// it, and before which the nearest one does not.
pub proof fn lemma_placed_at(sorted: Seq<Seq<char>>, name: Seq<char>, j: int)
    requires
        0 <= j <= sorted.len(),
        forall|t: int| j <= t < sorted.len() ==> text_before(name, #[trigger] sorted[t]),
        j > 0 ==> !text_before(name, sorted[j - 1]),
    ensures
        placed(sorted, name) == sorted.insert(j, name),
    decreases sorted.len(),
{
    if j == sorted.len() {
        assert(sorted.push(name) =~= sorted.insert(j, name));
    } else {
        assert(text_before(name, sorted[sorted.len() - 1]));
        lemma_placed_at(sorted.drop_last(), name, j);
        assert(sorted.drop_last().insert(j, name).push(sorted.last()) =~= sorted.insert(j, name));
    }
}

/// Whether none of the names comes before one that stands before it.
pub open spec fn ascending(names: Seq<Seq<char>>) -> bool {
    forall|i: int, j: int|
        0 <= i < j < names.len() ==> !text_before(#[trigger] names[j], #[trigger] names[i])
}

/// Whether `name` comes before none of the names.
pub open spec fn after_all(name: Seq<char>, names: Seq<Seq<char>>) -> bool {
    forall|i: int| 0 <= i < names.len() ==> !text_before(name, #[trigger] names[i])
}

/// Of two texts, one at most comes before the other.
pub proof fn lemma_before_one_way(a: Seq<char>, b: Seq<char>)
    requires
        text_before(a, b),
    ensures
        !text_before(b, a),
    decreases a.len(),
{
    if a.len() > 0 && b.len() > 0 && (a[0] as u32) == (b[0] as u32) {
        lemma_before_one_way(a.drop_first(), b.drop_first());
    }
}

/// A text that comes before `a` comes before every text that does not
/// come before `a`.
pub proof fn lemma_before_carries(x: Seq<char>, a: Seq<char>, b: Seq<char>)
    requires
        text_before(x, a),
        !text_before(b, a),
    ensures
        text_before(x, b),
    decreases x.len(),
{
    if x.len() > 0 && b.len() > 0 && (x[0] as u32) == (a[0] as u32) && (b[0] as u32) == (
    a[0] as u32) {
        lemma_before_carries(x.drop_first(), a.drop_first(), b.drop_first());
    }
}

/// Placing a name among names in ascending order leaves them in ascending
/// order, and what came before none of them and not before the name still
/// comes before none.
pub proof fn lemma_placed_ascending(sorted: Seq<Seq<char>>, name: Seq<char>, top: Seq<char>)
    requires
        ascending(sorted),
    ensures
        ascending(placed(sorted, name)),
        after_all(top, sorted) && !text_before(top, name) ==> after_all(
            top,
            placed(sorted, name),
        ),
    decreases sorted.len(),
{
    let after = placed(sorted, name);
    if sorted.len() > 0 && text_before(name, sorted.last()) {
        let init = sorted.drop_last();
        let last = sorted.last();
        assert forall|i: int, j: int| 0 <= i < j < init.len() implies !text_before(
            #[trigger] init[j],
            #[trigger] init[i],
        ) by {
            assert(!text_before(sorted[j], sorted[i]));
        }
        lemma_placed_ascending(init, name, last);
        lemma_placed_ascending(init, name, top);
        lemma_before_one_way(name, last);
        assert forall|i: int| 0 <= i < init.len() implies !text_before(
            last,
            #[trigger] init[i],
        ) by {
            assert(!text_before(sorted[sorted.len() - 1], sorted[i]));
        }
        let inner = placed(init, name);
        assert forall|i: int, j: int| 0 <= i < j < after.len() implies !text_before(
            #[trigger] after[j],
            #[trigger] after[i],
        ) by {
            if j < inner.len() {
                assert(!text_before(inner[j], inner[i]));
            } else {
                assert(!text_before(last, inner[i]));
            }
        }
        if after_all(top, sorted) && !text_before(top, name) {
            assert forall|i: int| 0 <= i < init.len() implies !text_before(
                top,
                #[trigger] init[i],
            ) by {
                assert(!text_before(top, sorted[i]));
            }
            assert forall|i: int| 0 <= i < after.len() implies !text_before(
                top,
                #[trigger] after[i],
            ) by {
                if i < inner.len() {
                    assert(!text_before(top, inner[i]));
                } else {
                    assert(!text_before(top, sorted[sorted.len() - 1]));
                }
            }
        }
    } else {
        assert forall|i: int, j: int| 0 <= i < j < after.len() implies !text_before(
            #[trigger] after[j],
            #[trigger] after[i],
        ) by {
            if j < sorted.len() {
                assert(!text_before(sorted[j], sorted[i]));
            } else if text_before(name, sorted[i]) {
                assert(!text_before(sorted[sorted.len() - 1], sorted[i])) by {
                    if i < sorted.len() - 1 {
                        assert(!text_before(sorted[sorted.len() - 1], sorted[i]));
                    } else {
                        lemma_before_one_way(name, sorted[i]);
                    }
                }
                lemma_before_carries(name, sorted[i], sorted.last());
            }
        }
        if after_all(top, sorted) && !text_before(top, name) {
            assert forall|i: int| 0 <= i < after.len() implies !text_before(
                top,
                #[trigger] after[i],
            ) by {
                if i < sorted.len() {
                    assert(!text_before(top, sorted[i]));
                }
            }
        }
    }
}

/// The names in order are in ascending order.
pub proof fn lemma_in_order_ascending(names: Seq<Seq<char>>, k: nat)
    requires
        k <= names.len(),
    ensures
        ascending(in_order(names, k)),
    decreases k,
{
    if k > 0 {
        lemma_in_order_ascending(names, (k - 1) as nat);
        lemma_placed_ascending(in_order(names, (k - 1) as nat), names[k - 1], names[k - 1]);
    }
}

/// The names in order are the names that there were, each as often.
pub proof fn lemma_in_order_same_names(names: Seq<Seq<char>>, k: nat)
    requires
        k <= names.len(),
    ensures
        in_order(names, k).to_multiset() == names.subrange(0, k as int).to_multiset(),
    decreases k,
{
    broadcast use vstd::seq_lib::group_to_multiset_ensures;

    if k > 0 {
        lemma_in_order_same_names(names, (k - 1) as nat);
        lemma_placed_same_names(in_order(names, (k - 1) as nat), names[k - 1]);
        assert(names.subrange(0, k as int) =~= names.subrange(0, k - 1).push(names[k - 1]));
    } else {
        assert(names.subrange(0, 0) =~= Seq::<Seq<char>>::empty());
        assert(in_order(names, 0) =~= Seq::<Seq<char>>::empty());
    }
}

/// Placing a name adds that name, and no other.
pub proof fn lemma_placed_same_names(sorted: Seq<Seq<char>>, name: Seq<char>)
    ensures
        placed(sorted, name).to_multiset() == sorted.to_multiset().insert(name),
    decreases sorted.len(),
{
    broadcast use vstd::seq_lib::group_to_multiset_ensures;

    if sorted.len() > 0 && text_before(name, sorted.last()) {
        lemma_placed_same_names(sorted.drop_last(), name);
        assert(sorted.drop_last().push(sorted.last()) =~= sorted);
        assert(placed(sorted, name).to_multiset() =~= sorted.to_multiset().insert(name));
    }
}

/// The names in order.
pub fn sort_names(names: &Vec<String>) -> (r: Vec<String>)
    ensures
        r.deep_view() == in_order(names.deep_view(), names.len() as nat),
        r.len() == names.len(),
{
    let mut out: Vec<String> = Vec::new();
    let mut i: usize = 0;
    assert(out.deep_view() =~= Seq::<Seq<char>>::empty());
    while i < names.len()
        invariant
            i <= names.len(),
            out.len() == i,
            out.deep_view() == in_order(names.deep_view(), i as nat),
        decreases names.len() - i,
    {
        let name = names[i].clone();
        assert(name@ == names.deep_view()[i as int]);
        let mut j: usize = out.len();
        while j > 0 && comes_before(name.as_str(), out[j - 1].as_str())
            invariant
                j <= out.len(),
                forall|t: int|
                    j <= t < out.len() ==> text_before(name@, #[trigger] out.deep_view()[t]),
            decreases j,
        {
            assert(out.deep_view()[j - 1] == out@[j - 1]@);
            j -= 1;
        }
        proof {
            if j > 0 {
                assert(out.deep_view()[j - 1] == out@[j - 1]@);
            }
            lemma_placed_at(out.deep_view(), name@, j as int);
        }
        let ghost before = out.deep_view();
        let ghost text = name@;
        out.insert(j, name);
        assert(out.deep_view() =~= before.insert(j as int, text));
        i += 1;
    }
    out
}

/// The report of a capability that has no such name.
pub open spec fn invalid_capability(name: Seq<char>) -> Seq<char> {
    "Invalid Capability: `"@ + name + "`"@
}

/// The feature that `name` names: the extension named after `ext:`, or
/// else the capability of that name; a name of neither is reported.
pub open spec fn feature_of(name: Seq<char>) -> Result<FeatureView, Seq<char>> {
    if has_prefix(name, "ext:"@) {
        Ok(FeatureView::Extension(name.subrange(4, name.len() as int)))
    } else {
        match enumerant_value(OperandKind::Capability, name) {
            Some(number) => Ok(FeatureView::Capability(number)),
            None => Err(invalid_capability(name)),
        }
    }
}

/// Reads a feature from its name.
pub fn parse_feature(name: &str) -> (r: Result<TargetFeature, String>)
    ensures
        match feature_of(name@) {
            Ok(f) => r is Ok && r->Ok_0@ == f,
            Err(e) => r is Err && r->Err_0@ == e,
        },
{
    proof {
        reveal_strlit("ext:");
    }
    if starts_with(name, "ext:") {
        Ok(TargetFeature::Extension(suffix_from(name, 4)))
    } else {
        match parse_enumerant(OperandKind::Capability, name) {
            Some(number) => Ok(TargetFeature::Capability(number)),
            None => Err(concat2("Invalid Capability: `", name).concat("`")),
        }
    }
}

/// The features that the first `k` of the names name, or the report of
/// the first name that names none.
pub open spec fn features_of(names: Seq<Seq<char>>, k: nat) -> Result<
    Seq<FeatureView>,
    Seq<char>,
>
    decreases k,
{
    if k == 0 || k > names.len() {
        Ok(Seq::empty())
    } else {
        match features_of(names, (k - 1) as nat) {
            Err(e) => Err(e),
            Ok(found) => match feature_of(names[k - 1]) {
                Err(e) => Err(e),
                Ok(f) => Ok(found.push(f)),
            },
        }
    }
}

/// The report of a name that names no feature stays the result, whatever
/// names follow.
pub proof fn lemma_first_report_stays(names: Seq<Seq<char>>, k: nat, more: nat)
    requires
        k <= more <= names.len(),
        features_of(names, k) is Err,
    ensures
        features_of(names, more) == features_of(names, k),
    decreases more,
{
    if k < more {
        lemma_first_report_stays(names, k, (more - 1) as nat);
    }
}

/// Reads the features from their names, in the order given.
pub fn parse_features(names: &Vec<String>) -> (r: Result<Vec<TargetFeature>, String>)
    ensures
        match features_of(names.deep_view(), names.len() as nat) {
            Ok(found) => r is Ok && r->Ok_0.deep_view() == found,
            Err(e) => r is Err && r->Err_0@ == e,
        },
{
    let mut out: Vec<TargetFeature> = Vec::new();
    let mut i: usize = 0;
    assert(out.deep_view() =~= Seq::<FeatureView>::empty());
    while i < names.len()
        invariant
            i <= names.len(),
            features_of(names.deep_view(), i as nat) == Ok::<Seq<FeatureView>, Seq<char>>(
                out.deep_view(),
            ),
        decreases names.len() - i,
    {
        assert(names.deep_view()[i as int] == names@[i as int]@);
        match parse_feature(names[i].as_str()) {
            Err(e) => {
                proof {
                    lemma_first_report_stays(
                        names.deep_view(),
                        (i + 1) as nat,
                        names.len() as nat,
                    );
                }
                return Err(e);
            },
            Ok(f) => {
                let ghost before = out.deep_view();
                let ghost fv = f@;
                out.push(f);
                assert(out.deep_view() =~= before.push(fv));
            },
        }
        i += 1;
    }
    Ok(out)
}

/// What the features of a target come to: the features that its names
/// name, read in the order of the names, or none of them and the report
/// of the first name that names none.
pub open spec fn target_features_of(names: Seq<Seq<char>>) -> Result<Seq<FeatureView>, Seq<char>> {
    features_of(in_order(names, names.len()), names.len())
}

} // verus!
