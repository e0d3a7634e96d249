//! The check of the target at the construction of a codegen context: the
//! target's name must be that of a SPIR-V target, and its specification
//! must be the one that the code generator has built in.

use vstd::prelude::*;
use crate::diag::{Diagnostic, DiagnosticView, Level};
use crate::text::{concat2, has_prefix, starts_with};

verus! {

/// A JSON value, as `serde_json` holds it.
#[verifier::external_type_specification]
#[verifier::external_body]
pub struct ExJsonValue(serde_json::Value);

/// Why a text is not JSON, as `serde_json` tells it.
#[verifier::external_type_specification]
#[verifier::external_body]
pub struct ExJsonError(serde_json::Error);

/// What `text` holds as JSON, or why it is none.
pub uninterp spec fn json_of(text: Seq<char>) -> Result<serde_json::Value, serde_json::Error>;

/// Whether the two JSON values are equal.
pub uninterp spec fn json_same(a: serde_json::Value, b: serde_json::Value) -> bool;

/// The keys of the JSON object `v`, in the order in which it is walked;
/// none where `v` is no object.
pub uninterp spec fn json_keys(v: serde_json::Value) -> Seq<Seq<char>>;

/// Whether the two JSON values have equal members under the key `key`, or
/// both have none.
pub uninterp spec fn json_member_same(a: serde_json::Value, b: serde_json::Value, key: Seq<char>)
    -> bool;

/// The JSON value written out over several lines.
pub uninterp spec fn json_pretty(v: serde_json::Value) -> Seq<char>;

/// The text `s` as its `Debug` impl writes it: in quotes, with escapes.
pub uninterp spec fn debug_text(s: Seq<char>) -> Seq<char>;

/// `serde_json::from_str` for a `Value`. The contract names the result.
#[verifier::external_body]
pub(crate) fn json_from_str(text: &str) -> (r: Result<serde_json::Value, serde_json::Error>)
    ensures
        r == json_of(text@),
{
    serde_json::from_str(text)
}

/// `==` on `serde_json::Value`. The contract names the result.
#[verifier::external_body]
pub(crate) fn json_equal(a: &serde_json::Value, b: &serde_json::Value) -> (r: bool)
    ensures
        r == json_same(*a, *b),
{
    a == b
}

/// `serde_json::Value::as_object` and the keys of the map it gives. The
/// contract names the result.
#[verifier::external_body]
pub(crate) fn json_object_keys(v: &serde_json::Value) -> (r: Vec<String>)
    ensures
        r.deep_view() == json_keys(*v),
{
    v.as_object().into_iter().flat_map(|obj| obj.keys()).cloned().collect()
}

/// `serde_json::Value::get` on both values, and `==` on what it gives.
/// The contract names the result.
#[verifier::external_body]
pub(crate) fn json_member_equal(a: &serde_json::Value, b: &serde_json::Value, key: &str) -> (r:
    bool)
    ensures
        r == json_member_same(*a, *b, key@),
{
    a.get(key) == b.get(key)
}

/// `Display` of `serde_json::Value` in its alternate form. The contract
/// names the result.
#[verifier::external_body]
pub(crate) fn json_to_pretty(v: &serde_json::Value) -> (r: String)
    ensures
        r@ == json_pretty(*v),
{
    format!("{:#}", v)
}

/// `Debug` of `str`. The contract names the result.
#[verifier::external_body]
pub(crate) fn debug_quote(s: &str) -> (r: String)
    ensures
        r@ == debug_text(s@),
{
    format!("{:?}", s)
}

/// The items of `items` without those that occurred before, in order.
pub open spec fn unique_spec(items: Seq<Seq<char>>) -> Seq<Seq<char>>
    decreases items.len(),
{
    if items.len() == 0 {
        Seq::empty()
    } else {
        let before = unique_spec(items.drop_last());
        if before.contains(items.last()) {
            before
        } else {
            before.push(items.last())
        }
    }
}

/// `itertools::Itertools::unique` on a list of texts: each text stays
/// where it first occurs, and its later occurrences are left out.
#[verifier::external_body]
pub(crate) fn unique(items: Vec<String>) -> (r: Vec<String>)
    ensures
        r.deep_view() == unique_spec(items.deep_view()),
{
    itertools::Itertools::unique(items.into_iter()).collect()
}

/// The items of `items` written one after the other, with `sep` between
/// them.
pub open spec fn join_spec(items: Seq<Seq<char>>, sep: Seq<char>) -> Seq<char>
    decreases items.len(),
{
    if items.len() == 0 {
        Seq::empty()
    } else if items.len() == 1 {
        items[0]
    } else {
        join_spec(items.drop_last(), sep) + sep + items.last()
    }
}

/// `itertools::Itertools::join` on a list of texts: the texts written one
/// after the other, with `sep` between them.
#[verifier::external_body]
pub(crate) fn join(items: &Vec<String>, sep: &str) -> (r: String)
    ensures
        r@ == join_spec(items.deep_view(), sep@),
{
    itertools::Itertools::join(&mut items.iter(), sep)
}

/// How the target was named to the compiler.
#[derive(Clone, Debug, PartialEq, Eq)]
pub enum TargetTuple {
    /// By its name alone.
    TargetTuple,
    /// By a file with its specification: the path as it is shown, and the
    /// file's contents.
    TargetJson { path_for_rustdoc: String, contents: String },
}

/// What the host knows of the target.
#[derive(Debug, PartialEq, Eq)]
pub struct TargetInfo {
    /// The name of the target.
    pub tuple: String,
    pub triple: TargetTuple,
    /// The specification that the code generator has built in for the
    /// target of that name, as JSON text.
    pub expected_spec: String,
    /// The specification that the host holds for the target, as JSON text.
    pub found_spec: String,
    /// The width of a pointer of the target, in bits.
    pub pointer_size_bits: u32,
    /// The version of SPIR-V that the target asks for.
    pub spirv_version: (u8, u8),
    /// The names of the features that the target is built with, in no
    /// particular order.
    pub target_features: Vec<String>,
}

/// The fatal report of a target that is not supported, which is one
/// whose name does not start with `spirv-`.
pub open spec fn unsupported_target(tuple: Seq<char>) -> DiagnosticView {
    DiagnosticView {
        level: Level::Fatal,
        span: None,
        message: "non-SPIR-V target `"@ + tuple + "` not supported by `rustc_codegen_spirv`"@,
        notes: Seq::empty(),
        helps: Seq::empty(),
    }
}

/// The fatal report of a specification that is no JSON.
pub open spec fn not_json(tuple: Seq<char>) -> DiagnosticView {
    DiagnosticView {
        level: Level::Fatal,
        span: None,
        message: "target spec of `"@ + tuple + "` is not valid JSON"@,
        notes: Seq::empty(),
        helps: Seq::empty(),
    }
}

/// The keys among `keys[..k]` under which the two JSON values differ.
pub open spec fn differing(
    expected: serde_json::Value,
    found: serde_json::Value,
    keys: Seq<Seq<char>>,
    k: nat,
) -> Seq<Seq<char>>
    decreases k,
{
    if k == 0 {
        Seq::empty()
    } else {
        let before = differing(expected, found, keys, (k - 1) as nat);
        if json_member_same(expected, found, keys[k - 1]) {
            before
        } else {
            before.push(keys[k - 1])
        }
    }
}

/// The keys under which the two JSON objects differ: those of the
/// expected one first, then those that only the found one has.
pub open spec fn diff_keys(expected: serde_json::Value, found: serde_json::Value) -> Seq<
    Seq<char>,
> {
    let all = unique_spec(json_keys(expected) + json_keys(found));
    differing(expected, found, all, all.len())
}

/// The texts of `items`, each as its `Debug` impl writes it.
pub open spec fn quoted(items: Seq<Seq<char>>) -> Seq<Seq<char>> {
    Seq::new(items.len(), |i: int| debug_text(items[i]))
}

/// The fatal report of a target whose specification is not the one that is
/// built in: it shows both, and names the keys under which they differ.
pub open spec fn mismatched_spec(
    target: &TargetInfo,
    expected: serde_json::Value,
    found: serde_json::Value,
) -> DiagnosticView {
    DiagnosticView {
        level: Level::Fatal,
        span: None,
        message: "mismatched `"@ + target.tuple@ + "` target spec"@,
        notes: seq![
            "expected (built into `rustc_codegen_spirv`):\n"@ + json_pretty(expected),
            match target.triple {
                TargetTuple::TargetJson { path_for_rustdoc, contents } => if path_for_rustdoc@.len()
                    > 0 {
                    "found (`"@ + path_for_rustdoc@ + "`):\n"@ + contents@
                } else {
                    "found:\n"@ + json_pretty(found)
                },
                TargetTuple::TargetTuple => "found:\n"@ + json_pretty(found),
            },
        ],
        helps: seq![
            "mismatched properties: "@ + join_spec(quoted(diff_keys(expected, found)), ", "@),
        ],
    }
}

/// The text of the specification that the host holds: the contents of the
/// file where the target was named by one.
pub open spec fn found_text(target: &TargetInfo) -> Seq<char> {
    match target.triple {
        TargetTuple::TargetJson { contents, .. } => contents@,
        TargetTuple::TargetTuple => target.found_spec@,
    }
}

/// What the check of a target comes to: `None` where the target is
/// supported and its specification is the one built in, else the fatal
/// report.
pub open spec fn target_verdict(target: &TargetInfo) -> Option<DiagnosticView> {
    if !has_prefix(target.tuple@, "spirv-"@) {
        Some(unsupported_target(target.tuple@))
    } else {
        match (json_of(target.expected_spec@), json_of(found_text(target))) {
            (Ok(expected), Ok(found)) => if json_same(expected, found) {
                None
            } else {
                Some(mismatched_spec(target, expected, found))
            },
            _ => Some(not_json(target.tuple@)),
        }
    }
}

/// The keys under which the two JSON objects differ.
pub fn find_diff_keys(expected: &serde_json::Value, found: &serde_json::Value) -> (r: Vec<String>)
    ensures
        r.deep_view() == diff_keys(*expected, *found),
{
    let mut keys = json_object_keys(expected);
    let more = json_object_keys(found);
    let ghost first = keys.deep_view();
    let ghost second = more.deep_view();
    let mut i: usize = 0;
    assert(first + second.subrange(0, 0) =~= first);
    while i < more.len()
        invariant
            i <= more.len(),
            second == more.deep_view(),
            keys.deep_view() == first + second.subrange(0, i as int),
        decreases more.len() - i,
    {
        assert(second[i as int] == more@[i as int]@);
        let k = more[i].clone();
        let ghost kv = keys.deep_view();
        keys.push(k);
        assert(keys.deep_view() =~= kv.push(k@));
        assert(keys.deep_view() =~= first + second.subrange(0, i + 1));
        i += 1;
    }
    assert(second.subrange(0, more.len() as int) =~= second);
    let all = unique(keys);
    let ghost av = all.deep_view();
    let mut out: Vec<String> = Vec::new();
    let mut j: usize = 0;
    assert(out.deep_view() =~= Seq::<Seq<char>>::empty());
    while j < all.len()
        invariant
            j <= all.len(),
            av == all.deep_view(),
            out.deep_view() == differing(*expected, *found, av, j as nat),
        decreases all.len() - j,
    {
        assert(av[j as int] == all@[j as int]@);
        if !json_member_equal(expected, found, all[j].as_str()) {
            let k = all[j].clone();
            let ghost ov = out.deep_view();
            out.push(k);
            assert(out.deep_view() =~= ov.push(k@));
        }
        j += 1;
    }
    out
}

/// The texts of `items`, each as its `Debug` impl writes it.
pub fn quote_all(items: &Vec<String>) -> (r: Vec<String>)
    ensures
        r.deep_view() == quoted(items.deep_view()),
{
    let mut out: Vec<String> = Vec::new();
    let mut i: usize = 0;
    while i < items.len()
        invariant
            i <= items.len(),
            out.len() == i,
            forall|j: int| 0 <= j < i ==> out@[j]@ == debug_text(items@[j]@),
        decreases items.len() - i,
    {
        out.push(debug_quote(items[i].as_str()));
        i += 1;
    }
    assert(out.deep_view() =~= quoted(items.deep_view()));
    out
}

/// Checks the target: its name must start with `spirv-`, and its
/// specification must be the one that is built in for the name. Returns
/// the fatal report of a target that fails the check.
pub fn check_target(target: &TargetInfo) -> (r: Option<Diagnostic>)
    ensures
        r.deep_view() == target_verdict(target),
{
    if !starts_with(target.tuple.as_str(), "spirv-") {
        let msg = concat2("non-SPIR-V target `", target.tuple.as_str()).concat(
            "` not supported by `rustc_codegen_spirv`",
        );
        return Some(Diagnostic::new(Level::Fatal, None, msg));
    }
    let found_text = match &target.triple {
        TargetTuple::TargetJson { contents, .. } => contents.as_str(),
        TargetTuple::TargetTuple => target.found_spec.as_str(),
    };
    let expected = match json_from_str(target.expected_spec.as_str()) {
        Ok(v) => v,
        Err(_) => {
            return Some(bad_json(target.tuple.as_str()));
        },
    };
    let found = match json_from_str(found_text) {
        Ok(v) => v,
        Err(_) => {
            return Some(bad_json(target.tuple.as_str()));
        },
    };
    if json_equal(&expected, &found) {
        return None;
    }
    let keys = find_diff_keys(&expected, &found);
    let names = quote_all(&keys);
    let expected_text = json_to_pretty(&expected);
    let note_expected = concat2(
        "expected (built into `rustc_codegen_spirv`):\n",
        expected_text.as_str(),
    );
    let shown = match &target.triple {
        TargetTuple::TargetJson { path_for_rustdoc, contents } => {
            if path_for_rustdoc.as_str().unicode_len() > 0 {
                Some(
                    concat2("found (`", path_for_rustdoc.as_str()).concat("`):\n").concat(
                        contents.as_str(),
                    ),
                )
            } else {
                None
            }
        },
        TargetTuple::TargetTuple => None,
    };
    let note_found = match shown {
        Some(text) => text,
        None => {
            let found_pretty = json_to_pretty(&found);
            concat2("found:\n", found_pretty.as_str())
        },
    };
    let listed = join(&names, ", ");
    let help = concat2("mismatched properties: ", listed.as_str());
    let d = Diagnostic {
        level: Level::Fatal,
        span: None,
        message: concat2("mismatched `", target.tuple.as_str()).concat("` target spec"),
        notes: vec![note_expected, note_found],
        helps: vec![help],
    };
    proof {
        let want = mismatched_spec(target, expected, found);
        assert(d.notes.deep_view() =~= want.notes);
        assert(d.helps.deep_view() =~= want.helps);
    }
    Some(d)
}

/// The fatal report of a specification that is no JSON.
fn bad_json(tuple: &str) -> (r: Diagnostic)
    ensures
        r@ == not_json(tuple@),
{
    Diagnostic::new(
        Level::Fatal,
        None,
        concat2("target spec of `", tuple).concat("` is not valid JSON"),
    )
}

} // verus!
