//! Fetched pipeline-binaries records: the raw nested bplist is always
//! available; compiled stages and performance statistics are parsed on
//! demand.
//!
//! The nested payload is an `NSKeyedArchiver` bplist, not a plain one:
//! decoding it as a property list gives back the archive's envelope
//! (`$version`/`$archiver`/`$top`/`$objects`), with every object reference
//! left as a UID and every `NSDictionary`/`NSArray` in its on-disk shape (an
//! `NS.keys`/`NS.objects` pair, or an `NS.objects`-only array). The
//! unarchiver here walks that graph and resolves it into a plain,
//! self-contained dictionary.

use crate::hl::bytes::Payload;
use crate::hl::error::Error;
use crate::replay::archive::{
    PValue, PlistDict, PlistValue, clone_bytes, clone_string, clone_value, decode_plist, dict_get,
    dict_insert, lemma_array_view, lemma_dict_view, pitems, plist_decoding,
};
use crate::replay::util::{decimal, decimal_text};
use vstd::prelude::*;
use vstd::string::*;

verus! {

broadcast use vstd::std_specs::vec::group_vec_axioms;

/// How deep an `NSKeyedArchiver` UID indirection may nest before the
/// unarchiver gives up: a defensive bound against a malformed or cyclic
/// object graph, never approached by a real payload.
pub const MAX_ARCHIVE_DEPTH: usize = 64;

/// The error text for a graph nested deeper than [`MAX_ARCHIVE_DEPTH`].
pub open spec fn too_deep_text() -> Seq<char> {
    "archived object graph too deep (possible cycle)"@
}

/// One node of the archived object graph, resolved at nesting `depth`: a UID
/// is followed to its `$objects` entry; an `NS.keys`/`NS.objects` dictionary
/// becomes a plain dictionary and an `NS.objects`-only one a plain array,
/// their members resolved one level deeper; every other value stands for
/// itself.
pub open spec fn unarchive(objects: Seq<PValue>, v: PValue, depth: int) -> Result<PValue, Seq<char>>
    decreases MAX_ARCHIVE_DEPTH + 1 - depth, 1int, 0int,
{
    if depth > MAX_ARCHIVE_DEPTH {
        Err(too_deep_text())
    } else {
        match v {
            PValue::Uid(u) => if u > usize::MAX {
                Err("UID out of range"@)
            } else if u >= objects.len() {
                Err("UID "@ + decimal(u as nat) + " out of bounds"@)
            } else {
                unarchive(objects, objects[u as int], depth + 1)
            },
            PValue::Dictionary(entries) => match dict_get(entries, "NS.objects"@) {
                Some(PValue::Array(vals)) => match dict_get(entries, "NS.keys"@) {
                    Some(PValue::Array(keys)) => if keys.len() != vals.len() {
                        Err("NS.keys/NS.objects length mismatch"@)
                    } else {
                        match unarchive_pairs(objects, keys, vals, 0, depth, Seq::empty()) {
                            Ok(out) => Ok(PValue::Dictionary(out)),
                            Err(m) => Err(m),
                        }
                    },
                    _ => match unarchive_items(objects, vals, 0, depth, Seq::empty()) {
                        Ok(out) => Ok(PValue::Array(out)),
                        Err(m) => Err(m),
                    },
                },
                _ => Ok(v),
            },
            _ => Ok(v),
        }
    }
}

/// The members of an archived dictionary at nesting `depth`, from pair `i`
/// on, inserted into `acc`: each key resolves (one level deeper) to a
/// string, then its value resolves; a later key replaces an earlier one's
/// value in place.
pub open spec fn unarchive_pairs(
    objects: Seq<PValue>,
    keys: Seq<PValue>,
    vals: Seq<PValue>,
    i: int,
    depth: int,
    acc: Seq<(Seq<char>, PValue)>,
) -> Result<Seq<(Seq<char>, PValue)>, Seq<char>>
    decreases MAX_ARCHIVE_DEPTH + 1 - depth, 0int, keys.len() - i,
{
    if i < 0 || i >= keys.len() || depth > MAX_ARCHIVE_DEPTH {
        Ok(acc)
    } else {
        match unarchive(objects, keys[i], depth + 1) {
            Err(m) => Err(m),
            Ok(PValue::String(k)) => match unarchive(objects, vals[i], depth + 1) {
                Err(m) => Err(m),
                Ok(x) => unarchive_pairs(objects, keys, vals, i + 1, depth, dict_insert(acc, k, x)),
            },
            Ok(_) => Err("a dictionary key is not a string"@),
        }
    }
}

/// The members of an archived array at nesting `depth`, from item `i` on,
/// appended to `acc`, each resolved one level deeper.
pub open spec fn unarchive_items(
    objects: Seq<PValue>,
    items: Seq<PValue>,
    i: int,
    depth: int,
    acc: Seq<PValue>,
) -> Result<Seq<PValue>, Seq<char>>
    decreases MAX_ARCHIVE_DEPTH + 1 - depth, 0int, items.len() - i,
{
    if i < 0 || i >= items.len() || depth > MAX_ARCHIVE_DEPTH {
        Ok(acc)
    } else {
        match unarchive(objects, items[i], depth + 1) {
            Err(m) => Err(m),
            Ok(x) => unarchive_items(objects, items, i + 1, depth, acc.push(x)),
        }
    }
}

/// The top-level dictionary a decoded keyed archive wraps, fully resolved;
/// the `Err` text names the first thing found missing or malformed.
pub open spec fn spec_unarchive_envelope(root: PValue) -> Result<Seq<(Seq<char>, PValue)>, Seq<char>> {
    match root {
        PValue::Dictionary(envelope) => match dict_get(envelope, "$objects"@) {
            Some(PValue::Array(objects)) => match dict_get(envelope, "$top"@) {
                Some(PValue::Dictionary(top)) => match dict_get(top, "root"@) {
                    Some(root_ref) => match unarchive(objects, root_ref, 0) {
                        Err(m) => Err(m),
                        Ok(PValue::Dictionary(d)) => Ok(d),
                        Ok(_) => Err("archived root is not a dictionary"@),
                    },
                    None => Err("no $top.root"@),
                },
                _ => Err("no $top dictionary"@),
            },
            _ => Err("no $objects array"@),
        },
        _ => Err("root is not a dictionary"@),
    }
}

/// The top-level dictionary a keyed-archive bplist wraps, fully resolved;
/// the `Err` text is the property-list decoder's, or names the first thing
/// found missing or malformed.
pub open spec fn spec_unarchive_root(bytes: Seq<u8>) -> Result<Seq<(Seq<char>, PValue)>, Seq<char>> {
    match plist_decoding(bytes) {
        Err(m) => Err(m),
        Ok(root) => spec_unarchive_envelope(root),
    }
}

/// Resolving a node follows every UID it starts with: what comes out is
/// never itself an object reference.
pub proof fn lemma_unarchive_resolves_references(objects: Seq<PValue>, v: PValue, depth: int)
    ensures
        unarchive(objects, v, depth) matches Ok(x) ==> !(x is Uid),
    decreases MAX_ARCHIVE_DEPTH + 1 - depth,
{
    if depth <= MAX_ARCHIVE_DEPTH {
        if let PValue::Uid(u) = v {
            if u <= usize::MAX && u < objects.len() {
                lemma_unarchive_resolves_references(objects, objects[u as int], depth + 1);
            }
        }
    }
}

fn bad(msg: &str) -> (e: Error)
    ensures
        e matches Error::BadPipeline(s) && s@ == msg@,
{
    Error::BadPipeline(String::from_str(msg))
}

/// Resolve one node of the archived object graph (see [`unarchive`]).
fn unarchive_value(objects: &Vec<PlistValue>, v: &PlistValue, depth: usize) -> (r: Result<
    PlistValue,
    Error,
>)
    ensures
        match r {
            Ok(x) => unarchive(pitems(objects@), v@, depth as int) == Ok::<PValue, Seq<char>>(x@),
            Err(e) => e matches Error::BadPipeline(s) && unarchive(pitems(objects@), v@, depth as int)
                == Err::<PValue, Seq<char>>(s@),
        },
    decreases MAX_ARCHIVE_DEPTH + 1 - depth, 1int,
{
    let ghost objs = pitems(objects@);
    if depth > MAX_ARCHIVE_DEPTH {
        return Err(bad("archived object graph too deep (possible cycle)"));
    }
    match v {
        PlistValue::Uid(uid) => {
            if *uid > usize::MAX as u64 {
                return Err(bad("UID out of range"));
            }
            let idx = *uid as usize;
            if idx >= objects.len() {
                let s = String::from_str("UID ").concat(decimal_text(*uid).as_str()).concat(
                    " out of bounds",
                );
                return Err(Error::BadPipeline(s));
            }
            assert(objs[idx as int] == objects@[idx as int]@);
            unarchive_value(objects, &objects[idx], depth + 1)
        },
        PlistValue::Dictionary(d) => {
            proof {
                lemma_dict_view(*d);
            }
            let vals = match d.get("NS.objects") {
                Some(o) => match o.as_array() {
                    Some(a) => a,
                    None => return Ok(clone_value(v)),
                },
                None => return Ok(clone_value(v)),
            };
            let ghost vs = pitems(vals@);
            match d.get("NS.keys") {
                Some(ko) => match ko.as_array() {
                    Some(keys) => {
                        if keys.len() != vals.len() {
                            return Err(bad("NS.keys/NS.objects length mismatch"));
                        }
                        let ghost ks = pitems(keys@);
                        let mut out = PlistDict::new();
                        let mut i: usize = 0;
                        while i < keys.len()
                            invariant
                                depth <= MAX_ARCHIVE_DEPTH,
                                objs == pitems(objects@),
                                ks == pitems(keys@),
                                vs == pitems(vals@),
                                keys@.len() == vals@.len(),
                                i <= keys@.len(),
                                unarchive(objs, v@, depth as int) == match unarchive_pairs(
                                    objs,
                                    ks,
                                    vs,
                                    0,
                                    depth as int,
                                    Seq::empty(),
                                ) {
                                    Ok(out) => Ok(PValue::Dictionary(out)),
                                    Err(m) => Err(m),
                                },
                                unarchive_pairs(objs, ks, vs, 0, depth as int, Seq::empty())
                                    == unarchive_pairs(objs, ks, vs, i as int, depth as int, out@),
                            decreases keys@.len() - i,
                        {
                            assert(ks[i as int] == keys@[i as int]@);
                            assert(vs[i as int] == vals@[i as int]@);
                            let key = match unarchive_value(objects, &keys[i], depth + 1) {
                                Ok(k) => k,
                                Err(e) => return Err(e),
                            };
                            let name = match key.as_string() {
                                Some(s) => clone_string(s),
                                None => return Err(bad("a dictionary key is not a string")),
                            };
                            let value = match unarchive_value(objects, &vals[i], depth + 1) {
                                Ok(x) => x,
                                Err(e) => return Err(e),
                            };
                            out.insert(name, value);
                            i = i + 1;
                        }
                        proof {
                            lemma_dict_view(out);
                        }
                        Ok(PlistValue::Dictionary(out))
                    },
                    None => unarchive_array(objects, vals, depth),
                },
                None => unarchive_array(objects, vals, depth),
            }
        },
        _ => Ok(clone_value(v)),
    }
}

/// Resolve the members of an `NS.objects`-only archived array.
fn unarchive_array(objects: &Vec<PlistValue>, vals: &Vec<PlistValue>, depth: usize) -> (r: Result<
    PlistValue,
    Error,
>)
    requires
        depth <= MAX_ARCHIVE_DEPTH,
    ensures
        match r {
            Ok(x) => unarchive_items(pitems(objects@), pitems(vals@), 0, depth as int, Seq::empty())
                == Ok::<Seq<PValue>, Seq<char>>(x@->Array_0) && x@ is Array,
            Err(e) => e matches Error::BadPipeline(s) && unarchive_items(
                pitems(objects@),
                pitems(vals@),
                0,
                depth as int,
                Seq::empty(),
            ) == Err::<Seq<PValue>, Seq<char>>(s@),
        },
    decreases MAX_ARCHIVE_DEPTH + 1 - depth, 0int,
{
    let ghost objs = pitems(objects@);
    let ghost vs = pitems(vals@);
    let mut out: Vec<PlistValue> = Vec::new();
    let mut i: usize = 0;
    assert(pitems(out@) =~= Seq::<PValue>::empty());
    while i < vals.len()
        invariant
            depth <= MAX_ARCHIVE_DEPTH,
            objs == pitems(objects@),
            vs == pitems(vals@),
            i <= vals@.len(),
            unarchive_items(objs, vs, 0, depth as int, Seq::empty()) == unarchive_items(
                objs,
                vs,
                i as int,
                depth as int,
                pitems(out@),
            ),
        decreases vals@.len() - i,
    {
        assert(vs[i as int] == vals@[i as int]@);
        let x = match unarchive_value(objects, &vals[i], depth + 1) {
            Ok(x) => x,
            Err(e) => return Err(e),
        };
        let ghost before = pitems(out@);
        let ghost xv = x@;
        out.push(x);
        assert(pitems(out@) =~= before.push(xv));
        i = i + 1;
    }
    proof {
        lemma_array_view(out);
    }
    Ok(PlistValue::Array(out))
}

/// Decode the top-level `NSDictionary` a keyed-archive bplist wraps into a
/// plain, self-contained dictionary (see [`spec_unarchive_root`]).
fn unarchive_root(bytes: &[u8]) -> (r: Result<PlistDict, Error>)
    ensures
        match r {
            Ok(d) => spec_unarchive_root(bytes@) == Ok::<Seq<(Seq<char>, PValue)>, Seq<char>>(d@),
            Err(e) => e matches Error::BadPipeline(s) && spec_unarchive_root(bytes@) == Err::<
                Seq<(Seq<char>, PValue)>,
                Seq<char>,
            >(s@),
        },
{
    let root = match decode_plist(bytes) {
        Ok(v) => v,
        Err(m) => return Err(Error::BadPipeline(m)),
    };
    unarchive_envelope(&root)
}

/// Resolve the top-level dictionary of a decoded keyed archive (see
/// [`spec_unarchive_envelope`]).
pub fn unarchive_envelope(root: &PlistValue) -> (r: Result<PlistDict, Error>)
    ensures
        match r {
            Ok(d) => spec_unarchive_envelope(root@) == Ok::<Seq<(Seq<char>, PValue)>, Seq<char>>(d@),
            Err(e) => e matches Error::BadPipeline(s) && spec_unarchive_envelope(root@) == Err::<
                Seq<(Seq<char>, PValue)>,
                Seq<char>,
            >(s@),
        },
{
    let envelope = match root.as_dictionary() {
        Some(d) => d,
        None => return Err(bad("root is not a dictionary")),
    };
    let objects = match envelope.get("$objects") {
        Some(v) => match v.as_array() {
            Some(a) => a,
            None => return Err(bad("no $objects array")),
        },
        None => return Err(bad("no $objects array")),
    };
    let top = match envelope.get("$top") {
        Some(v) => match v.as_dictionary() {
            Some(t) => t,
            None => return Err(bad("no $top dictionary")),
        },
        None => return Err(bad("no $top dictionary")),
    };
    let root_ref = match top.get("root") {
        Some(v) => v,
        None => return Err(bad("no $top.root")),
    };
    let resolved = unarchive_value(objects, root_ref, 0)?;
    match resolved {
        PlistValue::Dictionary(d) => {
            proof {
                lemma_dict_view(d);
            }
            Ok(d)
        },
        _ => Err(bad("archived root is not a dictionary")),
    }
}

/// The kind of a pipeline stage.
#[derive(Debug, Clone, PartialEq, Eq)]
pub enum StageKind {
    /// A vertex stage.
    Vertex,
    /// A fragment stage.
    Fragment,
    /// A compute stage.
    Compute,
    /// A stage keyed by a name this decoder does not otherwise recognise.
    Other(String),
}

/// One compiled pipeline stage.
#[derive(Debug, Clone)]
pub struct Stage {
    /// Which stage this is.
    pub kind: StageKind,
    /// The compiled GPU binary (a Mach-O container, magic `cf fa ed fe`).
    pub mach_o: Vec<u8>,
    /// The per-function id (`uniqueId`), also indexing the statistics.
    pub unique_id: u64,
}

/// What a stage holds: its kind, binary and id.
pub open spec fn stage_view(s: Stage) -> (StageKind, Seq<u8>, u64) {
    (s.kind, s.mach_o@, s.unique_id)
}

/// One `{data, uniqueId}` entry of the stage array keyed `key`: its binary,
/// and its id (0 when absent or not an unsigned integer).
pub open spec fn stage_entry(key: Seq<char>, e: PValue) -> Result<(Seq<u8>, u64), Seq<char>> {
    match e {
        PValue::Dictionary(s) => match dict_get(s, "data"@) {
            Some(PValue::Data(x)) => Ok(
                (
                    x,
                    match dict_get(s, "uniqueId"@) {
                        Some(PValue::Integer(_, Some(u))) => u,
                        _ => 0,
                    },
                ),
            ),
            _ => Err(key + ".data missing"@),
        },
        _ => Err(key + "[] entry not a dict"@),
    }
}

/// The entries of the stage array keyed `key`, in order, tagged `kind`; the
/// first malformed entry is the error.
pub open spec fn stage_entries(key: Seq<char>, kind: StageKind, arr: Seq<PValue>) -> Result<
    Seq<(StageKind, Seq<u8>, u64)>,
    Seq<char>,
>
    decreases arr.len(),
{
    if arr.len() == 0 {
        Ok(Seq::empty())
    } else {
        match stage_entries(key, kind, arr.drop_last()) {
            Err(m) => Err(m),
            Ok(prefix) => match stage_entry(key, arr.last()) {
                Err(m) => Err(m),
                Ok((x, id)) => Ok(prefix.push((kind, x, id))),
            },
        }
    }
}

/// The stages the pipeline dictionary lists under `key`: none when the key
/// is absent or not an array.
pub open spec fn keyed_stages(dict: Seq<(Seq<char>, PValue)>, key: Seq<char>, kind: StageKind) -> Result<
    Seq<(StageKind, Seq<u8>, u64)>,
    Seq<char>,
> {
    match dict_get(dict, key) {
        Some(PValue::Array(arr)) => stage_entries(key, kind, arr),
        _ => Ok(Seq::empty()),
    }
}

/// All stages of a pipeline dictionary: the `vertex`, then `fragment`, then
/// `compute` entries.
pub open spec fn spec_stages(dict: Seq<(Seq<char>, PValue)>) -> Result<
    Seq<(StageKind, Seq<u8>, u64)>,
    Seq<char>,
> {
    match keyed_stages(dict, "vertex"@, StageKind::Vertex) {
        Err(m) => Err(m),
        Ok(v) => match keyed_stages(dict, "fragment"@, StageKind::Fragment) {
            Err(m) => Err(m),
            Ok(f) => match keyed_stages(dict, "compute"@, StageKind::Compute) {
                Err(m) => Err(m),
                Ok(c) => Ok(v + f + c),
            },
        },
    }
}

/// How many entries the pipeline dictionary lists under `key`: the length
/// of the array there; none when the key is absent or holds no array.
pub open spec fn listed_under(dict: Seq<(Seq<char>, PValue)>, key: Seq<char>) -> nat {
    match dict_get(dict, key) {
        Some(PValue::Array(a)) => a.len(),
        _ => 0,
    }
}

/// Entry `i` of the array the dictionary lists under `key` is a dictionary
/// whose `data` is the bytes `x` and whose id is `id` (see
/// [`entry_holds_data`]).
pub open spec fn listed_data(dict: Seq<(Seq<char>, PValue)>, key: Seq<char>, i: int, x: Seq<u8>, id: u64) -> bool {
    match dict_get(dict, key) {
        Some(PValue::Array(a)) => 0 <= i < a.len() && entry_holds_data(a[i], x, id),
        _ => false,
    }
}

/// A stage entry that is a dictionary whose `data` is the bytes `x`, and
/// whose `uniqueId` is `id` when it holds an unsigned integer (`id` is 0
/// otherwise).
pub open spec fn entry_holds_data(e: PValue, x: Seq<u8>, id: u64) -> bool {
    match e {
        PValue::Dictionary(s) => dict_get(s, "data"@) == Some(PValue::Data(x)) && match dict_get(
            s,
            "uniqueId"@,
        ) {
            Some(PValue::Integer(_, Some(u))) => id == u,
            _ => id == 0,
        },
        _ => false,
    }
}

proof fn lemma_stage_entries(key: Seq<char>, kind: StageKind, arr: Seq<PValue>)
    ensures
        stage_entries(key, kind, arr) matches Ok(l) ==> l.len() == arr.len() && forall|i: int|
            0 <= i < l.len() ==> (#[trigger] l[i]).0 == kind && entry_holds_data(arr[i], l[i].1, l[i].2),
    decreases arr.len(),
{
    if arr.len() > 0 {
        lemma_stage_entries(key, kind, arr.drop_last());
        if let Ok(l) = stage_entries(key, kind, arr) {
            let prefix = stage_entries(key, kind, arr.drop_last())->Ok_0;
            assert forall|i: int| 0 <= i < l.len() implies (#[trigger] l[i]).0 == kind
                && entry_holds_data(arr[i], l[i].1, l[i].2) by {
                if i < l.len() - 1 {
                    assert(l[i] == prefix[i]);
                    assert(arr[i] == arr.drop_last()[i]);
                }
            }
        }
    }
}

/// Each stage carries the kind named by the key it is listed under, and the
/// binary and id of the entry it came from: the `vertex` entries come first, as
/// vertex stages, then the `fragment` entries, as fragment stages, then the
/// `compute` entries, as compute stages, each in its array's order.
pub proof fn lemma_stage_kinds(dict: Seq<(Seq<char>, PValue)>)
    ensures
        spec_stages(dict) matches Ok(list) ==> {
            let nv = listed_under(dict, "vertex"@) as int;
            let nf = listed_under(dict, "fragment"@) as int;
            let nc = listed_under(dict, "compute"@) as int;
            &&& list.len() == nv + nf + nc
            &&& forall|i: int|
                0 <= i < nv ==> (#[trigger] list[i]).0 == StageKind::Vertex && listed_data(
                    dict,
                    "vertex"@,
                    i,
                    list[i].1,
                    list[i].2,
                )
            &&& forall|i: int|
                nv <= i < nv + nf ==> (#[trigger] list[i]).0 == StageKind::Fragment && listed_data(
                    dict,
                    "fragment"@,
                    i - nv,
                    list[i].1,
                    list[i].2,
                )
            &&& forall|i: int|
                nv + nf <= i < list.len() ==> (#[trigger] list[i]).0 == StageKind::Compute
                    && listed_data(dict, "compute"@, i - nv - nf, list[i].1, list[i].2)
        },
{
    if let Ok(list) = spec_stages(dict) {
        let v = keyed_stages(dict, "vertex"@, StageKind::Vertex)->Ok_0;
        let f = keyed_stages(dict, "fragment"@, StageKind::Fragment)->Ok_0;
        let c = keyed_stages(dict, "compute"@, StageKind::Compute)->Ok_0;
        if let Some(PValue::Array(a)) = dict_get(dict, "vertex"@) {
            lemma_stage_entries("vertex"@, StageKind::Vertex, a);
        }
        if let Some(PValue::Array(a)) = dict_get(dict, "fragment"@) {
            lemma_stage_entries("fragment"@, StageKind::Fragment, a);
        }
        if let Some(PValue::Array(a)) = dict_get(dict, "compute"@) {
            lemma_stage_entries("compute"@, StageKind::Compute, a);
        }
        assert(list == v + f + c);
        assert forall|i: int| 0 <= i < list.len() implies #[trigger] list[i] == (if i < v.len() {
            v[i]
        } else if i < v.len() + f.len() {
            f[i - v.len()]
        } else {
            c[i - v.len() - f.len()]
        }) by {}
    }
}

/// The statistics are the one dictionary the `PerformanceStatistics` array
/// holds: they are found exactly when that array holds a single dictionary,
/// and are then that dictionary.
pub proof fn lemma_stats_single(dict: Seq<(Seq<char>, PValue)>)
    ensures
        spec_stats(dict) matches Ok(d) ==> dict_get(dict, "PerformanceStatistics"@) == Some(
            PValue::Array(seq![PValue::Dictionary(d)]),
        ),
        forall|d: Seq<(Seq<char>, PValue)>|
            dict_get(dict, "PerformanceStatistics"@) == Some(PValue::Array(seq![PValue::Dictionary(d)]))
                ==> #[trigger] spec_stats(dict) == Ok::<Seq<(Seq<char>, PValue)>, Seq<char>>(d),
{
    if let Ok(d) = spec_stats(dict) {
        if let Some(PValue::Array(arr)) = dict_get(dict, "PerformanceStatistics"@) {
            assert(arr =~= seq![PValue::Dictionary(d)]);
        }
    }
}

/// What the stages of a list hold.
pub open spec fn stage_views(s: Seq<Stage>) -> Seq<(StageKind, Seq<u8>, u64)> {
    Seq::new(s.len(), |i: int| stage_view(s[i]))
}

fn copy_known_kind(k: &StageKind) -> (r: StageKind)
    requires
        !(*k is Other),
    ensures
        r == *k,
{
    match k {
        StageKind::Vertex => StageKind::Vertex,
        StageKind::Fragment => StageKind::Fragment,
        _ => StageKind::Compute,
    }
}

/// Append the stages listed under `key` to `out`.
fn collect_stages(dict: &PlistDict, key: &str, kind: StageKind, out: &mut Vec<Stage>) -> (r: Result<
    (),
    Error,
>)
    requires
        !(kind is Other),
    ensures
        match keyed_stages(dict@, key@, kind) {
            Ok(list) => r is Ok && stage_views(final(out)@) == stage_views(old(out)@) + list,
            Err(m) => r matches Err(Error::BadPipeline(s)) && s@ == m,
        },
{
    let arr = match dict.get(key) {
        Some(v) => match v.as_array() {
            Some(a) => a,
            None => {
                assert(stage_views(out@) =~= stage_views(old(out)@) + Seq::empty());
                return Ok(());
            },
        },
        None => {
            assert(stage_views(out@) =~= stage_views(old(out)@) + Seq::empty());
            return Ok(());
        },
    };
    let ghost items = pitems(arr@);
    let ghost start = stage_views(old(out)@);
    let mut i: usize = 0;
    assert(items.take(0) =~= Seq::<PValue>::empty());
    assert(stage_views(out@) =~= start + Seq::empty());
    while i < arr.len()
        invariant
            items == pitems(arr@),
            !(kind is Other),
            i <= arr@.len(),
            start == stage_views(old(out)@),
            dict_get(dict@, key@) == Some(PValue::Array(items)),
            stage_entries(key@, kind, items.take(i as int)) matches Ok(list) && stage_views(out@)
                == start + list,
        decreases arr@.len() - i,
    {
        let ghost prev = stage_views(out@);
        assert(items.take(i as int + 1).drop_last() =~= items.take(i as int));
        assert(items.take(i as int + 1).last() == arr@[i as int]@);
        let s = match arr[i].as_dictionary() {
            Some(s) => s,
            None => {
                let m = String::from_str(key).concat("[] entry not a dict");
                proof {
                    lemma_stage_entries_err(key@, kind, items, i as int, m@);
                }
                return Err(Error::BadPipeline(m));
            },
        };
        let mach_o = match s.get("data") {
            Some(d) => match d.as_data() {
                Some(x) => clone_bytes(x),
                None => {
                    let m = String::from_str(key).concat(".data missing");
                    proof {
                        lemma_stage_entries_err(key@, kind, items, i as int, m@);
                    }
                    return Err(Error::BadPipeline(m));
                },
            },
            None => {
                let m = String::from_str(key).concat(".data missing");
                proof {
                    lemma_stage_entries_err(key@, kind, items, i as int, m@);
                }
                return Err(Error::BadPipeline(m));
            },
        };
        let unique_id = match s.get("uniqueId") {
            Some(u) => match u.as_unsigned_integer() {
                Some(n) => n,
                None => 0,
            },
            None => 0,
        };
        let k = copy_known_kind(&kind);
        out.push(Stage { kind: k, mach_o, unique_id });
        assert(stage_views(out@) =~= prev.push((kind, mach_o@, unique_id)));
        i = i + 1;
    }
    assert(items.take(arr@.len() as int) =~= items);
    Ok(())
}

/// A malformed entry at `i`, after well-formed ones, is the error of the
/// whole array.
proof fn lemma_stage_entries_err(key: Seq<char>, kind: StageKind, items: Seq<PValue>, i: int, m: Seq<char>)
    requires
        0 <= i < items.len(),
        stage_entries(key, kind, items.take(i)) is Ok,
        stage_entry(key, items[i]) == Err::<(Seq<u8>, u64), Seq<char>>(m),
    ensures
        stage_entries(key, kind, items) == Err::<Seq<(StageKind, Seq<u8>, u64)>, Seq<char>>(m),
    decreases items.len() - i,
{
    if i == items.len() - 1 {
        assert(items.drop_last() =~= items.take(i));
    } else {
        assert(items.drop_last().take(i) =~= items.take(i));
        lemma_stage_entries_err(key, kind, items.drop_last(), i, m);
    }
}

/// Parsed pipeline performance statistics (the `PerformanceStatistics`
/// entry).
#[derive(Debug)]
pub struct Stats {
    raw: PlistDict,
}

impl Stats {
    /// What the statistics dictionary holds.
    pub closed spec fn spec_raw(&self) -> Seq<(Seq<char>, PValue)> {
        self.raw@
    }

    /// The raw statistics dictionary (nothing dropped): per-stage compiler
    /// metrics, plus the raw optimization remarks.
    pub fn raw(&self) -> (r: &PlistDict)
        ensures
            r@ == self.spec_raw(),
    {
        &self.raw
    }
}

/// The text for a statistics array of other than one entry.
pub open spec fn stats_count_text(n: nat) -> Seq<char> {
    "PerformanceStatistics has "@ + decimal(n)
        + " entries; only the ground-truthed single-stage shape is supported"@
}

/// The statistics a pipeline dictionary holds: its `PerformanceStatistics`
/// array must hold exactly one dictionary.
pub open spec fn spec_stats(dict: Seq<(Seq<char>, PValue)>) -> Result<Seq<(Seq<char>, PValue)>, Seq<char>> {
    match dict_get(dict, "PerformanceStatistics"@) {
        Some(PValue::Array(arr)) => if arr.len() == 1 {
            match arr[0] {
                PValue::Dictionary(d) => Ok(d),
                _ => Err("PerformanceStatistics[0] not a dict"@),
            }
        } else {
            Err(stats_count_text(arr.len()))
        },
        _ => Err("no PerformanceStatistics"@),
    }
}

/// A fetched pipeline-binaries record: the raw nested bplist always, parsed
/// on demand.
pub struct Pipeline {
    pipeline_id: u32,
    handle: u64,
    payload: Payload,
}

impl Pipeline {
    /// The sequential pipeline id.
    pub closed spec fn spec_pipeline_id(&self) -> u32 {
        self.pipeline_id
    }

    /// The 64-bit pipeline handle.
    pub closed spec fn spec_handle(&self) -> u64 {
        self.handle
    }

    /// The nested bplist's bytes.
    pub closed spec fn spec_raw_bytes(&self) -> Seq<u8> {
        self.payload.spec_bytes()
    }

    /// Builds a `Pipeline` from a fetched record's id, handle and payload.
    pub fn from_parts(pipeline_id: u32, handle: u64, payload: Payload) -> (p: Pipeline)
        ensures
            p.spec_pipeline_id() == pipeline_id,
            p.spec_handle() == handle,
            p.spec_raw_bytes() == payload.spec_bytes(),
    {
        Pipeline { pipeline_id, handle, payload }
    }

    /// Sequential pipeline id.
    pub fn pipeline_id(&self) -> (r: u32)
        ensures
            r == self.spec_pipeline_id(),
    {
        self.pipeline_id
    }

    /// 64-bit pipeline handle.
    pub fn handle(&self) -> (r: u64)
        ensures
            r == self.spec_handle(),
    {
        self.handle
    }

    /// The raw nested bplist. Always available.
    pub fn raw_bytes(&self) -> (r: &[u8])
        ensures
            r@ == self.spec_raw_bytes(),
    {
        self.payload.bytes()
    }

    /// Parse the nested bplist into compiled stages (Mach-O + id): every
    /// `{data, uniqueId}` entry of the `vertex`, `fragment` and `compute`
    /// arrays, in that order. Other keys are skipped.
    pub fn stages(&self) -> (r: Result<Vec<Stage>, Error>)
        ensures
            match spec_unarchive_root(self.spec_raw_bytes()) {
                Err(m) => r matches Err(Error::BadPipeline(s)) && s@ == m,
                Ok(dict) => match spec_stages(dict) {
                    Ok(list) => r matches Ok(v) && stage_views(v@) == list,
                    Err(m) => r matches Err(Error::BadPipeline(s)) && s@ == m,
                },
            },
    {
        let dict = unarchive_root(self.raw_bytes())?;
        stages_of(&dict)
    }

    /// Parse the `PerformanceStatistics` entry (nothing dropped). Only the
    /// single-stage shape is supported: the array must hold exactly one
    /// dictionary, which becomes [`Stats::raw`].
    pub fn performance_stats(&self) -> (r: Result<Stats, Error>)
        ensures
            match spec_unarchive_root(self.spec_raw_bytes()) {
                Err(m) => r matches Err(Error::BadPipeline(s)) && s@ == m,
                Ok(dict) => match spec_stats(dict) {
                    Ok(d) => r matches Ok(st) && st.spec_raw() == d,
                    Err(m) => r matches Err(Error::BadPipeline(s)) && s@ == m,
                },
            },
    {
        let dict = unarchive_root(self.raw_bytes())?;
        stats_of(&dict)
    }
}

/// The compiled stages a resolved pipeline dictionary lists (see
/// [`spec_stages`]).
pub fn stages_of(dict: &PlistDict) -> (r: Result<Vec<Stage>, Error>)
    ensures
        match spec_stages(dict@) {
            Ok(list) => r matches Ok(v) && stage_views(v@) == list,
            Err(m) => r matches Err(Error::BadPipeline(s)) && s@ == m,
        },
{
    let mut stages: Vec<Stage> = Vec::new();
    assert(stage_views(stages@) =~= Seq::empty());
    collect_stages(dict, "vertex", StageKind::Vertex, &mut stages)?;
    collect_stages(dict, "fragment", StageKind::Fragment, &mut stages)?;
    collect_stages(dict, "compute", StageKind::Compute, &mut stages)?;
    Ok(stages)
}

/// The performance statistics a resolved pipeline dictionary holds (see
/// [`spec_stats`]).
pub fn stats_of(dict: &PlistDict) -> (r: Result<Stats, Error>)
    ensures
        match spec_stats(dict@) {
            Ok(d) => r matches Ok(st) && st.spec_raw() == d,
            Err(m) => r matches Err(Error::BadPipeline(s)) && s@ == m,
        },
{
    let arr = match dict.get("PerformanceStatistics") {
        Some(v) => match v.as_array() {
            Some(a) => a,
            None => return Err(bad("no PerformanceStatistics")),
        },
        None => return Err(bad("no PerformanceStatistics")),
    };
    if arr.len() != 1 {
        let n = decimal_text(arr.len() as u64);
        let m = String::from_str("PerformanceStatistics has ").concat(n.as_str()).concat(
            " entries; only the ground-truthed single-stage shape is supported",
        );
        return Err(Error::BadPipeline(m));
    }
    assert(pitems(arr@)[0] == arr@[0]@);
    match arr[0].as_dictionary() {
        Some(_) => {
            let c = clone_value(&arr[0]);
            match c {
                PlistValue::Dictionary(raw) => {
                    proof {
                        lemma_dict_view(raw);
                    }
                    Ok(Stats { raw })
                },
                _ => Err(bad("PerformanceStatistics[0] not a dict")),
            }
        },
        None => Err(bad("PerformanceStatistics[0] not a dict")),
    }
}

} // verus!
