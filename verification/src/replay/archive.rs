//! Property-list values as the library holds them, and the decoding of a
//! property list's bytes into one (through the `plist` crate).

use vstd::prelude::*;
use vstd::string::*;

verus! {

broadcast use vstd::std_specs::vec::group_vec_axioms;

/// A property-list value: every kind a binary plist can hold. Dictionary
/// entries keep the order they were read or inserted in; reals are held as
/// their IEEE-754 bit pattern and dates as their distance from the Unix
/// epoch.
#[derive(Debug)]
pub enum PlistValue {
    /// An array.
    Array(Vec<PlistValue>),
    /// A dictionary.
    Dictionary(PlistDict),
    /// A boolean.
    Boolean(bool),
    /// A data blob.
    Data(Vec<u8>),
    /// A date.
    Date(PlistDate),
    /// A real, as the bit pattern of its `f64`.
    Real(u64),
    /// An integer, as `i64` and as `u64` where each can represent it.
    Integer(Option<i64>, Option<u64>),
    /// A string.
    String(String),
    /// A keyed-archiver object reference.
    Uid(u64),
    /// A kind of value this library does not model.
    Other,
}

/// A date, as its distance from the Unix epoch (1970-01-01T00:00:00Z):
/// `secs` whole seconds and `nanos` nanoseconds, before the epoch when
/// `before_epoch` holds, else at or after it.
#[derive(Debug, Clone, Copy, PartialEq, Eq)]
pub struct PlistDate {
    /// Whether the date lies before the epoch.
    pub before_epoch: bool,
    /// Whole seconds from the epoch.
    pub secs: u64,
    /// Nanoseconds past the whole seconds (below one second).
    pub nanos: u32,
}

/// A property-list dictionary: string keys, in order.
#[derive(Debug)]
pub struct PlistDict {
    /// The entries, in order.
    pub entries: Vec<PlistEntry>,
}

/// One dictionary entry.
#[derive(Debug)]
pub struct PlistEntry {
    /// The key.
    pub key: String,
    /// The value.
    pub value: PlistValue,
}

/// The mathematical content of a [`PlistValue`].
pub enum PValue {
    Array(Seq<PValue>),
    Dictionary(Seq<(Seq<char>, PValue)>),
    Boolean(bool),
    Data(Seq<u8>),
    Date(PlistDate),
    Real(u64),
    Integer(Option<i64>, Option<u64>),
    String(Seq<char>),
    Uid(u64),
    Other,
}

/// The content of a value.
pub open spec fn pv(v: PlistValue) -> PValue
    decreases v,
{
    match v {
        PlistValue::Array(a) => PValue::Array(
            Seq::new(
                a@.len(),
                |i: int|
                    if 0 <= i < a@.len() {
                        pv(a@[i])
                    } else {
                        PValue::Other
                    },
            ),
        ),
        PlistValue::Dictionary(d) => PValue::Dictionary(
            Seq::new(
                d.entries@.len(),
                |i: int|
                    if 0 <= i < d.entries@.len() {
                        (d.entries@[i].key@, pv(d.entries@[i].value))
                    } else {
                        (Seq::empty(), PValue::Other)
                    },
            ),
        ),
        PlistValue::Boolean(b) => PValue::Boolean(b),
        PlistValue::Data(x) => PValue::Data(x@),
        PlistValue::Date(d) => PValue::Date(d),
        PlistValue::Real(bits) => PValue::Real(bits),
        PlistValue::Integer(s, u) => PValue::Integer(s, u),
        PlistValue::String(s) => PValue::String(s@),
        PlistValue::Uid(u) => PValue::Uid(u),
        PlistValue::Other => PValue::Other,
    }
}

impl View for PlistValue {
    type V = PValue;

    open spec fn view(&self) -> PValue {
        pv(*self)
    }
}

/// The content of a dictionary's entries.
pub open spec fn pentries(entries: Seq<PlistEntry>) -> Seq<(Seq<char>, PValue)> {
    Seq::new(entries.len(), |i: int| (entries[i].key@, pv(entries[i].value)))
}

impl View for PlistDict {
    type V = Seq<(Seq<char>, PValue)>;

    open spec fn view(&self) -> Seq<(Seq<char>, PValue)> {
        pentries(self.entries@)
    }
}

pub proof fn lemma_dict_view(d: PlistDict)
    ensures
        pv(PlistValue::Dictionary(d)) == PValue::Dictionary(d@),
{
    if let PValue::Dictionary(s) = pv(PlistValue::Dictionary(d)) {
        assert(s =~= pentries(d.entries@));
    }
}

/// The contents of an array's elements.
pub open spec fn pitems(a: Seq<PlistValue>) -> Seq<PValue> {
    Seq::new(a.len(), |i: int| pv(a[i]))
}

pub proof fn lemma_array_view(a: Vec<PlistValue>)
    ensures
        pv(PlistValue::Array(a)) == PValue::Array(pitems(a@)),
{
    if let PValue::Array(s) = pv(PlistValue::Array(a)) {
        assert(s =~= pitems(a@));
    }
}

/// The position of the first entry whose key is `key`.
pub open spec fn key_index(entries: Seq<(Seq<char>, PValue)>, key: Seq<char>) -> Option<int>
    decreases entries.len(),
{
    if entries.len() == 0 {
        None
    } else if entries[0].0 == key {
        Some(0)
    } else {
        match key_index(entries.drop_first(), key) {
            Some(i) => Some(i + 1),
            None => None,
        }
    }
}

/// The value of the first entry whose key is `key`.
pub open spec fn dict_get(entries: Seq<(Seq<char>, PValue)>, key: Seq<char>) -> Option<PValue> {
    match key_index(entries, key) {
        Some(i) => Some(entries[i].1),
        None => None,
    }
}

/// Inserting `key` replaces the value of its entry in place, or appends a
/// new entry when the key is absent.
pub open spec fn dict_insert(
    entries: Seq<(Seq<char>, PValue)>,
    key: Seq<char>,
    value: PValue,
) -> Seq<(Seq<char>, PValue)> {
    match key_index(entries, key) {
        Some(i) => entries.update(i, (key, value)),
        None => entries.push((key, value)),
    }
}

/// `key_index` finds the first matching entry.
pub proof fn lemma_key_index(entries: Seq<(Seq<char>, PValue)>, key: Seq<char>)
    ensures
        match key_index(entries, key) {
            Some(i) => 0 <= i < entries.len() && entries[i].0 == key && forall|j: int|
                0 <= j < i ==> entries[j].0 != key,
            None => forall|j: int| 0 <= j < entries.len() ==> entries[j].0 != key,
        },
    decreases entries.len(),
{
    if entries.len() > 0 && entries[0].0 != key {
        lemma_key_index(entries.drop_first(), key);
        assert forall|j: int| 1 <= j < entries.len() implies entries[j] == entries.drop_first()[j - 1] by {}
    }
}

impl PlistDict {
    /// An empty dictionary.
    pub fn new() -> (d: PlistDict)
        ensures
            d@ == Seq::<(Seq<char>, PValue)>::empty(),
    {
        let d = PlistDict { entries: Vec::new() };
        assert(d@ =~= Seq::<(Seq<char>, PValue)>::empty());
        d
    }

    /// The position of the entry keyed `key`.
    pub fn index_of(&self, key: &String) -> (r: Option<usize>)
        ensures
            match r {
                Some(i) => key_index(self@, key@) == Some(i as int) && i < self.entries@.len(),
                None => key_index(self@, key@) is None,
            },
    {
        proof {
            lemma_key_index(self@, key@);
        }
        let mut i: usize = 0;
        while i < self.entries.len()
            invariant
                i <= self.entries@.len(),
                forall|j: int| 0 <= j < i ==> #[trigger] self@[j].0 != key@,
                match key_index(self@, key@) {
                    Some(k) => 0 <= k < self@.len() && self@[k].0 == key@ && forall|j: int|
                        0 <= j < k ==> self@[j].0 != key@,
                    None => forall|j: int| 0 <= j < self@.len() ==> self@[j].0 != key@,
                },
            decreases self.entries@.len() - i,
        {
            if self.entries[i].key == *key {
                assert(self@[i as int].0 == key@);
                return Some(i);
            }
            assert(self@[i as int].0 != key@);
            i = i + 1;
        }
        None
    }

    /// The value of the entry keyed `key`.
    pub fn get(&self, key: &str) -> (r: Option<&PlistValue>)
        ensures
            match r {
                Some(v) => dict_get(self@, key@) == Some(v@),
                None => dict_get(self@, key@) is None,
            },
    {
        let k = String::from_str(key);
        match self.index_of(&k) {
            Some(i) => Some(&self.entries[i].value),
            None => None,
        }
    }

    /// Insert `value` under `key`: replaces the value of an existing entry in
    /// place, or appends a new entry.
    pub fn insert(&mut self, key: String, value: PlistValue)
        ensures
            final(self)@ == dict_insert(old(self)@, key@, value@),
    {
        match self.index_of(&key) {
            Some(i) => {
                let ghost k = key@;
                let ghost v = value@;
                self.entries.set(i, PlistEntry { key, value });
                assert(self@ =~= old(self)@.update(i as int, (k, v)));
            },
            None => {
                let ghost k = key@;
                let ghost v = value@;
                self.entries.push(PlistEntry { key, value });
                assert(self@ =~= old(self)@.push((k, v)));
            },
        }
    }
}

impl PlistValue {
    /// The dictionary, if this is one.
    pub fn as_dictionary(&self) -> (r: Option<&PlistDict>)
        ensures
            match r {
                Some(d) => self@ == PValue::Dictionary(d@),
                None => !(self@ is Dictionary),
            },
    {
        match self {
            PlistValue::Dictionary(d) => {
                proof {
                    lemma_dict_view(*d);
                }
                Some(d)
            },
            _ => None,
        }
    }

    /// The elements, if this is an array.
    pub fn as_array(&self) -> (r: Option<&Vec<PlistValue>>)
        ensures
            match r {
                Some(a) => self@ == PValue::Array(pitems(a@)),
                None => !(self@ is Array),
            },
    {
        match self {
            PlistValue::Array(a) => {
                proof {
                    lemma_array_view(*a);
                }
                Some(a)
            },
            _ => None,
        }
    }

    /// The bytes, if this is a data blob.
    pub fn as_data(&self) -> (r: Option<&Vec<u8>>)
        ensures
            match r {
                Some(x) => self@ == PValue::Data(x@),
                None => !(self@ is Data),
            },
    {
        match self {
            PlistValue::Data(x) => Some(x),
            _ => None,
        }
    }

    /// The text, if this is a string.
    pub fn as_string(&self) -> (r: Option<&String>)
        ensures
            match r {
                Some(s) => self@ == PValue::String(s@),
                None => !(self@ is String),
            },
    {
        match self {
            PlistValue::String(s) => Some(s),
            _ => None,
        }
    }

    /// The value as a `u64`, if this is an integer that fits one.
    pub fn as_unsigned_integer(&self) -> (r: Option<u64>)
        ensures
            r == (match self@ {
                PValue::Integer(_, u) => u,
                _ => None,
            }),
    {
        match self {
            PlistValue::Integer(_, u) => *u,
            _ => None,
        }
    }

    /// The value as an `i64`, if this is an integer that fits one.
    pub fn as_signed_integer(&self) -> (r: Option<i64>)
        ensures
            r == (match self@ {
                PValue::Integer(s, _) => s,
                _ => None,
            }),
    {
        match self {
            PlistValue::Integer(s, _) => *s,
            _ => None,
        }
    }
}

pub fn clone_string(s: &String) -> (r: String)
    ensures
        r@ == s@,
{
    String::from_str(s.as_str())
}

pub fn clone_bytes(x: &Vec<u8>) -> (r: Vec<u8>)
    ensures
        r@ == x@,
{
    vstd::slice::slice_to_vec(x.as_slice())
}

/// A copy of `v`, with the same content.
pub fn clone_value(v: &PlistValue) -> (r: PlistValue)
    ensures
        r@ == v@,
    decreases v@,
{
    match v {
        PlistValue::Array(a) => {
            let mut out: Vec<PlistValue> = Vec::new();
            let mut i: usize = 0;
            proof {
                lemma_array_view(*a);
            }
            while i < a.len()
                invariant
                    v@ == PValue::Array(pitems(a@)),
                    i <= a@.len(),
                    out@.len() == i,
                    forall|j: int| 0 <= j < i ==> (#[trigger] out@[j])@ == a@[j]@,
                decreases a@.len() - i,
            {
                proof {
                    lemma_array_view(*a);
                    let s = pitems(a@);
                    assert(s[i as int] == a@[i as int]@);
                    assert(v@ == PValue::Array(s));
                    assert(v@->Array_0 == s);
                    assert(decreases_to!(v@ => v@->Array_0));
                    assert(decreases_to!(s => s[i as int]));
                }
                let e = clone_value(&a[i]);
                out.push(e);
                i = i + 1;
            }
            proof {
                lemma_array_view(*a);
                lemma_array_view(out);
                assert(pitems(out@) =~= pitems(a@));
            }
            PlistValue::Array(out)
        },
        PlistValue::Dictionary(d) => {
            let mut out: Vec<PlistEntry> = Vec::new();
            let mut i: usize = 0;
            proof {
                lemma_dict_view(*d);
            }
            while i < d.entries.len()
                invariant
                    v@ == PValue::Dictionary(d@),
                    i <= d.entries@.len(),
                    out@.len() == i,
                    forall|j: int|
                        0 <= j < i ==> (#[trigger] out@[j]).key@ == d.entries@[j].key@
                            && out@[j].value@ == d.entries@[j].value@,
                decreases d.entries@.len() - i,
            {
                proof {
                    lemma_dict_view(*d);
                    let s = d@;
                    assert(s[i as int].1 == d.entries@[i as int].value@);
                    assert(v@ == PValue::Dictionary(s));
                    assert(v@->Dictionary_0 == s);
                    assert(decreases_to!(v@ => v@->Dictionary_0));
                    assert(decreases_to!(s => s[i as int]));
                    assert(decreases_to!(s[i as int] => s[i as int].1));
                }
                let key = clone_string(&d.entries[i].key);
                let value = clone_value(&d.entries[i].value);
                out.push(PlistEntry { key, value });
                i = i + 1;
            }
            let nd = PlistDict { entries: out };
            proof {
                lemma_dict_view(*d);
                lemma_dict_view(nd);
                assert(nd@ =~= d@);
            }
            PlistValue::Dictionary(nd)
        },
        PlistValue::Boolean(b) => PlistValue::Boolean(*b),
        PlistValue::Data(x) => PlistValue::Data(clone_bytes(x)),
        PlistValue::Date(d) => PlistValue::Date(*d),
        PlistValue::Real(bits) => PlistValue::Real(*bits),
        PlistValue::Integer(s, u) => PlistValue::Integer(*s, *u),
        PlistValue::String(s) => PlistValue::String(clone_string(s)),
        PlistValue::Uid(u) => PlistValue::Uid(*u),
        PlistValue::Other => PlistValue::Other,
    }
}

/// One event of a property list's stream, as the library holds it: a
/// collection opens or closes, or a single non-collection value.
#[derive(Debug)]
pub enum PlistEvent {
    /// An array opens.
    StartArray,
    /// A dictionary opens (keys and values follow, alternating).
    StartDictionary,
    /// The innermost open collection closes.
    EndCollection,
    /// A value that is no collection.
    Scalar(PlistValue),
}

/// The mathematical content of a [`PlistEvent`].
pub enum PEvent {
    StartArray,
    StartDictionary,
    EndCollection,
    Scalar(PValue),
}

impl View for PlistEvent {
    type V = PEvent;

    open spec fn view(&self) -> PEvent {
        match self {
            PlistEvent::StartArray => PEvent::StartArray,
            PlistEvent::StartDictionary => PEvent::StartDictionary,
            PlistEvent::EndCollection => PEvent::EndCollection,
            PlistEvent::Scalar(v) => PEvent::Scalar(v@),
        }
    }
}

/// The contents of a sequence of events.
pub open spec fn pevents(ev: Seq<PlistEvent>) -> Seq<PEvent> {
    Seq::new(ev.len(), |i: int| ev[i]@)
}

/// How many collections deep a property list may nest. Nothing deeper is
/// turned into a value, so that reading, converting and dropping one stays
/// within a bounded stack.
pub const MAX_PLIST_DEPTH: usize = 256;

/// Reading one value of `ev` at event `i`, inside `depth` open collections:
/// the value and the position just past it, or why there is none.
pub open spec fn spec_read_value(ev: Seq<PEvent>, i: int, depth: int) -> Result<(PValue, int), Seq<char>>
    decreases ev.len() - i, 0int,
{
    if i < 0 || i >= ev.len() {
        Err("property list ends inside a value"@)
    } else {
        match ev[i] {
            PEvent::StartArray => if depth >= MAX_PLIST_DEPTH {
                Err("property list nested too deep"@)
            } else {
                spec_read_items(ev, i + 1, depth + 1, Seq::empty())
            },
            PEvent::StartDictionary => if depth >= MAX_PLIST_DEPTH {
                Err("property list nested too deep"@)
            } else {
                spec_read_entries(ev, i + 1, depth + 1, Seq::empty())
            },
            PEvent::EndCollection => Err("a collection ends where a value belongs"@),
            PEvent::Scalar(v) => Ok((v, i + 1)),
        }
    }
}

/// Reading the rest of an array from event `i`, `acc` its elements so far.
pub open spec fn spec_read_items(ev: Seq<PEvent>, i: int, depth: int, acc: Seq<PValue>) -> Result<
    (PValue, int),
    Seq<char>,
>
    decreases ev.len() - i, 1int,
{
    if i < 0 || i >= ev.len() {
        Err("property list ends inside an array"@)
    } else if ev[i] is EndCollection {
        Ok((PValue::Array(acc), i + 1))
    } else {
        match spec_read_value(ev, i, depth) {
            Err(m) => Err(m),
            Ok((v, j)) => if i < j <= ev.len() {
                spec_read_items(ev, j, depth, acc.push(v))
            } else {
                Err("malformed event stream"@)
            },
        }
    }
}

/// Reading the rest of a dictionary from event `i`, `acc` its entries so
/// far: a string key, then its value, until the dictionary closes. A key
/// seen before has its value replaced in place (see [`dict_insert`]).
pub open spec fn spec_read_entries(
    ev: Seq<PEvent>,
    i: int,
    depth: int,
    acc: Seq<(Seq<char>, PValue)>,
) -> Result<(PValue, int), Seq<char>>
    decreases ev.len() - i, 1int,
{
    if i < 0 || i >= ev.len() {
        Err("property list ends inside a dictionary"@)
    } else {
        match ev[i] {
            PEvent::EndCollection => Ok((PValue::Dictionary(acc), i + 1)),
            PEvent::Scalar(PValue::String(k)) => match spec_read_value(ev, i + 1, depth) {
                Err(m) => Err(m),
                Ok((v, j)) => if i < j <= ev.len() {
                    spec_read_entries(ev, j, depth, dict_insert(acc, k, v))
                } else {
                    Err("malformed event stream"@)
                },
            },
            _ => Err("a dictionary key is not a string"@),
        }
    }
}

/// The value a whole event stream describes: exactly one value, with no
/// event after it.
pub open spec fn spec_build_value(ev: Seq<PEvent>) -> Result<PValue, Seq<char>> {
    match spec_read_value(ev, 0, 0) {
        Err(m) => Err(m),
        Ok((v, j)) => if j == ev.len() {
            Ok(v)
        } else {
            Err("events follow the property list's value"@)
        },
    }
}

/// What `plist`'s stream reader reads out of `bytes` (a property list in any
/// of its encodings): its events, each converted kind for kind, or the text
/// of its error.
pub uninterp spec fn plist_events(bytes: Seq<u8>) -> Result<Seq<PEvent>, Seq<char>>;

/// What a property list's bytes decode to: the value its events describe,
/// or the text of the first error.
pub open spec fn plist_decoding(bytes: Seq<u8>) -> Result<PValue, Seq<char>> {
    match plist_events(bytes) {
        Err(m) => Err(m),
        Ok(ev) => spec_build_value(ev),
    }
}

fn text(lit: &str) -> (r: String)
    ensures
        r@ == lit@,
{
    String::from_str(lit)
}

/// Reads one value of `ev` at event `i`, inside `depth` open collections
/// (see [`spec_read_value`]).
fn read_value(ev: &Vec<PlistEvent>, i: usize, depth: usize) -> (r: Result<(PlistValue, usize), String>)
    requires
        depth <= MAX_PLIST_DEPTH,
    ensures
        match r {
            Ok((v, j)) => spec_read_value(pevents(ev@), i as int, depth as int) == Ok::<
                (PValue, int),
                Seq<char>,
            >((v@, j as int)),
            Err(e) => spec_read_value(pevents(ev@), i as int, depth as int) == Err::<
                (PValue, int),
                Seq<char>,
            >(e@),
        },
    decreases ev@.len() - i, 0int,
{
    if i >= ev.len() {
        return Err(text("property list ends inside a value"));
    }
    match &ev[i] {
        PlistEvent::StartArray => {
            if depth >= MAX_PLIST_DEPTH {
                return Err(text("property list nested too deep"));
            }
            read_items(ev, i + 1, depth + 1)
        },
        PlistEvent::StartDictionary => {
            if depth >= MAX_PLIST_DEPTH {
                return Err(text("property list nested too deep"));
            }
            read_entries(ev, i + 1, depth + 1)
        },
        PlistEvent::EndCollection => Err(text("a collection ends where a value belongs")),
        PlistEvent::Scalar(v) => Ok((clone_value(v), i + 1)),
    }
}

/// Reads the rest of an array whose elements start at event `i` (see
/// [`spec_read_items`]).
fn read_items(ev: &Vec<PlistEvent>, i: usize, depth: usize) -> (r: Result<(PlistValue, usize), String>)
    requires
        depth <= MAX_PLIST_DEPTH,
        i <= ev@.len(),
    ensures
        match r {
            Ok((v, j)) => spec_read_items(pevents(ev@), i as int, depth as int, Seq::empty())
                == Ok::<(PValue, int), Seq<char>>((v@, j as int)),
            Err(e) => spec_read_items(pevents(ev@), i as int, depth as int, Seq::empty()) == Err::<
                (PValue, int),
                Seq<char>,
            >(e@),
        },
    decreases ev@.len() - i, 1int,
{
    let ghost evs = pevents(ev@);
    let mut acc: Vec<PlistValue> = Vec::new();
    let mut k: usize = i;
    assert(pitems(acc@) =~= Seq::<PValue>::empty());
    while k < ev.len()
        invariant
            i <= k <= ev@.len(),
            depth <= MAX_PLIST_DEPTH,
            evs == pevents(ev@),
            spec_read_items(evs, k as int, depth as int, pitems(acc@)) == spec_read_items(
                evs,
                i as int,
                depth as int,
                Seq::empty(),
            ),
        decreases ev@.len() - k,
    {
        if let PlistEvent::EndCollection = &ev[k] {
            proof {
                lemma_array_view(acc);
            }
            return Ok((PlistValue::Array(acc), k + 1));
        }
        match read_value(ev, k, depth) {
            Err(e) => return Err(e),
            Ok((v, j)) => {
                if !(k < j && j <= ev.len()) {
                    return Err(text("malformed event stream"));
                }
                let ghost before = acc@;
                let ghost vv = v@;
                acc.push(v);
                assert(pitems(acc@) =~= pitems(before).push(vv));
                k = j;
            },
        }
    }
    Err(text("property list ends inside an array"))
}

/// Reads the rest of a dictionary whose entries start at event `i` (see
/// [`spec_read_entries`]).
fn read_entries(ev: &Vec<PlistEvent>, i: usize, depth: usize) -> (r: Result<(PlistValue, usize), String>)
    requires
        depth <= MAX_PLIST_DEPTH,
        i <= ev@.len(),
    ensures
        match r {
            Ok((v, j)) => spec_read_entries(pevents(ev@), i as int, depth as int, Seq::empty())
                == Ok::<(PValue, int), Seq<char>>((v@, j as int)),
            Err(e) => spec_read_entries(pevents(ev@), i as int, depth as int, Seq::empty()) == Err::<
                (PValue, int),
                Seq<char>,
            >(e@),
        },
    decreases ev@.len() - i, 1int,
{
    let ghost evs = pevents(ev@);
    let mut acc = PlistDict::new();
    let mut k: usize = i;
    while k < ev.len()
        invariant
            i <= k <= ev@.len(),
            depth <= MAX_PLIST_DEPTH,
            evs == pevents(ev@),
            spec_read_entries(evs, k as int, depth as int, acc@) == spec_read_entries(
                evs,
                i as int,
                depth as int,
                Seq::empty(),
            ),
        decreases ev@.len() - k,
    {
        match &ev[k] {
            PlistEvent::EndCollection => {
                proof {
                    lemma_dict_view(acc);
                }
                return Ok((PlistValue::Dictionary(acc), k + 1));
            },
            PlistEvent::Scalar(PlistValue::String(key)) => {
                match read_value(ev, k + 1, depth) {
                    Err(e) => return Err(e),
                    Ok((v, j)) => {
                        if !(k < j && j <= ev.len()) {
                            return Err(text("malformed event stream"));
                        }
                        acc.insert(clone_string(key), v);
                        k = j;
                    },
                }
            },
            _ => return Err(text("a dictionary key is not a string")),
        }
    }
    Err(text("property list ends inside a dictionary"))
}

/// The value a whole stream of property-list events describes: exactly one
/// value, nested at most [`MAX_PLIST_DEPTH`] collections deep, with no
/// event after it (see [`spec_build_value`]).
pub fn build_value(events: &Vec<PlistEvent>) -> (r: Result<PlistValue, String>)
    ensures
        match r {
            Ok(v) => spec_build_value(pevents(events@)) == Ok::<PValue, Seq<char>>(v@),
            Err(e) => spec_build_value(pevents(events@)) == Err::<PValue, Seq<char>>(e@),
        },
{
    match read_value(events, 0, 0) {
        Err(e) => Err(e),
        Ok((v, j)) => if j == events.len() {
            Ok(v)
        } else {
            Err(text("events follow the property list's value"))
        },
    }
}

/// Decodes a property list: its events, as `plist`'s stream reader reads
/// them, turned into the value they describe (see [`plist_decoding`]).
pub(crate) fn decode_plist(bytes: &[u8]) -> (r: Result<PlistValue, String>)
    ensures
        match r {
            Ok(v) => plist_decoding(bytes@) == Ok::<PValue, Seq<char>>(v@),
            Err(e) => plist_decoding(bytes@) == Err::<PValue, Seq<char>>(e@),
        },
{
    match read_events(bytes) {
        Err(e) => Err(e),
        Ok(events) => build_value(&events),
    }
}

#[verifier::external_type_specification]
#[verifier::external_body]
pub struct ExPlistEvent<'a>(plist::stream::Event<'a>);

#[verifier::external_type_specification]
#[verifier::external_body]
pub struct ExPlistDate(plist::Date);

/// Reads the events of a property list with `plist::stream::Reader` over
/// the bytes (binary, XML or ASCII, as the reader detects), each converted
/// kind for kind by [`plain_event`], up to the first error. The contract
/// claims only that the outcome is a function of the bytes, named by
/// [`plist_events`]. The reader builds no value and does not recurse.
#[verifier::external_body]
fn read_events(bytes: &[u8]) -> (r: Result<Vec<PlistEvent>, String>)
    ensures
        match r {
            Ok(v) => plist_events(bytes@) == Ok::<Seq<PEvent>, Seq<char>>(pevents(v@)),
            Err(e) => plist_events(bytes@) == Err::<Seq<PEvent>, Seq<char>>(e@),
        },
{
    plist::stream::Reader::new(std::io::Cursor::new(bytes)).map(
        |e| e.map(plain_event).map_err(|e| e.to_string()),
    ).collect()
}

/// Copies one `plist` stream event, collection events as they are and
/// values by [`plain_scalar`]. No contract: what it yields is stated, over
/// the bytes, by [`read_events`].
#[verifier::external_body]
fn plain_event(e: plist::stream::Event<'static>) -> PlistEvent {
    match e {
        plist::stream::Event::StartArray(_) => PlistEvent::StartArray,
        plist::stream::Event::StartDictionary(_) => PlistEvent::StartDictionary,
        plist::stream::Event::EndCollection => PlistEvent::EndCollection,
        _ => PlistEvent::Scalar(plain_scalar(e)),
    }
}

/// Copies one `plist` value event: reals by bit pattern, integers by both
/// readings, dates by [`plain_date`]. No contract (see [`plain_event`]).
#[verifier::external_body]
fn plain_scalar(e: plist::stream::Event<'static>) -> PlistValue {
    match e {
        plist::stream::Event::Boolean(b) => PlistValue::Boolean(b),
        plist::stream::Event::Data(x) => PlistValue::Data(x.into_owned()),
        plist::stream::Event::Date(d) => PlistValue::Date(plain_date(d)),
        plist::stream::Event::Integer(i) => PlistValue::Integer(i.as_signed(), i.as_unsigned()),
        plist::stream::Event::Real(x) => PlistValue::Real(x.to_bits()),
        plist::stream::Event::String(s) => PlistValue::String(s.into_owned()),
        plist::stream::Event::Uid(u) => PlistValue::Uid(u.get()),
        _ => PlistValue::Other,
    }
}

/// A `plist::Date` as its distance from the Unix epoch, through the
/// `SystemTime` it holds and std's `SystemTime::duration_since` (whose error
/// carries the distance of a date before the epoch). No text is formatted.
/// No contract (see [`plain_event`]).
#[verifier::external_body]
fn plain_date(d: plist::Date) -> PlistDate {
    match std::time::SystemTime::from(d).duration_since(std::time::UNIX_EPOCH) {
        Ok(t) => PlistDate { before_epoch: false, secs: t.as_secs(), nanos: t.subsec_nanos() },
        Err(e) => PlistDate { before_epoch: true, secs: e.duration().as_secs(), nanos: e.duration().subsec_nanos() },
    }
}

} // verus!
