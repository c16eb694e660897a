//! Structured values: the opaque payload that a record carries, and the
//! binary encoding that turns one into bytes and back.

use serde_cbor::Value as Cbor;
use vstd::prelude::*;

verus! {

/// A structured value, as it is held in memory: what a record carries as its
/// payload, and what a payload is made of.
///
/// The library never looks into a payload but to encode it, to decode it and,
/// for a sealed message, to find the recipient and the sealed body.
///
/// A dictionary may hold its entries in any order and a key more than once,
/// but the binary encoding holds every key once, in an order of its own.
/// What is written is the canonical form of a payload (see
/// [`Payload::canonical`]): of the entries with one key the last is kept,
/// and the keys stand in the order of the encoding. So a payload comes back
/// from a token as it went in exactly if it is its own canonical form, as
/// every payload is that was read from a token; any other comes back in its
/// canonical form. A float that is not a number comes back as one, but not
/// always with the same bits.
#[derive(Debug, PartialEq, Eq)]
pub enum Payload {
    /// The absence of a value.
    Null,
    /// A truth value.
    Bool(bool),
    /// A whole number. The encoding holds those from -2^64 to 2^64 - 1.
    Integer(i128),
    /// A floating-point number, held as the bits of its 64-bit form.
    Float(u64),
    /// A string of bytes.
    Bytes(Vec<u8>),
    /// A string of characters.
    Text(String),
    /// A sequence of values.
    Array(Vec<Payload>),
    /// Keys with their values, in the order in which they are held. Where a
    /// key is held more than once, its last entry counts.
    Dict(Vec<(Payload, Payload)>),
}

/// What a [`Payload`] stands for: the same shape over mathematical sequences.
pub enum Tree {
    /// The absence of a value.
    Null,
    /// A truth value.
    Bool(bool),
    /// A whole number.
    Integer(int),
    /// A floating-point number, as the bits of its 64-bit form.
    Float(u64),
    /// A string of bytes.
    Bytes(Seq<u8>),
    /// A string of characters.
    Text(Seq<char>),
    /// A sequence of values.
    Array(Seq<Tree>),
    /// Keys with their values, in the order in which they are held.
    Dict(Seq<(Tree, Tree)>),
}

impl Payload {
    /// The tree that this value stands for.
    pub open spec fn tree(&self) -> Tree
        decreases self,
    {
        match self {
            Payload::Null => Tree::Null,
            Payload::Bool(b) => Tree::Bool(*b),
            Payload::Integer(n) => Tree::Integer(*n as int),
            Payload::Float(bits) => Tree::Float(*bits),
            Payload::Bytes(bytes) => Tree::Bytes(bytes@),
            Payload::Text(text) => Tree::Text(text@),
            Payload::Array(items) => Tree::Array(
                Seq::new(
                    items.len() as nat,
                    |i: int|
                        if 0 <= i < items.len() {
                            items[i].tree()
                        } else {
                            Tree::Null
                        },
                ),
            ),
            Payload::Dict(entries) => Tree::Dict(
                Seq::new(
                    entries.len() as nat,
                    |i: int|
                        if 0 <= i < entries.len() {
                            (entries[i].0.tree(), entries[i].1.tree())
                        } else {
                            (Tree::Null, Tree::Null)
                        },
                ),
            ),
        }
    }
}

impl View for Payload {
    type V = Tree;

    open spec fn view(&self) -> Tree {
        self.tree()
    }
}

/// The trees of a sequence of values, one for one.
pub open spec fn trees(items: Seq<Payload>) -> Seq<Tree> {
    Seq::new(items.len(), |i: int| items[i]@)
}

/// The trees of a sequence of entries, one for one.
pub open spec fn entry_trees(entries: Seq<(Payload, Payload)>) -> Seq<(Tree, Tree)> {
    Seq::new(entries.len(), |i: int| (entries[i].0@, entries[i].1@))
}

/// An array stands for the trees of its items.
pub proof fn lemma_array_tree(items: Vec<Payload>)
    ensures
        Payload::Array(items)@ == Tree::Array(trees(items@)),
{
    assert(Payload::Array(items)@->Array_0 =~= trees(items@));
}

/// A dictionary stands for the trees of its entries.
pub proof fn lemma_dict_tree(entries: Vec<(Payload, Payload)>)
    ensures
        Payload::Dict(entries)@ == Tree::Dict(entry_trees(entries@)),
{
    assert(Payload::Dict(entries)@->Dict_0 =~= entry_trees(entries@));
}

/// Whether the binary encoding can hold `tree`: every integer in it lies
/// between -2^64 and 2^64 - 1.
pub open spec fn encodable(tree: Tree) -> bool
    decreases tree,
{
    match tree {
        Tree::Integer(n) => -0x1_0000_0000_0000_0000 <= n <= 0xffff_ffff_ffff_ffff,
        Tree::Array(items) => forall|i: int| 0 <= i < items.len() ==> encodable(#[trigger] items[i]),
        Tree::Dict(entries) => forall|i: int|
            0 <= i < entries.len() ==> encodable((#[trigger] entries[i]).0) && encodable(
                entries[i].1,
            ),
        _ => true,
    }
}

/// The value that the last entry with the text key `name` holds, if there is
/// one: the entry that the binary encoding keeps for that key.
pub open spec fn field(entries: Seq<(Tree, Tree)>, name: Seq<char>) -> Option<Tree>
    decreases entries.len(),
{
    if entries.len() == 0 {
        None
    } else if entries.last().0 == Tree::Text(name) {
        Some(entries.last().1)
    } else {
        field(entries.drop_last(), name)
    }
}

impl Payload {
    /// A copy that stands for the same tree.
    pub fn duplicate(&self) -> (copy: Payload)
        ensures
            copy@ == self@,
        decreases self,
    {
        match self {
            Payload::Null => Payload::Null,
            Payload::Bool(b) => Payload::Bool(*b),
            Payload::Integer(n) => Payload::Integer(*n),
            Payload::Float(bits) => Payload::Float(*bits),
            Payload::Bytes(bytes) => Payload::Bytes(bytes.clone()),
            Payload::Text(text) => Payload::Text(text.clone()),
            Payload::Array(items) => {
                let mut copies: Vec<Payload> = Vec::new();
                let mut i: usize = 0;
                while i < items.len()
                    invariant
                        i <= items.len(),
                        copies.len() == i,
                        forall|j: int| 0 <= j < i ==> copies[j]@ == items[j]@,
                        *self == Payload::Array(*items),
                    decreases items.len() - i,
                {
                    assert(self is Array && self->Array_0 == *items);
                    copies.push(items[i].duplicate());
                    i += 1;
                }
                proof {
                    lemma_array_tree(*items);
                    lemma_array_tree(copies);
                    assert(trees(copies@) =~= trees(items@));
                }
                Payload::Array(copies)
            },
            Payload::Dict(entries) => {
                let mut copies: Vec<(Payload, Payload)> = Vec::new();
                let mut i: usize = 0;
                while i < entries.len()
                    invariant
                        i <= entries.len(),
                        copies.len() == i,
                        forall|j: int|
                            0 <= j < i ==> copies[j].0@ == entries[j].0@ && copies[j].1@
                                == entries[j].1@,
                        *self == Payload::Dict(*entries),
                    decreases entries.len() - i,
                {
                    assert(self is Dict && self->Dict_0 == *entries);
                    assert(decreases_to!(entries => entries[i as int]));
                    let key = entries[i].0.duplicate();
                    let held = entries[i].1.duplicate();
                    copies.push((key, held));
                    i += 1;
                }
                proof {
                    lemma_dict_tree(*entries);
                    lemma_dict_tree(copies);
                    assert(entry_trees(copies@) =~= entry_trees(entries@));
                }
                Payload::Dict(copies)
            },
        }
    }
}

impl Clone for Payload {
    fn clone(&self) -> (copy: Payload)
        ensures
            copy@ == self@,
    {
        self.duplicate()
    }
}

impl Payload {
    /// Whether the binary encoding can hold this value.
    pub fn is_encodable(&self) -> (fits: bool)
        ensures
            fits == encodable(self@),
        decreases self,
    {
        match self {
            Payload::Integer(n) => -0x1_0000_0000_0000_0000 <= *n && *n <= 0xffff_ffff_ffff_ffff,
            Payload::Array(items) => {
                proof {
                    lemma_array_tree(*items);
                }
                let mut i: usize = 0;
                while i < items.len()
                    invariant
                        i <= items.len(),
                        forall|j: int| 0 <= j < i ==> encodable(#[trigger] items[j]@),
                        *self == Payload::Array(*items),
                    decreases items.len() - i,
                {
                    if !items[i].is_encodable() {
                        assert(self@->Array_0[i as int] == items[i as int]@);
                        return false;
                    }
                    i += 1;
                }
                assert forall|j: int| 0 <= j < self@->Array_0.len() implies encodable(
                    #[trigger] self@->Array_0[j],
                ) by {
                    assert(encodable(items[j]@));
                }
                true
            },
            Payload::Dict(entries) => {
                proof {
                    lemma_dict_tree(*entries);
                }
                let mut i: usize = 0;
                while i < entries.len()
                    invariant
                        i <= entries.len(),
                        forall|j: int|
                            0 <= j < i ==> encodable((#[trigger] entries[j]).0@) && encodable(
                                entries[j].1@,
                            ),
                        *self == Payload::Dict(*entries),
                    decreases entries.len() - i,
                {
                    if !entries[i].0.is_encodable() || !entries[i].1.is_encodable() {
                        assert(self@->Dict_0[i as int] == (entries[i as int].0@, entries[i as int].1@));
                        return false;
                    }
                    i += 1;
                }
                assert forall|j: int| 0 <= j < self@->Dict_0.len() implies encodable(
                    (#[trigger] self@->Dict_0[j]).0,
                ) && encodable(self@->Dict_0[j].1) by {
                    assert(encodable(entries[j].0@));
                }
                true
            },
            _ => true,
        }
    }
}

/// Finds the value that the last entry with the text key `name` holds.
pub fn lookup<'a>(entries: &'a Vec<(Payload, Payload)>, name: &str) -> (found: Option<&'a Payload>)
    ensures
        match found {
            Some(held) => field(entry_trees(entries@), name@) == Some(held@),
            None => field(entry_trees(entries@), name@) is None,
        },
{
    let mut i: usize = entries.len();
    assert(entry_trees(entries@).subrange(0, entries.len() as int) =~= entry_trees(entries@));
    while i > 0
        invariant
            i <= entries.len(),
            field(entry_trees(entries@), name@) == field(
                entry_trees(entries@).subrange(0, i as int),
                name@,
            ),
        decreases i,
    {
        let ghost rest = entry_trees(entries@).subrange(0, i as int);
        i -= 1;
        assert(rest.last() == (entries[i as int].0@, entries[i as int].1@));
        assert(rest.drop_last() =~= entry_trees(entries@).subrange(0, i as int));
        let hit = match &entries[i].0 {
            Payload::Text(key) => crate::text::same_text(key.as_str(), name),
            _ => false,
        };
        if hit {
            return Some(&entries[i].1);
        }
    }
    None
}

/// A value as `serde_cbor` holds it.
#[verifier::external_type_specification]
#[verifier::external_body]
pub struct ExCborValue(serde_cbor::Value);

/// The bytes that `serde_cbor::to_vec` gives for the `serde_cbor::Value` that
/// holds `tree`.
pub uninterp spec fn cbor_encoded(tree: Tree) -> Seq<u8>;

/// The tree of the value that `serde_cbor::from_slice` reads from `bytes`, or
/// `None` where it reads none.
pub uninterp spec fn cbor_decoded(bytes: Seq<u8>) -> Option<Tree>;

/// Has `serde_cbor::from_slice` read the nine bytes that encode the 64-bit
/// float with the bits `bits`: the marker `0xfb`, then the bits, high byte
/// first. What it reads is the `serde_cbor::Value` of that float.
#[verifier::external_body]
fn cbor_float(bits: u64) -> (out: Cbor) {
    let mut encoded = vec![0xfb];
    encoded.extend_from_slice(&bits.to_be_bytes());
    serde_cbor::from_slice(&encoded).unwrap_or(Cbor::Null)
}

/// Rebuilds `value` as a `serde_cbor::Value`, variant for variant. The entries
/// of a dictionary go into the ordered map of `serde_cbor`, whose ordering
/// compares the encodings of two keys and so needs every key encodable.
#[verifier::external_body]
fn to_cbor(value: &Payload) -> (out: Cbor)
    requires
        encodable(value@),
{
    match value {
        Payload::Null => Cbor::Null,
        Payload::Bool(b) => Cbor::Bool(*b),
        Payload::Integer(n) => Cbor::Integer(*n),
        Payload::Float(bits) => cbor_float(*bits),
        Payload::Bytes(bytes) => Cbor::Bytes(bytes.clone()),
        Payload::Text(text) => Cbor::Text(text.clone()),
        Payload::Array(items) => Cbor::Array(items.iter().map(to_cbor).collect()),
        Payload::Dict(entries) => Cbor::Map(
            entries.iter().map(|(k, v)| (to_cbor(k), to_cbor(v))).collect(),
        ),
    }
}

/// Rebuilds a `serde_cbor::Value` as a [`Payload`], variant for variant, the
/// entries of a map in the map's own order. A tag is dropped, as
/// `serde_cbor` drops it when it writes.
#[verifier::external_body]
fn from_cbor(value: Cbor) -> (out: Payload) {
    match value {
        Cbor::Null => Payload::Null,
        Cbor::Bool(b) => Payload::Bool(b),
        Cbor::Integer(n) => Payload::Integer(n),
        Cbor::Float(x) => Payload::Float(x.to_bits()),
        Cbor::Bytes(bytes) => Payload::Bytes(bytes),
        Cbor::Text(text) => Payload::Text(text),
        Cbor::Array(items) => Payload::Array(items.into_iter().map(from_cbor).collect()),
        Cbor::Map(entries) => Payload::Dict(
            entries.into_iter().map(|(k, v)| (from_cbor(k), from_cbor(v))).collect(),
        ),
        Cbor::Tag(_, inner) => from_cbor(*inner),
        _ => Payload::Null,
    }
}

/// Calls `serde_cbor::to_vec` on `value`. Taken on trust: the bytes go by
/// the value alone, and the call succeeds, since it fails only on an integer
/// that the encoding cannot hold, which `requires` leaves out.
#[verifier::external_body]
pub(crate) fn cbor_encode(value: &Payload) -> (bytes: Vec<u8>)
    requires
        encodable(value@),
    ensures
        bytes@ == cbor_encoded(value@),
{
    serde_cbor::to_vec(&to_cbor(value)).unwrap_or_default()
}

/// Calls `serde_cbor::from_slice` for one value that takes all of `bytes`.
/// Taken on trust: whether it reads a value, and which, goes by the bytes
/// alone.
#[verifier::external_body]
pub(crate) fn cbor_decode(bytes: &[u8]) -> (value: Option<Payload>)
    ensures
        match value {
            Some(v) => cbor_decoded(bytes@) == Some(v@),
            None => cbor_decoded(bytes@) is None,
        },
{
    serde_cbor::from_slice::<Cbor>(bytes).ok().map(from_cbor)
}

/// The canonical form of `tree`: the tree of what the `serde_cbor::Value`
/// that holds `tree` holds. The two differ in dictionaries only, whose
/// entries `serde_cbor` keeps in an ordered map: every key once, the last
/// entry of a key kept, the keys in the order of the encoding.
pub uninterp spec fn canonical_tree(tree: Tree) -> Tree;

/// Has the ordered map of `serde_cbor::Value` take the entries of every
/// dictionary in `value`, by rebuilding `value` as a `serde_cbor::Value` and
/// that as a [`Payload`] again. Taken on trust: what comes back goes by the
/// value alone.
#[verifier::external_body]
pub(crate) fn canonical_form(value: &Payload) -> (form: Payload)
    requires
        encodable(value@),
    ensures
        form@ == canonical_tree(value@),
{
    from_cbor(to_cbor(value))
}

impl Payload {
    /// The canonical form of this payload, as it comes back from a token:
    /// every dictionary with each key once, the last entry of a key kept,
    /// the keys in the order of the encoding. `None` for a payload that the
    /// encoding cannot hold.
    pub fn canonical(&self) -> (form: Option<Payload>)
        ensures
            match form {
                Some(f) => encodable(self@) && f@ == canonical_tree(self@),
                None => !encodable(self@),
            },
    {
        if self.is_encodable() {
            Some(canonical_form(self))
        } else {
            None
        }
    }
}

/// The text that `serde_json::to_string_pretty` writes for the
/// `serde_cbor::Value` that holds `tree`, or `None` where it refuses, as it
/// does a dictionary with a key that JSON cannot have.
pub uninterp spec fn json_text(tree: Tree) -> Option<Seq<char>>;

/// Calls `serde_json::to_string_pretty` on `value`. Taken on trust: whether
/// it writes the value, and as which text, goes by the value alone.
#[verifier::external_body]
pub(crate) fn json_pretty(value: &Payload) -> (text: Option<String>)
    requires
        encodable(value@),
    ensures
        match text {
            Some(t) => json_text(value@) == Some(t@),
            None => json_text(value@) is None,
        },
{
    serde_json::to_string_pretty(&to_cbor(value)).ok()
}

} // verus!
