//! Configuration documents as trees.
//!
//! A configuration arrives as JSON or YAML text. Either parser's result is
//! held as a [`Node`], a tree of plain values, which the schema then reads.

use vstd::prelude::*;

verus! {

/// One value of a parsed document.
#[derive(Debug)]
pub enum Node {
    /// The null value.
    Null,
    /// A boolean.
    Bool(bool),
    /// A number, by its decimal text as the parser prints it.
    Number(String),
    /// A string.
    Text(String),
    /// A list of values, in document order.
    List(Vec<Node>),
    /// An object: its entries, each key once.
    Object(Vec<Entry>),
}

/// One entry of an object: a key with its value.
#[derive(Debug)]
pub struct Entry {
    /// The entry's key.
    pub key: String,
    /// The entry's value.
    pub value: Node,
}

impl Clone for Node {
    fn clone(&self) -> (r: Self)
        decreases self,
    {
        match self {
            Node::Null => Node::Null,
            Node::Bool(b) => Node::Bool(*b),
            Node::Number(n) => Node::Number(n.clone()),
            Node::Text(t) => Node::Text(t.clone()),
            Node::List(items) => {
                let mut out: Vec<Node> = Vec::new();
                let mut i: usize = 0;
                while i < items.len()
                    invariant
                        i <= items.len(),
                        self matches Node::List(v) && v == items,
                    decreases items.len() - i,
                {
                    out.push(items[i].clone());
                    i += 1;
                }
                Node::List(out)
            },
            Node::Object(entries) => {
                let mut out: Vec<Entry> = Vec::new();
                let mut i: usize = 0;
                while i < entries.len()
                    invariant
                        i <= entries.len(),
                        self matches Node::Object(v) && v == entries,
                    decreases entries.len() - i,
                {
                    out.push(Entry { key: entries[i].key.clone(), value: entries[i].value.clone() });
                    i += 1;
                }
                Node::Object(out)
            },
        }
    }
}

impl Clone for Entry {
    fn clone(&self) -> (r: Self) {
        Entry { key: self.key.clone(), value: self.value.clone() }
    }
}

/// `serde_json::Value`: a parsed document as the parsers hand it over.
#[verifier::external_type_specification]
#[verifier::external_body]
pub struct ExJsonValue(serde_json::Value);

/// What `serde_json::from_str` makes of a text: the document as a tree, or
/// the parser's message where it refuses the text.
pub uninterp spec fn json_document(text: Seq<char>) -> Result<Node, Seq<char>>;

/// What `serde_yaml::from_str` makes of a text: the document as a tree, or
/// the parser's message where it refuses the text.
pub uninterp spec fn yaml_document(text: Seq<char>) -> Result<Node, Seq<char>>;

/// Turns a `serde_json::Value` into a [`Node`], variant by variant: a number
/// becomes the text that `Number`'s `Display` prints, a list keeps its order,
/// an object hands out its entries in the order of the map's own iterator.
/// Nothing is stated of the result.
#[verifier::external_body]
fn node_of(value: serde_json::Value) -> (node: Node) {
    match value {
        serde_json::Value::Null => Node::Null,
        serde_json::Value::Bool(b) => Node::Bool(b),
        serde_json::Value::Number(n) => Node::Number(n.to_string()),
        serde_json::Value::String(s) => Node::Text(s),
        serde_json::Value::Array(a) => Node::List(a.into_iter().map(node_of).collect()),
        serde_json::Value::Object(o) => Node::Object(
            o.into_iter().map(|(key, v)| Entry { key, value: node_of(v) }).collect(),
        ),
    }
}

/// Calls `serde_json::from_str` for a `serde_json::Value`. The contract
/// claims only that the outcome is a function of the text, named
/// [`json_document`]: the tree on success, the error's `Display` text
/// otherwise.
#[verifier::external_body]
pub(crate) fn parse_json(text: &str) -> (r: Result<Node, String>)
    ensures
        r matches Ok(node) ==> json_document(text@) matches Ok(n) && n == node,
        r matches Err(msg) ==> json_document(text@) matches Err(m) && m == msg@,
{
    match serde_json::from_str::<serde_json::Value>(text) {
        Ok(value) => Ok(node_of(value)),
        Err(e) => Err(e.to_string()),
    }
}

/// Calls `serde_yaml::from_str` for a `serde_json::Value`. The contract
/// claims only that the outcome is a function of the text, named
/// [`yaml_document`]: the tree on success, the error's `Display` text
/// otherwise.
#[verifier::external_body]
pub(crate) fn parse_yaml(text: &str) -> (r: Result<Node, String>)
    ensures
        r matches Ok(node) ==> yaml_document(text@) matches Ok(n) && n == node,
        r matches Err(msg) ==> yaml_document(text@) matches Err(m) && m == msg@,
{
    match serde_yaml::from_str::<serde_json::Value>(text) {
        Ok(value) => Ok(node_of(value)),
        Err(e) => Err(e.to_string()),
    }
}

/// The keys of an object's entries, in order.
pub open spec fn keys(entries: Seq<Entry>) -> Seq<Seq<char>> {
    entries.map_values(|e: Entry| e.key@)
}

/// The value under a key: that of the first entry with the key.
pub open spec fn lookup(entries: Seq<Entry>, key: Seq<char>) -> Option<Node> {
    match keys(entries).index_of_first(key) {
        Some(i) => Some(entries[i].value),
        None => None,
    }
}

/// An object's entries without the first entry that has a key.
pub open spec fn without(entries: Seq<Entry>, key: Seq<char>) -> Seq<Entry> {
    match keys(entries).index_of_first(key) {
        Some(i) => entries.remove(i),
        None => entries,
    }
}

/// Takes the value under a key out of an object's entries: the first entry
/// with the key leaves, and the others stay in order.
pub fn take_field(entries: &mut Vec<Entry>, key: &str) -> (value: Option<Node>)
    ensures
        value == lookup(old(entries)@, key@),
        final(entries)@ == without(old(entries)@, key@),
{
    let wanted = String::from_str(key);
    let ghost all = entries@;
    let mut i: usize = 0;
    while i < entries.len()
        invariant
            i <= entries@.len(),
            entries@ == all,
            all == old(entries)@,
            wanted@ == key@,
            forall|j: int| 0 <= j < i ==> (#[trigger] all[j]).key@ != key@,
        decreases entries@.len() - i,
    {
        if entries[i].key == wanted {
            proof {
                keys(all).index_of_first_ensures(key@);
                let found = keys(all).index_of_first(key@);
                assert(keys(all)[i as int] == key@);
                assert(keys(all).contains(key@));
                assert(found is Some);
                if found->0 < i {
                    assert(keys(all)[found->0] == all[found->0].key@);
                }
                assert(found->0 == i);
            }
            let entry = entries.remove(i);
            return Some(entry.value);
        }
        i += 1;
    }
    proof {
        keys(all).index_of_first_ensures(key@);
        if keys(all).contains(key@) {
            let j = choose|j: int| 0 <= j < keys(all).len() && keys(all)[j] == key@;
            assert(all[j].key@ == key@);
        }
    }
    None
}

/// Taking a field out leaves every entry of another key in.
pub proof fn without_keeps_other_keys(entries: Seq<Entry>, key: Seq<char>, i: int)
    requires
        0 <= i < entries.len(),
        entries[i].key@ != key,
    ensures
        exists|j: int|
            0 <= j < without(entries, key).len() && #[trigger] without(entries, key)[j]
                == entries[i],
{
    keys(entries).index_of_first_ensures(key);
    match keys(entries).index_of_first(key) {
        Some(p) => {
            assert(keys(entries)[p] == entries[p].key@);
            if i < p {
                assert(without(entries, key)[i] == entries[i]);
            } else {
                assert(without(entries, key)[i - 1] == entries[i]);
            }
        },
        None => {
            assert(without(entries, key)[i] == entries[i]);
        },
    }
}

} // verus!
