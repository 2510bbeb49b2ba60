//! Documents of the statistics service.
//!
//! A document is read with `serde_json` and then kept as a tree of plain
//! values, each node with the text that `serde_json` writes for it, so that
//! everything that is looked up in a document is looked up here.

use vstd::prelude::*;
use serde_json::Value;
use crate::text::same_text;

verus! {

/// What a node of a document is.
#[derive(Debug)]
pub enum JsonKind {
    Null,
    Bool(bool),
    /// A number; its digits are the node's text.
    Number,
    Text(String),
    Array(Vec<Json>),
    /// The members of an object, each a name and a value.
    Object(Vec<(String, Json)>),
}

/// A node of a document.
#[derive(Debug)]
pub struct Json {
    /// The node written out as JSON, without any white space.
    pub text: String,
    pub kind: JsonKind,
}

/// One step down into a document: to the member of that name, or to the
/// element at that place.
#[derive(Clone, Copy, Debug)]
pub enum Step<'a> {
    Key(&'a str),
    Index(usize),
}

/// `serde_json::Value`, of which nothing is seen here: a value is copied
/// node by node as soon as it has been read.
#[verifier::external_type_specification]
#[verifier::external_body]
pub struct ExValue(Value);

/// The document that `text` spells, or what `serde_json` says against it.
pub uninterp spec fn json_of(text: Seq<char>) -> Result<Json, Seq<char>>;

/// Copies a value of `serde_json` node by node: each node gets the text
/// that the value's `Display` writes for it, a string its content, an
/// array its elements and an object its members in the order in which
/// `serde_json` walks them. Nothing is claimed of the copy.
#[verifier::external_body]
fn json_from_value(value: &Value) -> (json: Json) {
    let kind = match value {
        Value::Null => JsonKind::Null,
        Value::Bool(b) => JsonKind::Bool(*b),
        Value::Number(_) => JsonKind::Number,
        Value::String(s) => JsonKind::Text(s.clone()),
        Value::Array(a) => JsonKind::Array(a.iter().map(json_from_value).collect()),
        Value::Object(o) => JsonKind::Object(
            o.iter().map(|(k, v)| (k.clone(), json_from_value(v))).collect(),
        ),
    };
    Json { text: value.to_string(), kind }
}

/// Reads a document with `serde_json::from_str`. The result is the one
/// named by `json_of`: the document, or the error in its `Debug` form.
#[verifier::external_body]
fn read_json(text: &str) -> (result: Result<Json, String>)
    ensures
        match result {
            Ok(json) => json_of(text@) == Ok::<Json, Seq<char>>(json),
            Err(e) => json_of(text@) == Err::<Json, Seq<char>>(e@),
        },
{
    match serde_json::from_str::<Value>(text) {
        Ok(value) => Ok(json_from_value(&value)),
        Err(err) => Err(format!("{:?}", err)),
    }
}

/// The value of the first member named `key`, if there is one.
pub open spec fn lookup(members: Seq<(String, Json)>, key: Seq<char>) -> Option<Json>
    decreases members.len(),
{
    if members.len() == 0 {
        None
    } else if members[0].0@ == key {
        Some(members[0].1)
    } else {
        lookup(members.drop_first(), key)
    }
}

impl Json {
    pub open spec fn spec_is_null(&self) -> bool {
        self.kind is Null
    }

    /// The node one step down, if the step leads anywhere: a name leads
    /// into an object that has such a member, a place into an array that
    /// is long enough.
    pub open spec fn child(self, step: Step) -> Option<Json> {
        match (step, self.kind) {
            (Step::Key(key), JsonKind::Object(members)) => lookup(members@, key@),
            (Step::Index(i), JsonKind::Array(elements)) => if i < elements@.len() {
                Some(elements@[i as int])
            } else {
                None
            },
            _ => None,
        }
    }

    /// The node at the end of `path`, if every step leads somewhere.
    pub open spec fn at(self, path: Seq<Step>) -> Option<Json>
        decreases path.len(),
    {
        if path.len() == 0 {
            Some(self)
        } else {
            match self.child(path[0]) {
                Some(next) => next.at(path.drop_first()),
                None => None,
            }
        }
    }

    /// The text of the node at the end of `path`; where the path leads
    /// nowhere, the text of the null document.
    pub open spec fn text_at(self, path: Seq<Step>) -> Seq<char> {
        match self.at(path) {
            Some(node) => node.text@,
            None => "null"@,
        }
    }

    /// The content of the string at the end of `path`, if a string is
    /// there.
    pub open spec fn string_at(self, path: Seq<Step>) -> Option<Seq<char>> {
        match self.at(path) {
            Some(node) => match node.kind {
                JsonKind::Text(s) => Some(s@),
                _ => None,
            },
            None => None,
        }
    }

    /// The elements of the array at the end of `path`, if an array is
    /// there.
    pub open spec fn elements_at(self, path: Seq<Step>) -> Option<Seq<Json>> {
        match self.at(path) {
            Some(node) => match node.kind {
                JsonKind::Array(elements) => Some(elements@),
                _ => None,
            },
            None => None,
        }
    }

    /// Whether the path ends at no node or at a null.
    pub open spec fn null_at(self, path: Seq<Step>) -> bool {
        match self.at(path) {
            Some(node) => node.kind is Null,
            None => true,
        }
    }

    /// Reads a document.
    pub fn parse(text: &str) -> (result: Result<Json, String>)
        ensures
            match result {
                Ok(json) => json_of(text@) == Ok::<Json, Seq<char>>(json),
                Err(e) => json_of(text@) == Err::<Json, Seq<char>>(e@),
            },
    {
        read_json(text)
    }

    #[verifier::when_used_as_spec(spec_is_null)]
    pub fn is_null(&self) -> (yes: bool)
        ensures
            yes == self.spec_is_null(),
    {
        match self.kind {
            JsonKind::Null => true,
            _ => false,
        }
    }

    /// The content of a string, and nothing for any other node.
    pub fn as_str(&self) -> (content: Option<&str>)
        ensures
            match self.kind {
                JsonKind::Text(s) => content is Some && content->0@ == s@,
                _ => content is None,
            },
    {
        match &self.kind {
            JsonKind::Text(s) => Some(s.as_str()),
            _ => None,
        }
    }

    /// The elements of an array, and nothing for any other node.
    pub fn as_array(&self) -> (elements: Option<&Vec<Json>>)
        ensures
            match self.kind {
                JsonKind::Array(a) => elements == Some(&a),
                _ => elements is None,
            },
    {
        match &self.kind {
            JsonKind::Array(a) => Some(a),
            _ => None,
        }
    }

    /// Goes one step down.
    pub fn step(&self, step: Step) -> (next: Option<&Json>)
        ensures
            match next {
                Some(node) => self.child(step) == Some(*node),
                None => self.child(step) is None,
            },
    {
        match step {
            Step::Key(key) => match &self.kind {
                JsonKind::Object(members) => {
                    let mut i: usize = 0;
                    assert(members@.skip(0) =~= members@);
                    while i < members.len()
                        invariant
                            i <= members@.len(),
                            self.child(step) == lookup(members@, key@),
                            lookup(members@, key@) == lookup(members@.skip(i as int), key@),
                        decreases members@.len() - i,
                    {
                        if same_text(members[i].0.as_str(), key) {
                            assert(members@.skip(i as int)[0] == members@[i as int]);
                            return Some(&members[i].1);
                        }
                        assert(members@.skip(i as int)[0] == members@[i as int]);
                        assert(members@.skip(i as int).drop_first() =~= members@.skip(i + 1));
                        i += 1;
                    }
                    None
                },
                _ => None,
            },
            Step::Index(at) => match &self.kind {
                JsonKind::Array(elements) => if at < elements.len() {
                    Some(&elements[at])
                } else {
                    None
                },
                _ => None,
            },
        }
    }

    /// Goes down the whole path.
    pub fn get(&self, path: &[Step]) -> (found: Option<&Json>)
        ensures
            match found {
                Some(node) => self.at(path@) == Some(*node),
                None => self.at(path@) is None,
            },
    {
        let mut node: &Json = self;
        let mut i: usize = 0;
        assert(path@.skip(0) =~= path@);
        while i < path.len()
            invariant
                i <= path@.len(),
                self.at(path@) == node.at(path@.skip(i as int)),
            decreases path@.len() - i,
        {
            assert(path@.skip(i as int).drop_first() =~= path@.skip(i + 1));
            match node.step(path[i]) {
                Some(next) => {
                    node = next;
                },
                None => {
                    return None;
                },
            }
            i += 1;
        }
        Some(node)
    }

    /// The text of the node at the end of the path.
    pub fn text_of(&self, path: &[Step]) -> (text: String)
        ensures
            text@ == self.text_at(path@),
    {
        match self.get(path) {
            Some(node) => node.text.clone(),
            None => String::from_str("null"),
        }
    }

    /// The content of the string at the end of the path.
    pub fn string_of(&self, path: &[Step]) -> (content: Option<&str>)
        ensures
            match content {
                Some(s) => self.string_at(path@) == Some(s@),
                None => self.string_at(path@) is None,
            },
    {
        match self.get(path) {
            Some(node) => node.as_str(),
            None => None,
        }
    }

    /// The elements of the array at the end of the path.
    pub fn elements_of(&self, path: &[Step]) -> (elements: Option<&Vec<Json>>)
        ensures
            match elements {
                Some(a) => self.elements_at(path@) == Some(a@),
                None => self.elements_at(path@) is None,
            },
    {
        match self.get(path) {
            Some(node) => node.as_array(),
            None => None,
        }
    }

    /// Whether the path ends at no node or at a null.
    pub fn is_null_at(&self, path: &[Step]) -> (yes: bool)
        ensures
            yes == self.null_at(path@),
    {
        match self.get(path) {
            Some(node) => node.is_null(),
            None => true,
        }
    }
}

} // verus!
