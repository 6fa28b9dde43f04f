//! A parsed JSON document and the nested-key search over it.

use vstd::prelude::*;

verus! {

/// One named member of a JSON object.
pub struct Member {
    pub name: String,
    pub value: JsonNode,
}

/// A node of a parsed JSON document.
///
/// A string holds its contents in `value`. Every other node holds in `text`
/// its compact JSON rendering.
pub enum JsonNode {
    /// A JSON string: `value` is what the string holds, without the quotes
    /// and with the escapes resolved.
    Text { value: String },
    /// A number, a boolean or `null`.
    Scalar { text: String },
    /// An array with its elements in document order.
    Array { text: String, items: Vec<JsonNode> },
    /// An object with its members in document order.
    Object { text: String, members: Vec<Member> },
}

/// The value of the first member called `key` among `members[from..]`.
///
/// Among members of one name the first wins. That choice shows only in a
/// document built by hand: where a JSON text repeats a name inside one
/// object, the parser keeps a single member of that name, at the place of
/// the first and with the value of the last.
pub open spec fn direct_member(members: Seq<Member>, key: Seq<char>, from: int) -> Option<Seq<char>>
    decreases members.len() - from,
{
    if from < 0 || from >= members.len() {
        None
    } else if members[from].name@ == key {
        Some(members[from].value.stringified())
    } else {
        direct_member(members, key, from + 1)
    }
}

/// The first hit of the search in `items[from..]`, element by element.
pub open spec fn first_in_items(items: Seq<JsonNode>, key: Seq<char>, from: int) -> Option<Seq<char>>
    decreases items, items.len() - from,
{
    if from < 0 || from >= items.len() {
        None
    } else {
        match items[from].find_key(key) {
            Some(text) => Some(text),
            None => first_in_items(items, key, from + 1),
        }
    }
}

/// The first hit of the search inside the values of `members[from..]`,
/// member by member.
pub open spec fn first_in_members(members: Seq<Member>, key: Seq<char>, from: int) -> Option<Seq<char>>
    decreases members, members.len() - from,
{
    if from < 0 || from >= members.len() {
        None
    } else {
        match members[from].value.find_key(key) {
            Some(text) => Some(text),
            None => first_in_members(members, key, from + 1),
        }
    }
}

impl JsonNode {
    /// The string that stands for this node when it is the value found: the
    /// contents of a string as they are, the JSON rendering of anything
    /// else.
    pub open spec fn stringified(&self) -> Seq<char> {
        match self {
            JsonNode::Text { value } => value@,
            JsonNode::Scalar { text } => text@,
            JsonNode::Array { text, .. } => text@,
            JsonNode::Object { text, .. } => text@,
        }
    }

    /// The result of searching this node for `key`.
    ///
    /// An object answers with its own member of that name if it has one, and
    /// only otherwise descends into its member values, first to last. An
    /// array descends into its elements, first to last. A string, a number,
    /// a boolean and `null` hold nothing to find. The search is depth-first
    /// and stops at the first hit.
    pub open spec fn find_key(&self, key: Seq<char>) -> Option<Seq<char>>
        decreases self, 0int,
    {
        match self {
            JsonNode::Text { .. } => None,
            JsonNode::Scalar { .. } => None,
            JsonNode::Array { items, .. } => first_in_items(items@, key, 0),
            JsonNode::Object { members, .. } => match direct_member(members@, key, 0) {
                Some(text) => Some(text),
                None => first_in_members(members@, key, 0),
            },
        }
    }

    /// Some object in this node, the node itself or one below it, has a
    /// member called `key`.
    pub open spec fn holds_key(&self, key: Seq<char>) -> bool
        decreases self,
    {
        match self {
            JsonNode::Text { .. } => false,
            JsonNode::Scalar { .. } => false,
            JsonNode::Array { items, .. } => exists|i: int|
                0 <= i < items@.len() && (#[trigger] items@[i]).holds_key(key),
            JsonNode::Object { members, .. } => exists|i: int|
                0 <= i < members@.len() && ((#[trigger] members@[i]).name@ == key || members@[i].value.holds_key(
                    key,
                )),
        }
    }

    /// A copy of the string that stands for this node.
    pub fn text(&self) -> (text: String)
        ensures
            text@ == self.stringified(),
    {
        match self {
            JsonNode::Text { value } => value.clone(),
            JsonNode::Scalar { text } => text.clone(),
            JsonNode::Array { text, .. } => text.clone(),
            JsonNode::Object { text, .. } => text.clone(),
        }
    }
}

/// `serde_json::Value`, the parser's own document type: carried from the
/// parser to the copy into a `JsonNode`, and never looked into.
#[verifier::external_type_specification]
#[verifier::external_body]
pub struct ExValue(serde_json::Value);

/// What `serde_json::from_str::<serde_json::Value>` makes of `text`: the
/// document where `text` is valid JSON, `None` where it is not. A string
/// of the document is a `Text` with the string's contents; every other node
/// carries what `serde_json` prints for it.
pub uninterp spec fn json_document(text: Seq<char>) -> Option<JsonNode>;

/// Copies a `serde_json::Value` into a `JsonNode`, one arm for each variant.
///
/// The arm for `Value::String` moves the string over. Every other arm calls
/// `Value`'s `Display`, which prints compact JSON, for `text`. Elements and
/// members keep the order in which `serde_json` iterates them, which is the
/// order of the document. Nothing is claimed of the result here.
#[verifier::external_body]
fn node_of_value(value: &serde_json::Value) -> JsonNode {
    match value {
        serde_json::Value::Null => JsonNode::Scalar { text: value.to_string() },
        serde_json::Value::Bool(_) => JsonNode::Scalar { text: value.to_string() },
        serde_json::Value::Number(_) => JsonNode::Scalar { text: value.to_string() },
        serde_json::Value::String(s) => JsonNode::Text { value: s.clone() },
        serde_json::Value::Array(a) => {
            JsonNode::Array { text: value.to_string(), items: a.iter().map(node_of_value).collect() }
        },
        serde_json::Value::Object(m) => {
            let members = m.iter().map(|(k, v)| Member { name: k.clone(), value: node_of_value(v) }).collect();
            JsonNode::Object { text: value.to_string(), members }
        },
    }
}

/// Parses `text` with `serde_json::from_str::<serde_json::Value>`.
///
/// Trusted: the parser's answer depends on `text` alone, so it is equated
/// with `json_document(text@)`; a parse error of any kind becomes `None`.
/// Where `text` repeats a member name inside one object, the parser keeps a
/// single member of that name: it stands where the first stood and holds
/// the value of the last.
#[verifier::external_body]
pub(crate) fn parse_json(text: &str) -> (document: Option<JsonNode>)
    ensures
        document == json_document(text@),
{
    match serde_json::from_str::<serde_json::Value>(text) {
        Ok(value) => Some(node_of_value(&value)),
        Err(_) => None,
    }
}

/// Searches `node` for `key` and returns the first hit, stringified.
#[verifier::loop_isolation(false)]
pub fn search(node: &JsonNode, key: &String) -> (found: Option<String>)
    ensures
        found.deep_view() == node.find_key(key@),
    decreases node,
{
    match node {
        JsonNode::Text { .. } => None,
        JsonNode::Scalar { .. } => None,
        JsonNode::Array { items, .. } => {
            let mut i: usize = 0;
            while i < items.len()
                invariant
                    i <= items.len(),
                    first_in_items(items@, key@, 0) == first_in_items(items@, key@, i as int),
                decreases items.len() - i,
            {
                let hit = search(&items[i], key);
                if hit.is_some() {
                    return hit;
                }
                i += 1;
            }
            None
        },
        JsonNode::Object { members, .. } => {
            let mut i: usize = 0;
            while i < members.len()
                invariant
                    i <= members.len(),
                    direct_member(members@, key@, 0) == direct_member(members@, key@, i as int),
                decreases members.len() - i,
            {
                if members[i].name == *key {
                    return Some(members[i].value.text());
                }
                i += 1;
            }
            let mut j: usize = 0;
            while j < members.len()
                invariant
                    j <= members.len(),
                    direct_member(members@, key@, 0).is_none(),
                    first_in_members(members@, key@, 0) == first_in_members(members@, key@, j as int),
                decreases members.len() - j,
            {
                let hit = search(&members[j].value, key);
                if hit.is_some() {
                    return hit;
                }
                j += 1;
            }
            None
        },
    }
}

/// Among members of one name the first wins: a direct lookup answers with
/// the value of the first member called `key`, and with nothing exactly
/// where no member is called `key`.
pub proof fn direct_member_is_first(members: Seq<Member>, key: Seq<char>, from: int)
    requires
        0 <= from,
    ensures
        match direct_member(members, key, from) {
            Some(text) => exists|i: int|
                from <= i < members.len() && (#[trigger] members[i]).name@ == key && text
                    == members[i].value.stringified() && forall|j: int|
                    from <= j < i ==> (#[trigger] members[j]).name@ != key,
            None => forall|j: int| from <= j < members.len() ==> (#[trigger] members[j]).name@ != key,
        },
    decreases members.len() - from,
{
    if from < members.len() {
        if members[from].name@ == key {
            assert(members[from].name@ == key && forall|j: int|
                from <= j < from ==> (#[trigger] members[j]).name@ != key);
        } else {
            direct_member_is_first(members, key, from + 1);
            match direct_member(members, key, from + 1) {
                Some(text) => {
                    let i = choose|i: int|
                        from + 1 <= i < members.len() && (#[trigger] members[i]).name@ == key && text
                            == members[i].value.stringified() && forall|j: int|
                            from + 1 <= j < i ==> (#[trigger] members[j]).name@ != key;
                    assert(forall|j: int| from <= j < i ==> (#[trigger] members[j]).name@ != key);
                },
                None => {},
            }
        }
    }
}

/// A string is handed out as it is: where the first member called `key` of
/// an object holds a string, the search answers with the string's contents,
/// with nothing added and nothing taken away.
pub proof fn string_is_handed_out_as_it_is(node: JsonNode, key: Seq<char>, at: int)
    requires
        node is Object,
        0 <= at < node->members@.len(),
        node->members@[at].name@ == key,
        forall|j: int| 0 <= j < at ==> (#[trigger] node->members@[j]).name@ != key,
        node->members@[at].value is Text,
    ensures
        node.find_key(key) == Some(node->members@[at].value->value@),
{
    first_named_is_direct(node->members@, key, 0, at);
}

/// Anything but a string is handed out as its JSON rendering: where the
/// first member called `key` of an object holds a number, a boolean,
/// `null`, an array or an object, the search answers with that value's
/// `text`.
pub proof fn other_value_is_handed_out_rendered(node: JsonNode, key: Seq<char>, at: int)
    requires
        node is Object,
        0 <= at < node->members@.len(),
        node->members@[at].name@ == key,
        forall|j: int| 0 <= j < at ==> (#[trigger] node->members@[j]).name@ != key,
        !(node->members@[at].value is Text),
    ensures
        node.find_key(key) == Some(
            match node->members@[at].value {
                JsonNode::Text { value } => value@,
                JsonNode::Scalar { text } => text@,
                JsonNode::Array { text, .. } => text@,
                JsonNode::Object { text, .. } => text@,
            },
        ),
{
    first_named_is_direct(node->members@, key, 0, at);
}

/// Where `members[at]` is the first member called `key` from `from` on, a
/// direct lookup from `from` answers with its value.
pub proof fn first_named_is_direct(members: Seq<Member>, key: Seq<char>, from: int, at: int)
    requires
        0 <= from <= at < members.len(),
        members[at].name@ == key,
        forall|j: int| from <= j < at ==> (#[trigger] members[j]).name@ != key,
    ensures
        direct_member(members, key, from) == Some(members[at].value.stringified()),
    decreases at - from,
{
    if from < at {
        first_named_is_direct(members, key, from + 1, at);
    }
}

/// A member of the object itself wins over anything deeper: where an object
/// has a member called `key`, the search answers with the first such
/// member's value, whatever its other members hold.
pub proof fn own_member_wins(node: JsonNode, key: Seq<char>)
    requires
        node is Object,
        direct_member(node->members@, key, 0).is_some(),
    ensures
        node.find_key(key) == direct_member(node->members@, key, 0),
{
}

/// The search misses nothing: it finds a value exactly where some object of
/// the document has a member called `key`.
pub proof fn found_iff_present(node: JsonNode, key: Seq<char>)
    ensures
        node.find_key(key).is_some() <==> node.holds_key(key),
    decreases node, 0int,
{
    match node {
        JsonNode::Text { .. } => {},
        JsonNode::Scalar { .. } => {},
        JsonNode::Array { items, .. } => {
            items_found_iff_present(items@, key, 0);
        },
        JsonNode::Object { members, .. } => {
            direct_member_is_first(members@, key, 0);
            members_found_iff_present(members@, key, 0);
        },
    }
}

/// The search through `items[from..]` finds a value exactly where one of
/// those elements holds the key.
pub proof fn items_found_iff_present(items: Seq<JsonNode>, key: Seq<char>, from: int)
    requires
        0 <= from,
    ensures
        first_in_items(items, key, from).is_some() <==> exists|i: int|
            from <= i < items.len() && (#[trigger] items[i]).holds_key(key),
    decreases items, items.len() - from,
{
    if from < items.len() {
        found_iff_present(items[from], key);
        items_found_iff_present(items, key, from + 1);
        if first_in_items(items, key, from).is_some() {
            if items[from].find_key(key).is_some() {
                assert(items[from].holds_key(key));
            } else {
                let i = choose|i: int| from + 1 <= i < items.len() && (#[trigger] items[i]).holds_key(key);
                assert(from <= i < items.len() && items[i].holds_key(key));
            }
        }
    }
}

/// The search through the values of `members[from..]` finds a value exactly
/// where one of those values holds the key.
pub proof fn members_found_iff_present(members: Seq<Member>, key: Seq<char>, from: int)
    requires
        0 <= from,
    ensures
        first_in_members(members, key, from).is_some() <==> exists|i: int|
            from <= i < members.len() && (#[trigger] members[i]).value.holds_key(key),
    decreases members, members.len() - from,
{
    if from < members.len() {
        found_iff_present(members[from].value, key);
        members_found_iff_present(members, key, from + 1);
        if first_in_members(members, key, from).is_some() {
            if members[from].value.find_key(key).is_some() {
                assert(members[from].value.holds_key(key));
            } else {
                let i = choose|i: int|
                    from + 1 <= i < members.len() && (#[trigger] members[i]).value.holds_key(key);
                assert(from <= i < members.len() && members[i].value.holds_key(key));
            }
        }
    }
}

} // verus!
