//! The raw event record: a tree of null, boolean, number, string, array and
//! object nodes, decoded from a transport payload before it reaches the
//! classifiers. Field access, the textual reading of a node, and the compact
//! dump used by fallback messages.
use vstd::prelude::*;
use vstd::string::*;

use crate::text::{dec_str_int, append_i64_dec, push_char, str_eq};

verus! {

broadcast use vstd::std_specs::vec::group_vec_axioms;

pub enum JsonNode {
    Null,
    Bool(bool),
    Num(i64),
    Str(String),
    Arr(Vec<JsonNode>),
    Obj(Vec<(String, JsonNode)>),
}

/// The value of the first entry with the given key; a null node when there
/// is no such entry.
pub open spec fn obj_lookup(entries: Seq<(String, JsonNode)>, key: Seq<char>) -> JsonNode
    decreases entries.len(),
{
    if entries.len() == 0 {
        JsonNode::Null
    } else if entries[0].0@ == key {
        entries[0].1
    } else {
        obj_lookup(entries.subrange(1, entries.len() as int), key)
    }
}

/// Field access as the classifiers read it: a null node when the record is
/// not an object or lacks the key.
pub open spec fn spec_get(node: JsonNode, key: Seq<char>) -> JsonNode {
    match node {
        JsonNode::Obj(entries) => obj_lookup(entries@, key),
        _ => JsonNode::Null,
    }
}

/// Whether some entry carries the given key.
pub open spec fn obj_has_key(entries: Seq<(String, JsonNode)>, key: Seq<char>) -> bool
    decreases entries.len(),
{
    if entries.len() == 0 {
        false
    } else if entries[0].0@ == key {
        true
    } else {
        obj_has_key(entries.subrange(1, entries.len() as int), key)
    }
}

pub open spec fn spec_has_key(node: JsonNode, key: Seq<char>) -> bool {
    match node {
        JsonNode::Obj(entries) => obj_has_key(entries@, key),
        _ => false,
    }
}

/// The item at an array index; a null node when out of range or not an
/// array.
pub open spec fn spec_at(node: JsonNode, index: int) -> JsonNode {
    match node {
        JsonNode::Arr(items) => if 0 <= index < items@.len() {
            items@[index]
        } else {
            JsonNode::Null
        },
        _ => JsonNode::Null,
    }
}

/// An optional reference read back as a node, absence reading as null.
pub open spec fn opt_node(r: Option<&JsonNode>) -> JsonNode {
    match r {
        Some(n) => *n,
        None => JsonNode::Null,
    }
}

/// The lower-case hex digit of one nibble.
pub open spec fn hex_digit_lower(d: int) -> char {
    if d < 10 {
        ((48 + d) as u8) as char
    } else {
        ((87 + d) as u8) as char
    }
}

/// One character of a string rendered inside a dump: the quote, the
/// backslash and the controls are escaped, everything else passes through.
pub open spec fn json_escaped_char(c: char) -> Seq<char> {
    if c == '"' {
        seq!['\\', '"']
    } else if c == '\\' {
        seq!['\\', '\\']
    } else if c == '\u{8}' {
        seq!['\\', 'b']
    } else if c == '\t' {
        seq!['\\', 't']
    } else if c == '\n' {
        seq!['\\', 'n']
    } else if c == '\u{c}' {
        seq!['\\', 'f']
    } else if c == '\r' {
        seq!['\\', 'r']
    } else if (c as u32) < 32 {
        seq!['\\', 'u', '0', '0', hex_digit_lower(c as u32 as int / 16), hex_digit_lower(
            c as u32 as int % 16,
        )]
    } else {
        seq![c]
    }
}

pub open spec fn json_escaped(s: Seq<char>) -> Seq<char> {
    s.flat_map(|c: char| json_escaped_char(c))
}

/// A string as it appears in a dump: quoted and escaped.
pub open spec fn dump_string(s: Seq<char>) -> Seq<char> {
    seq!['"'] + json_escaped(s) + seq!['"']
}

/// The compact dump of a record.
pub open spec fn spec_dump(node: JsonNode) -> Seq<char>
    decreases node,
{
    match node {
        JsonNode::Null => "null"@,
        JsonNode::Bool(b) => if b {
            "true"@
        } else {
            "false"@
        },
        JsonNode::Num(n) => dec_str_int(n as int),
        JsonNode::Str(s) => dump_string(s@),
        JsonNode::Arr(items) => seq!['['] + spec_dump_list(items@) + seq![']'],
        JsonNode::Obj(entries) => seq!['{'] + spec_dump_entries(entries@) + seq!['}'],
    }
}

/// The comma-separated dumps of an array's items.
pub open spec fn spec_dump_list(items: Seq<JsonNode>) -> Seq<char>
    decreases items,
{
    if items.len() == 0 {
        Seq::empty()
    } else if items.len() == 1 {
        spec_dump(items[0])
    } else {
        spec_dump(items[0]) + seq![','] + spec_dump_list(items.subrange(1, items.len() as int))
    }
}

/// The comma-separated dumps of an object's entries.
pub open spec fn spec_dump_entries(entries: Seq<(String, JsonNode)>) -> Seq<char>
    decreases entries,
{
    if entries.len() == 0 {
        Seq::empty()
    } else if entries.len() == 1 {
        dump_string(entries[0].0@) + seq![':'] + spec_dump(entries[0].1)
    } else {
        dump_string(entries[0].0@) + seq![':'] + spec_dump(entries[0].1) + seq![',']
            + spec_dump_entries(entries.subrange(1, entries.len() as int))
    }
}

/// The textual reading of a node: a string's own characters; the dump of
/// anything else, so that an absent field reads as the sentinel text "null".
pub open spec fn spec_text_of(node: JsonNode) -> Seq<char> {
    match node {
        JsonNode::Str(s) => s@,
        _ => spec_dump(node),
    }
}

/// The numeric reading of a node, when it is a number that fits.
pub open spec fn spec_as_u32(node: JsonNode) -> Option<u32> {
    match node {
        JsonNode::Num(n) => if 0 <= n <= u32::MAX {
            Some(n as u32)
        } else {
            None
        },
        _ => None,
    }
}

/// The boolean reading of a node.
pub open spec fn spec_as_bool(node: JsonNode) -> Option<bool> {
    match node {
        JsonNode::Bool(b) => Some(b),
        _ => None,
    }
}

/// Emptiness of a node: a null node, an empty or zero value, or a
/// collection without members.
pub open spec fn spec_is_empty(node: JsonNode) -> bool {
    match node {
        JsonNode::Null => true,
        JsonNode::Bool(b) => !b,
        JsonNode::Num(n) => n == 0,
        JsonNode::Str(s) => s@.len() == 0,
        JsonNode::Arr(items) => items@.len() == 0,
        JsonNode::Obj(entries) => entries@.len() == 0,
    }
}

/// The member count of a collection node; zero for every scalar.
pub open spec fn spec_len(node: JsonNode) -> nat {
    match node {
        JsonNode::Arr(items) => items@.len(),
        JsonNode::Obj(entries) => entries@.len(),
        _ => 0,
    }
}

impl JsonNode {
    /// Field access on an object; absence reads as a null node.
    pub fn get<'a>(&'a self, key: &str) -> (r: Option<&'a JsonNode>)
        ensures
            opt_node(r) == spec_get(*self, key@),
    {
        match self {
            JsonNode::Obj(entries) => {
                let n = entries.len();
                let mut i: usize = 0;
                proof {
                    assert(entries@.subrange(0, n as int) =~= entries@);
                }
                while i < n
                    invariant
                        n == entries@.len(),
                        i <= n,
                        *self == JsonNode::Obj(*entries),
                        obj_lookup(entries@, key@) == obj_lookup(
                            entries@.subrange(i as int, n as int),
                            key@,
                        ),
                    decreases n - i,
                {
                    let pair = &entries[i];
                    proof {
                        let rest = entries@.subrange(i as int, n as int);
                        assert(rest[0] == entries@[i as int]);
                        assert(rest.subrange(1, rest.len() as int) =~= entries@.subrange(
                            i as int + 1,
                            n as int,
                        ));
                    }
                    if str_eq(pair.0.as_str(), key) {
                        proof {
                            let rest = entries@.subrange(i as int, n as int);
                            assert(obj_lookup(rest, key@) == rest[0].1);
                        }
                        return Some(&pair.1);
                    }
                    i = i + 1;
                }
                None
            },
            _ => None,
        }
    }

    /// Two chained field accesses.
    pub fn get2<'a>(&'a self, key1: &str, key2: &str) -> (r: Option<&'a JsonNode>)
        ensures
            opt_node(r) == spec_get(spec_get(*self, key1@), key2@),
    {
        match self.get(key1) {
            Some(inner) => inner.get(key2),
            None => None,
        }
    }

    /// Whether an object carries the given key.
    pub fn has_key(&self, key: &str) -> (r: bool)
        ensures
            r == spec_has_key(*self, key@),
    {
        match self {
            JsonNode::Obj(entries) => {
                let n = entries.len();
                let mut i: usize = 0;
                proof {
                    assert(entries@.subrange(0, n as int) =~= entries@);
                }
                while i < n
                    invariant
                        n == entries@.len(),
                        i <= n,
                        *self == JsonNode::Obj(*entries),
                        obj_has_key(entries@, key@) == obj_has_key(
                            entries@.subrange(i as int, n as int),
                            key@,
                        ),
                    decreases n - i,
                {
                    let pair = &entries[i];
                    proof {
                        let rest = entries@.subrange(i as int, n as int);
                        assert(rest[0] == entries@[i as int]);
                        assert(rest.subrange(1, rest.len() as int) =~= entries@.subrange(
                            i as int + 1,
                            n as int,
                        ));
                    }
                    if str_eq(pair.0.as_str(), key) {
                        return true;
                    }
                    i = i + 1;
                }
                false
            },
            _ => false,
        }
    }

    /// The numeric reading of this node.
    pub fn as_u32(&self) -> (r: Option<u32>)
        ensures
            r == spec_as_u32(*self),
    {
        match self {
            JsonNode::Num(n) => {
                let v = *n;
                if 0 <= v && v <= u32::MAX as i64 {
                    Some(v as u32)
                } else {
                    None
                }
            },
            _ => None,
        }
    }

    /// The boolean reading of this node.
    pub fn as_bool(&self) -> (r: Option<bool>)
        ensures
            r == spec_as_bool(*self),
    {
        match self {
            JsonNode::Bool(b) => Some(*b),
            _ => None,
        }
    }

    /// Whether this node is a number.
    pub fn is_number(&self) -> (r: bool)
        ensures
            r == (*self is Num),
    {
        match self {
            JsonNode::Num(_) => true,
            _ => false,
        }
    }

    /// Emptiness of this node.
    pub fn is_empty(&self) -> (r: bool)
        ensures
            r == spec_is_empty(*self),
    {
        match self {
            JsonNode::Null => true,
            JsonNode::Bool(b) => !*b,
            JsonNode::Num(n) => *n == 0,
            JsonNode::Str(s) => s.as_str().is_empty(),
            JsonNode::Arr(items) => items.len() == 0,
            JsonNode::Obj(entries) => entries.len() == 0,
        }
    }

    /// The member count of this node.
    pub fn len(&self) -> (r: usize)
        ensures
            r == spec_len(*self),
    {
        match self {
            JsonNode::Arr(items) => items.len(),
            JsonNode::Obj(entries) => entries.len(),
            _ => 0,
        }
    }

    /// The item at an array index.
    pub fn at<'a>(&'a self, index: usize) -> (r: Option<&'a JsonNode>)
        ensures
            opt_node(r) == spec_at(*self, index as int),
    {
        match self {
            JsonNode::Arr(items) => {
                if index < items.len() {
                    Some(&items[index])
                } else {
                    None
                }
            },
            _ => None,
        }
    }

    /// The textual reading of the field with the given key.
    pub fn get_text(&self, key: &str) -> (r: String)
        ensures
            r@ == spec_text_of(spec_get(*self, key@)),
    {
        match self.get(key) {
            Some(node) => node.text_of(),
            None => "null".to_owned(),
        }
    }

    /// The numeric reading of a field reached by two keys.
    pub fn get2_u32(&self, key1: &str, key2: &str) -> (r: Option<u32>)
        ensures
            r == spec_as_u32(spec_get(spec_get(*self, key1@), key2@)),
    {
        match self.get2(key1, key2) {
            Some(node) => node.as_u32(),
            None => None,
        }
    }

    /// The boolean reading of the field with the given key.
    pub fn get_bool(&self, key: &str) -> (r: Option<bool>)
        ensures
            r == spec_as_bool(spec_get(*self, key@)),
    {
        match self.get(key) {
            Some(node) => node.as_bool(),
            None => None,
        }
    }

    /// The textual reading of this node.
    pub fn text_of(&self) -> (r: String)
        ensures
            r@ == spec_text_of(*self),
    {
        match self {
            JsonNode::Str(s) => s.clone(),
            _ => self.dump(),
        }
    }

    /// Renders the compact dump of this node.
    pub fn dump(&self) -> (r: String)
        ensures
            r@ == spec_dump(*self),
        decreases *self,
    {
        match self {
            JsonNode::Null => "null".to_owned(),
            JsonNode::Bool(b) => {
                if *b {
                    "true".to_owned()
                } else {
                    "false".to_owned()
                }
            },
            JsonNode::Num(n) => {
                let mut r = String::new();
                append_i64_dec(&mut r, *n);
                proof {
                    assert(r@ =~= dec_str_int(*n as int));
                }
                r
            },
            JsonNode::Str(s) => {
                let mut r = String::new();
                append_dump_string(&mut r, s.as_str());
                proof {
                    assert(r@ =~= dump_string(s@));
                }
                r
            },
            JsonNode::Arr(items) => {
                let mut r = String::new();
                push_char(&mut r, '[');
                let n = items.len();
                let mut i: usize = 0;
                while i < n
                    invariant
                        n == items@.len(),
                        i <= n,
                        r@ == seq!['['] + spec_dump_list(items@.subrange(0, i as int)) + if 0 < i
                            < n {
                            seq![',']
                        } else {
                            Seq::empty()
                        },
                        *self == JsonNode::Arr(*items),
                    decreases n - i,
                {
                    proof {
                        assert(decreases_to!(*self => (*self)->Arr_0));
                        assert((*self)->Arr_0 == *items);
                        assert(decreases_to!(*items => items@));
                        assert(decreases_to!(items@ => items@[i as int]));
                        assert(decreases_to!(*self => items@[i as int]));
                    }
                    let piece = items[i].dump();
                    r.append(piece.as_str());
                    if i + 1 < n {
                        push_char(&mut r, ',');
                    }
                    proof {
                        lemma_dump_list_snoc(items@, i as int);
                        assert(r@ =~= seq!['['] + spec_dump_list(
                            items@.subrange(0, i as int + 1),
                        ) + if 0 < i + 1 < n {
                            seq![',']
                        } else {
                            Seq::empty()
                        });
                    }
                    i = i + 1;
                }
                push_char(&mut r, ']');
                proof {
                    assert(items@.subrange(0, n as int) =~= items@);
                    assert(r@ =~= seq!['['] + spec_dump_list(items@) + seq![']']);
                }
                r
            },
            JsonNode::Obj(entries) => {
                let mut r = String::new();
                push_char(&mut r, '{');
                let n = entries.len();
                let mut i: usize = 0;
                while i < n
                    invariant
                        n == entries@.len(),
                        i <= n,
                        r@ == seq!['{'] + spec_dump_entries(entries@.subrange(0, i as int)) + if 0
                            < i < n {
                            seq![',']
                        } else {
                            Seq::empty()
                        },
                        *self == JsonNode::Obj(*entries),
                    decreases n - i,
                {
                    let pair = &entries[i];
                    proof {
                        assert(decreases_to!(*self => (*self)->Obj_0));
                        assert((*self)->Obj_0 == *entries);
                        assert(decreases_to!(*entries => entries@));
                        assert(decreases_to!(entries@ => entries@[i as int]));
                        assert(decreases_to!(entries@[i as int] => entries@[i as int].1));
                        assert(decreases_to!(*self => entries@[i as int].1));
                    }
                    append_dump_string(&mut r, pair.0.as_str());
                    push_char(&mut r, ':');
                    let piece = pair.1.dump();
                    r.append(piece.as_str());
                    if i + 1 < n {
                        push_char(&mut r, ',');
                    }
                    proof {
                        lemma_dump_entries_snoc(entries@, i as int);
                        assert(r@ =~= seq!['{'] + spec_dump_entries(
                            entries@.subrange(0, i as int + 1),
                        ) + if 0 < i + 1 < n {
                            seq![',']
                        } else {
                            Seq::empty()
                        });
                    }
                    i = i + 1;
                }
                push_char(&mut r, '}');
                proof {
                    assert(entries@.subrange(0, n as int) =~= entries@);
                    assert(r@ =~= seq!['{'] + spec_dump_entries(entries@) + seq!['}']);
                }
                r
            },
        }
    }
}

/// Appends a quoted, escaped string, as it appears inside a dump.
fn append_dump_string(out: &mut String, s: &str)
    ensures
        final(out)@ == old(out)@ + dump_string(s@),
{
    push_char(out, '"');
    let n = s.unicode_len();
    let mut i: usize = 0;
    proof {
        assert(s@.take(0).flat_map(|c: char| json_escaped_char(c)) =~= Seq::<char>::empty());
    }
    while i < n
        invariant
            n == s@.len(),
            i <= n,
            out@ == old(out)@ + seq!['"'] + s@.take(i as int).flat_map(
                |c: char| json_escaped_char(c),
            ),
        decreases n - i,
    {
        let c = s.get_char(i);
        if c == '"' {
            append_escape(out, '"');
        } else if c == '\\' {
            append_escape(out, '\\');
        } else if c == '\u{8}' {
            append_escape(out, 'b');
        } else if c == '\t' {
            append_escape(out, 't');
        } else if c == '\n' {
            append_escape(out, 'n');
        } else if c == '\u{c}' {
            append_escape(out, 'f');
        } else if c == '\r' {
            append_escape(out, 'r');
        } else if (c as u32) < 32 {
            push_char(out, '\\');
            push_char(out, 'u');
            push_char(out, '0');
            push_char(out, '0');
            let code = c as u32;
            let hi = (code / 16) as u8;
            let lo = (code % 16) as u8;
            push_char(out, if hi < 10 {
                (48 + hi) as char
            } else {
                (87 + hi) as char
            });
            push_char(out, if lo < 10 {
                (48 + lo) as char
            } else {
                (87 + lo) as char
            });
        } else {
            push_char(out, c);
        }
        proof {
            s@.lemma_flat_map_take_append(|c: char| json_escaped_char(c), i as int);
            assert(out@ =~= old(out)@ + seq!['"'] + s@.take(i as int + 1).flat_map(
                |c: char| json_escaped_char(c),
            ));
        }
        i = i + 1;
    }
    push_char(out, '"');
    proof {
        assert(s@.take(n as int) =~= s@);
        assert(final(out)@ =~= old(out)@ + dump_string(s@));
    }
}

fn append_escape(out: &mut String, c: char)
    ensures
        final(out)@ == old(out)@ + seq!['\\', c],
{
    push_char(out, '\\');
    push_char(out, c);
    proof {
        assert(final(out)@ =~= old(out)@ + seq!['\\', c]);
    }
}

/// Extending a dumped prefix of a list by one item.
proof fn lemma_dump_list_snoc(items: Seq<JsonNode>, i: int)
    requires
        0 <= i < items.len(),
    ensures
        spec_dump_list(items.subrange(0, i + 1)) == spec_dump_list(items.subrange(0, i)) + if i
            > 0 {
            seq![',']
        } else {
            Seq::<char>::empty()
        } + spec_dump(items[i]),
    decreases i,
{
    if i == 0 {
        assert(items.subrange(0, 1) =~= seq![items[0]]);
        assert(items.subrange(0, 0) =~= Seq::<JsonNode>::empty());
        assert(spec_dump_list(items.subrange(0, 1)) =~= spec_dump_list(items.subrange(0, 0))
            + Seq::<char>::empty() + spec_dump(items[0]));
    } else {
        let tail = items.subrange(1, items.len() as int);
        lemma_dump_list_snoc(tail, i - 1);
        let pre1 = items.subrange(0, i + 1);
        let pre0 = items.subrange(0, i);
        assert(pre1.subrange(1, pre1.len() as int) =~= tail.subrange(0, i));
        assert(pre0.subrange(1, pre0.len() as int) =~= tail.subrange(0, i - 1));
        assert(pre1[0] == items[0]);
        assert(pre0[0] == items[0]);
        assert(tail[i - 1] == items[i]);
        if i == 1 {
            assert(tail.subrange(0, 1) =~= seq![tail[0]]);
            assert(spec_dump_list(pre1) =~= spec_dump_list(pre0) + seq![','] + spec_dump(
                items[1],
            ));
        } else {
            assert(spec_dump_list(pre1) =~= spec_dump_list(pre0) + seq![','] + spec_dump(
                items[i],
            ));
        }
    }
}

/// Extending a dumped prefix of an object by one entry.
proof fn lemma_dump_entries_snoc(entries: Seq<(String, JsonNode)>, i: int)
    requires
        0 <= i < entries.len(),
    ensures
        spec_dump_entries(entries.subrange(0, i + 1)) == spec_dump_entries(entries.subrange(0, i))
            + if i > 0 {
            seq![',']
        } else {
            Seq::<char>::empty()
        } + dump_string(entries[i].0@) + seq![':'] + spec_dump(entries[i].1),
    decreases i,
{
    if i == 0 {
        assert(entries.subrange(0, 1) =~= seq![entries[0]]);
        assert(entries.subrange(0, 0) =~= Seq::<(String, JsonNode)>::empty());
        assert(spec_dump_entries(entries.subrange(0, 1)) =~= spec_dump_entries(
            entries.subrange(0, 0),
        ) + Seq::<char>::empty() + dump_string(entries[0].0@) + seq![':'] + spec_dump(
            entries[0].1,
        ));
    } else {
        let tail = entries.subrange(1, entries.len() as int);
        lemma_dump_entries_snoc(tail, i - 1);
        let pre1 = entries.subrange(0, i + 1);
        let pre0 = entries.subrange(0, i);
        assert(pre1.subrange(1, pre1.len() as int) =~= tail.subrange(0, i));
        assert(pre0.subrange(1, pre0.len() as int) =~= tail.subrange(0, i - 1));
        assert(pre1[0] == entries[0]);
        assert(pre0[0] == entries[0]);
        assert(tail[i - 1] == entries[i]);
        if i == 1 {
            assert(tail.subrange(0, 1) =~= seq![tail[0]]);
            assert(spec_dump_entries(pre1) =~= spec_dump_entries(pre0) + seq![','] + dump_string(
                entries[1].0@,
            ) + seq![':'] + spec_dump(entries[1].1));
        } else {
            assert(spec_dump_entries(pre1) =~= spec_dump_entries(pre0) + seq![','] + dump_string(
                entries[i].0@,
            ) + seq![':'] + spec_dump(entries[i].1));
        }
    }
}

} // verus!
