//! Compact JSON text of values that hold no single-precision numbers.
use vstd::prelude::*;
use vstd::string::*;
use crate::json::{member_trees, push_value, tree, trees, JsonNumber, JsonTree, JsonValue, ObjectBuilder};
use crate::text::{decimal, hex_digits, push_decimal, push_hex, string_push};

verus! {

/// How one character of a string is written inside JSON quotes.
pub open spec fn escape_char(c: char) -> Seq<char> {
    if c == '"' {
        seq!['\\', '"']
    } else if c == '\\' {
        seq!['\\', '\\']
    } else if c == '\n' {
        seq!['\\', 'n']
    } else if c == '\r' {
        seq!['\\', 'r']
    } else if c == '\t' {
        seq!['\\', 't']
    } else if c == '\u{8}' {
        seq!['\\', 'b']
    } else if c == '\u{c}' {
        seq!['\\', 'f']
    } else if (c as u32) < 0x20 {
        seq!['\\', 'u'] + hex_digits(c as nat, 4)
    } else {
        seq![c]
    }
}

pub open spec fn escaped(s: Seq<char>) -> Seq<char>
    decreases s.len(),
{
    if s.len() == 0 {
        Seq::empty()
    } else {
        escaped(s.drop_last()) + escape_char(s.last())
    }
}

pub open spec fn quoted_text(s: Seq<char>) -> Seq<char> {
    seq!['"'] + escaped(s) + seq!['"']
}

pub open spec fn int_text(i: i64) -> Seq<char> {
    if i < 0 {
        seq!['-'] + decimal((-(i as int)) as nat)
    } else {
        decimal(i as nat)
    }
}

/// The compact JSON text of a value, when it holds no single-precision number.
pub open spec fn json_text(t: JsonTree) -> Option<Seq<char>>
    decreases t, 1nat,
{
    match t {
        JsonTree::Null => Some("null"@),
        JsonTree::Bool(b) => Some(if b { "true"@ } else { "false"@ }),
        JsonTree::Number(_, _, _, text) => Some(text),
        JsonTree::UInt(u) => Some(decimal(u as nat)),
        JsonTree::Int(i) => Some(int_text(i)),
        JsonTree::Float32(_) => None,
        JsonTree::Str(s) => Some(quoted_text(s)),
        JsonTree::Array(items) => match items_text(items) {
            Some(body) => Some(seq!['['] + body + seq![']']),
            None => None,
        },
        JsonTree::Object(members) => match members_text(members) {
            Some(body) => Some(seq!['{'] + body + seq!['}']),
            None => None,
        },
        JsonTree::Text(inner) => match json_text(*inner) {
            Some(body) => Some(quoted_text(body)),
            None => None,
        },
    }
}

/// The texts of items, separated by commas.
pub open spec fn items_text(items: Seq<JsonTree>) -> Option<Seq<char>>
    decreases items, 0nat,
{
    if items.len() == 0 {
        Some(Seq::empty())
    } else {
        match (items_text(items.drop_last()), json_text(items.last())) {
            (Some(front), Some(last)) => Some(
                if items.len() == 1 {
                    last
                } else {
                    front + seq![','] + last
                },
            ),
            _ => None,
        }
    }
}

/// The texts of members as `"key":value`, separated by commas.
pub open spec fn members_text(members: Seq<(Seq<char>, JsonTree)>) -> Option<Seq<char>>
    decreases members, 0nat,
{
    if members.len() == 0 {
        Some(Seq::empty())
    } else {
        proof {
            assert(decreases_to!(members => members[members.len() - 1]));
        }
        match (members_text(members.drop_last()), json_text(members.last().1)) {
            (Some(front), Some(last)) => {
                let member = quoted_text(members.last().0) + seq![':'] + last;
                Some(
                    if members.len() == 1 {
                        member
                    } else {
                        front + seq![','] + member
                    },
                )
            },
            _ => None,
        }
    }
}

fn push_str(out: &mut String, s: &str)
    ensures
        final(out)@ == old(out)@ + s@,
{
    out.append(s);
}

/// Appends the escaped characters of `s`.
pub fn push_escaped(out: &mut String, s: &str)
    ensures
        final(out)@ == old(out)@ + escaped(s@),
{
    let n = s.unicode_len();
    let ghost start = out@;
    let mut i: usize = 0;
    assert(s@.take(0) =~= Seq::<char>::empty());
    while i < n
        invariant
            n == s@.len(),
            i <= n,
            out@ == start + escaped(s@.take(i as int)),
        decreases n - i,
    {
        let c = s.get_char(i);
        assert(s@.take(i + 1).drop_last() =~= s@.take(i as int));
        assert(s@.take(i + 1).last() == c);
        if c == '"' {
            push_str(out, "\\\"");
            proof { reveal_strlit("\\\""); }
        } else if c == '\\' {
            push_str(out, "\\\\");
            proof { reveal_strlit("\\\\"); }
        } else if c == '\n' {
            push_str(out, "\\n");
            proof { reveal_strlit("\\n"); }
        } else if c == '\r' {
            push_str(out, "\\r");
            proof { reveal_strlit("\\r"); }
        } else if c == '\t' {
            push_str(out, "\\t");
            proof { reveal_strlit("\\t"); }
        } else if c == '\u{8}' {
            push_str(out, "\\b");
            proof { reveal_strlit("\\b"); }
        } else if c == '\u{c}' {
            push_str(out, "\\f");
            proof { reveal_strlit("\\f"); }
        } else if (c as u32) < 0x20 {
            push_str(out, "\\u");
            proof { reveal_strlit("\\u"); }
            push_hex(out, c as u64, 4);
        } else {
            string_push(out, c);
        }
        proof {
            assert(out@ =~= start + escaped(s@.take(i as int)) + escape_char(c));
        }
        i += 1;
    }
    assert(s@.take(n as int) =~= s@);
}

/// Appends the JSON text of `v`; false, with `out` in an unspecified state,
/// when `v` holds a single-precision number.
pub fn push_json_text(out: &mut String, v: &JsonValue) -> (ok: bool)
    ensures
        ok == (json_text(tree(*v)) is Some),
        ok ==> final(out)@ == old(out)@ + json_text(tree(*v))->0,
    decreases *v,
{
    match v {
        JsonValue::Null => {
            push_str(out, "null");
            true
        },
        JsonValue::Bool(b) => {
            push_str(out, if *b { "true" } else { "false" });
            true
        },
        JsonValue::Number(n) => {
            push_str(out, n.text.as_str());
            true
        },
        JsonValue::UInt(u) => {
            push_decimal(out, *u);
            true
        },
        JsonValue::Int(i) => {
            if *i < 0 {
                string_push(out, '-');
                let m: u64 = (0i128 - (*i as i128)) as u64;
                push_decimal(out, m);
            } else {
                push_decimal(out, *i as u64);
            }
            true
        },
        JsonValue::Float32(_) => false,
        JsonValue::String(s) => {
            string_push(out, '"');
            push_escaped(out, s.as_str());
            string_push(out, '"');
            true
        },
        JsonValue::Array(items) => {
            let ghost start = out@;
            string_push(out, '[');
            let mut i: usize = 0;
            assert(items@.take(0) =~= Seq::<JsonValue>::empty());
            while i < items.len()
                invariant
                    *v == JsonValue::Array(*items),
                    i <= items@.len(),
                    items_text(trees(items@.take(i as int))) is Some,
                    out@ == start + seq!['['] + items_text(trees(items@.take(i as int)))->0,
                decreases items@.len() - i,
            {
                proof {
                    assert(items@.take(i + 1).drop_last() =~= items@.take(i as int));
                    assert(decreases_to!(*v => *items));
                    assert(decreases_to!(*items => items@));
                    assert(decreases_to!(items@ => items@[i as int]));
                }
                let ghost before = out@;
                if i > 0 {
                    string_push(out, ',');
                }
                let ghost after_sep = out@;
                let ok = push_json_text(out, &items[i]);
                if !ok {
                    proof { lemma_items_none_sticks(items@, i + 1); }
                    return false;
                }
                proof {
                    let x = trees(items@.take(i as int));
                    let y = trees(items@.take(i + 1));
                    assert(y =~= x.push(tree(items@[i as int])));
                    assert(y.drop_last() =~= x);
                    assert(y.last() == tree(items@[i as int]));
                    if i > 0 {
                        assert(after_sep =~= before + seq![',']);
                    } else {
                        assert(after_sep =~= before);
                        assert(x =~= Seq::<JsonTree>::empty());
                    }
                    assert(out@ =~= start + seq!['['] + items_text(y)->0);
                }
                i += 1;
            }
            assert(items@.take(i as int) =~= items@);
            string_push(out, ']');
            true
        },
        JsonValue::Object(members) => {
            let ghost start = out@;
            string_push(out, '{');
            let mut i: usize = 0;
            assert(members@.take(0) =~= Seq::<(String, JsonValue)>::empty());
            while i < members.len()
                invariant
                    *v == JsonValue::Object(*members),
                    i <= members@.len(),
                    members_text(member_trees(members@.take(i as int))) is Some,
                    out@ == start + seq!['{'] + members_text(member_trees(members@.take(i as int)))->0,
                decreases members@.len() - i,
            {
                proof {
                    assert(members@.take(i + 1).drop_last() =~= members@.take(i as int));
                    assert(decreases_to!(*v => *members));
                    assert(decreases_to!(*members => members@));
                    assert(decreases_to!(members@ => members@[i as int]));
                    assert(decreases_to!(members@[i as int] => members@[i as int].1));
                }
                let ghost before = out@;
                if i > 0 {
                    string_push(out, ',');
                }
                let ghost after_sep = out@;
                string_push(out, '"');
                push_escaped(out, members[i].0.as_str());
                string_push(out, '"');
                string_push(out, ':');
                let ghost after_key = out@;
                let ok = push_json_text(out, &members[i].1);
                if !ok {
                    proof { lemma_members_none_sticks(members@, i + 1); }
                    return false;
                }
                proof {
                    let x = member_trees(members@.take(i as int));
                    let y = member_trees(members@.take(i + 1));
                    assert(y =~= x.push((members@[i as int].0@, tree(members@[i as int].1))));
                    assert(y.drop_last() =~= x);
                    assert(y.last() == (members@[i as int].0@, tree(members@[i as int].1)));
                    assert(after_key =~= after_sep + quoted_text(members@[i as int].0@) + seq![':']);
                    if i > 0 {
                        assert(after_sep =~= before + seq![',']);
                    } else {
                        assert(after_sep =~= before);
                        assert(x =~= Seq::<(Seq<char>, JsonTree)>::empty());
                    }
                    assert(out@ =~= start + seq!['{'] + members_text(y)->0);
                }
                i += 1;
            }
            assert(members@.take(i as int) =~= members@);
            string_push(out, '}');
            true
        },
        JsonValue::Text(inner) => {
            let mut body = String::new();
            let ok = push_json_text(&mut body, inner);
            if !ok {
                return false;
            }
            assert(body@ =~= json_text(tree(**inner))->0);
            string_push(out, '"');
            push_escaped(out, body.as_str());
            string_push(out, '"');
            true
        },
    }
}

proof fn lemma_items_none_sticks(s: Seq<JsonValue>, n: int)
    requires
        0 < n <= s.len(),
        json_text(tree(s[n - 1])) is None,
    ensures
        items_text(trees(s)) is None,
    decreases s.len() - n,
{
    if n < s.len() {
        lemma_items_none_sticks(s.drop_last(), n);
        assert(trees(s).drop_last() =~= trees(s.drop_last()));
    } else {
        assert(trees(s).last() == tree(s[n - 1]));
    }
}

proof fn lemma_members_none_sticks(s: Seq<(String, JsonValue)>, n: int)
    requires
        0 < n <= s.len(),
        json_text(tree(s[n - 1].1)) is None,
    ensures
        members_text(member_trees(s)) is None,
    decreases s.len() - n,
{
    if n < s.len() {
        lemma_members_none_sticks(s.drop_last(), n);
        assert(member_trees(s).drop_last() =~= member_trees(s.drop_last()));
    } else {
        assert(member_trees(s).last().1 == tree(s[n - 1].1));
    }
}

/// A deep copy of a value, with the same content.
pub fn duplicate_value(v: &JsonValue) -> (r: JsonValue)
    ensures
        tree(r) == tree(*v),
    decreases *v,
{
    match v {
        JsonValue::Null => JsonValue::Null,
        JsonValue::Bool(b) => JsonValue::Bool(*b),
        JsonValue::Number(n) => JsonValue::Number(
            JsonNumber { as_u64: n.as_u64, as_i64: n.as_i64, f32_bits: n.f32_bits, text: n.text.clone() },
        ),
        JsonValue::UInt(u) => JsonValue::UInt(*u),
        JsonValue::Int(i) => JsonValue::Int(*i),
        JsonValue::Float32(b) => JsonValue::Float32(*b),
        JsonValue::String(s) => JsonValue::String(s.clone()),
        JsonValue::Array(items) => {
            let mut out: Vec<JsonValue> = Vec::new();
            let mut i: usize = 0;
            assert(items@.take(0) =~= Seq::<JsonValue>::empty());
            while i < items.len()
                invariant
                    *v == JsonValue::Array(*items),
                    i <= items@.len(),
                    trees(out@) == trees(items@.take(i as int)),
                decreases items@.len() - i,
            {
                proof {
                    assert(decreases_to!(*v => (*v)->Array_0));
                    assert(decreases_to!(*items => items@));
                    assert(decreases_to!(items@ => items@[i as int]));
                }
                let item = duplicate_value(&items[i]);
                push_value(&mut out, item);
                assert(items@.take(i + 1).drop_last() =~= items@.take(i as int));
                i += 1;
            }
            assert(items@.take(i as int) =~= items@);
            let r = JsonValue::Array(out);
            r
        },
        JsonValue::Object(members) => {
            let mut b = ObjectBuilder::new();
            let mut i: usize = 0;
            assert(members@.take(0) =~= Seq::<(String, JsonValue)>::empty());
            while i < members.len()
                invariant
                    *v == JsonValue::Object(*members),
                    i <= members@.len(),
                    b.entries() == member_trees(members@.take(i as int)),
                decreases members@.len() - i,
            {
                proof {
                    assert(decreases_to!(*v => (*v)->Object_0));
                    assert(decreases_to!(*members => members@));
                    assert(decreases_to!(members@ => members@[i as int]));
                    assert(decreases_to!(members@[i as int] => members@[i as int].1));
                }
                let item = duplicate_value(&members[i].1);
                b.put(members[i].0.as_str(), item);
                assert(members@.take(i + 1).drop_last() =~= members@.take(i as int));
                i += 1;
            }
            assert(members@.take(i as int) =~= members@);
            b.build()
        },
        JsonValue::Text(inner) => JsonValue::Text(Box::new(duplicate_value(inner))),
    }
}


} // verus!
