//! JSON values and their text: how the template context is handed to the
//! template engine.
use vstd::prelude::*;

use crate::text::{owned, push_char};

verus! {

/// A JSON value.
pub enum Json {
    Null,
    Bool(bool),
    Str(Seq<char>),
    Arr(Seq<Json>),
    Obj(Seq<(Seq<char>, Json)>),
    /// JSON text taken as it is.
    Raw(Seq<char>),
}

/// A lowercase hexadecimal digit.
pub open spec fn hex_digit(d: int) -> char {
    if d < 10 { digit_or(d) } else if d == 10 { 'a' } else if d == 11 { 'b' } else if d == 12 { 'c' }
    else if d == 13 { 'd' } else if d == 14 { 'e' } else { 'f' }
}

/// A decimal digit character.
pub open spec fn digit_or(d: int) -> char {
    crate::text::digit_char(d)
}

/// How a character stands inside a JSON string: quotes and backslashes
/// escaped, control characters as `\u00XX`, anything else as it is.
pub open spec fn escaped_char(c: char) -> Seq<char> {
    if c == '"' {
        seq!['\\', '"']
    } else if c == '\\' {
        seq!['\\', '\\']
    } else if (c as u32) < 0x20 {
        seq!['\\', 'u', '0', '0', hex_digit((c as u32 as int) / 16), hex_digit((c as u32 as int) % 16)]
    } else {
        seq![c]
    }
}

/// The characters of `s` escaped for a JSON string.
pub open spec fn escaped(s: Seq<char>) -> Seq<char>
    decreases s.len(),
{
    if s.len() == 0 { Seq::empty() } else { escaped(s.drop_last()) + escaped_char(s.last()) }
}

/// A JSON string literal holding `s`.
pub open spec fn json_string(s: Seq<char>) -> Seq<char> {
    seq!['"'] + escaped(s) + seq!['"']
}

/// The JSON text of a value.
pub open spec fn json_text(j: Json) -> Seq<char>
    decreases j,
{
    match j {
        Json::Null => "null"@,
        Json::Bool(b) => if b { "true"@ } else { "false"@ },
        Json::Str(s) => json_string(s),
        Json::Arr(items) => seq!['['] + items_text(items) + seq![']'],
        Json::Obj(entries) => seq!['{'] + entries_text(entries) + seq!['}'],
        Json::Raw(t) => t,
    }
}

/// The comma-separated texts of array items.
pub open spec fn items_text(items: Seq<Json>) -> Seq<char>
    decreases items,
{
    if items.len() == 0 {
        Seq::empty()
    } else if items.len() == 1 {
        json_text(items[0])
    } else {
        items_text(items.drop_last()) + seq![','] + json_text(items.last())
    }
}

/// The comma-separated entries of an object.
pub open spec fn entries_text(entries: Seq<(Seq<char>, Json)>) -> Seq<char>
    decreases entries,
{
    if entries.len() == 0 {
        Seq::empty()
    } else if entries.len() == 1 {
        json_string(entries[0].0) + seq![':'] + json_text(entries[0].1)
    } else {
        entries_text(entries.drop_last()) + seq![','] + json_string(entries.last().0) + seq![':'] + json_text(entries.last().1)
    }
}

/// A JSON value built in executable code.
#[derive(Debug)]
pub enum JsonValue {
    Null,
    Bool(bool),
    Str(String),
    Arr(Vec<JsonValue>),
    Obj(Vec<(String, JsonValue)>),
    Raw(String),
}

/// The value a built JSON value stands for.
pub open spec fn json_of(v: JsonValue) -> Json
    decreases v,
{
    match v {
        JsonValue::Null => Json::Null,
        JsonValue::Bool(b) => Json::Bool(b),
        JsonValue::Str(s) => Json::Str(s@),
        JsonValue::Arr(items) => Json::Arr(jsons_of(items@)),
        JsonValue::Obj(entries) => Json::Obj(json_entries_of(entries@)),
        JsonValue::Raw(t) => Json::Raw(t@),
    }
}

/// The values built JSON values stand for, in order.
pub open spec fn jsons_of(s: Seq<JsonValue>) -> Seq<Json>
    decreases s,
{
    if s.len() == 0 { Seq::empty() } else { jsons_of(s.drop_last()).push(json_of(s.last())) }
}

/// The entries built JSON entries stand for, in order.
pub open spec fn json_entries_of(s: Seq<(String, JsonValue)>) -> Seq<(Seq<char>, Json)>
    decreases s,
{
    if s.len() == 0 { Seq::empty() } else { json_entries_of(s.drop_last()).push((s.last().0@, json_of(s.last().1))) }
}

fn hex_char(d: u32) -> (c: char)
    requires
        d < 16,
    ensures
        c == hex_digit(d as int),
{
    if d == 0 { '0' } else if d == 1 { '1' } else if d == 2 { '2' } else if d == 3 { '3' }
    else if d == 4 { '4' } else if d == 5 { '5' } else if d == 6 { '6' } else if d == 7 { '7' }
    else if d == 8 { '8' } else if d == 9 { '9' } else if d == 10 { 'a' } else if d == 11 { 'b' }
    else if d == 12 { 'c' } else if d == 13 { 'd' } else if d == 14 { 'e' } else { 'f' }
}

fn push_escaped_char(out: &mut String, c: char)
    ensures
        final(out)@ == old(out)@ + escaped_char(c),
{
    let code = c as u32;
    if c == '"' {
        push_char(out, '\\');
        push_char(out, '"');
    } else if c == '\\' {
        push_char(out, '\\');
        push_char(out, '\\');
    } else if code < 0x20 {
        push_char(out, '\\');
        push_char(out, 'u');
        push_char(out, '0');
        push_char(out, '0');
        push_char(out, hex_char(code / 16));
        push_char(out, hex_char(code % 16));
    } else {
        push_char(out, c);
    }
}

/// Appends the JSON string literal holding `s`.
pub fn write_json_string(out: &mut String, s: &str)
    ensures
        final(out)@ == old(out)@ + json_string(s@),
{
    let ghost start = out@;
    push_char(out, '"');
    let n = s.unicode_len();
    let mut i: usize = 0;
    assert(s@.take(0) =~= Seq::<char>::empty());
    while i < n
        invariant
            n == s@.len(),
            i <= n,
            out@ == start + seq!['"'] + escaped(s@.take(i as int)),
        decreases n - i,
    {
        let c = s.get_char(i);
        push_escaped_char(out, c);
        assert(s@.take(i + 1).drop_last() =~= s@.take(i as int));
        assert(out@ =~= start + seq!['"'] + escaped(s@.take(i + 1)));
        i = i + 1;
    }
    assert(s@.take(n as int) =~= s@);
    push_char(out, '"');
    assert(out@ =~= start + json_string(s@));
}

/// Appends the JSON text of a value.
pub fn write_json(out: &mut String, v: &JsonValue)
    ensures
        final(out)@ == old(out)@ + json_text(json_of(*v)),
    decreases v, 2nat,
{
    let ghost start = out@;
    match v {
        JsonValue::Null => {
            out.append("null");
            proof { reveal_strlit("null"); }
        },
        JsonValue::Bool(b) => {
            if *b {
                out.append("true");
                proof { reveal_strlit("true"); }
            } else {
                out.append("false");
                proof { reveal_strlit("false"); }
            }
        },
        JsonValue::Str(s) => write_json_string(out, s.as_str()),
        JsonValue::Arr(items) => {
            push_char(out, '[');
            write_items(out, items);
            push_char(out, ']');
            assert(out@ =~= start + json_text(json_of(*v)));
        },
        JsonValue::Obj(entries) => {
            push_char(out, '{');
            write_entries(out, entries);
            push_char(out, '}');
            assert(out@ =~= start + json_text(json_of(*v)));
        },
        JsonValue::Raw(t) => out.append(t.as_str()),
    }
}

fn write_items(out: &mut String, items: &Vec<JsonValue>)
    ensures
        final(out)@ == old(out)@ + items_text(jsons_of(items@)),
    decreases items, 1nat,
{
    let ghost start = out@;
    let mut i: usize = 0;
    assert(items@.take(0) =~= Seq::<JsonValue>::empty());
    while i < items.len()
        invariant
            i <= items@.len(),
            out@ == start + items_text(jsons_of(items@.take(i as int))),
        decreases items@.len() - i,
    {
        proof {
            assert(decreases_to!(items => items@));
            assert(decreases_to!(items@ => items@[i as int]));
            assert(items@.take(i + 1).drop_last() =~= items@.take(i as int));
            assert(items@.take(i + 1).last() == items@[i as int]);
        }
        let ghost before = out@;
        if i > 0 {
            push_char(out, ',');
        }
        write_json(out, &items[i]);
        proof {
            let js = jsons_of(items@.take(i + 1));
            assert(js.drop_last() =~= jsons_of(items@.take(i as int)));
            if i == 0 {
                assert(js.len() == 1);
                assert(out@ =~= start + items_text(js));
            } else {
                assert(out@ =~= start + items_text(js));
            }
        }
        i = i + 1;
    }
    assert(items@.take(items@.len() as int) =~= items@);
}

fn write_entries(out: &mut String, entries: &Vec<(String, JsonValue)>)
    ensures
        final(out)@ == old(out)@ + entries_text(json_entries_of(entries@)),
    decreases entries, 1nat,
{
    let ghost start = out@;
    let mut i: usize = 0;
    assert(entries@.take(0) =~= Seq::<(String, JsonValue)>::empty());
    while i < entries.len()
        invariant
            i <= entries@.len(),
            out@ == start + entries_text(json_entries_of(entries@.take(i as int))),
        decreases entries@.len() - i,
    {
        proof {
            assert(decreases_to!(entries => entries@));
            assert(decreases_to!(entries@ => entries@[i as int]));
            assert(decreases_to!(entries@[i as int] => entries@[i as int].1));
            assert(entries@.take(i + 1).drop_last() =~= entries@.take(i as int));
            assert(entries@.take(i + 1).last() == entries@[i as int]);
        }
        if i > 0 {
            push_char(out, ',');
        }
        write_json_string(out, entries[i].0.as_str());
        push_char(out, ':');
        write_json(out, &entries[i].1);
        proof {
            let es = json_entries_of(entries@.take(i + 1));
            assert(es.drop_last() =~= json_entries_of(entries@.take(i as int)));
            assert(out@ =~= start + entries_text(es));
        }
        i = i + 1;
    }
    assert(entries@.take(entries@.len() as int) =~= entries@);
}

/// The JSON text of a value.
pub fn to_json_text(v: &JsonValue) -> (r: String)
    ensures
        r@ == json_text(json_of(*v)),
{
    let mut out = String::new();
    write_json(&mut out, v);
    assert(out@ =~= json_text(json_of(*v)));
    out
}

/// Appends an entry to an object under construction.
pub fn push_entry(entries: &mut Vec<(String, JsonValue)>, key: &str, value: JsonValue)
    ensures
        json_entries_of(final(entries)@) == json_entries_of(old(entries)@).push((key@, json_of(value))),
{
    let ghost before = entries@;
    entries.push((owned(key), value));
    assert(entries@.drop_last() =~= before);
}

/// A JSON string, or `null` for none.
pub open spec fn opt_str_json(o: Option<String>) -> Json {
    match o {
        Some(s) => Json::Str(s@),
        None => Json::Null,
    }
}

/// A JSON string, or `null` for none.
pub fn opt_str_value(o: &Option<String>) -> (r: JsonValue)
    ensures
        json_of(r) == opt_str_json(*o),
{
    match o {
        Some(s) => JsonValue::Str(s.clone()),
        None => JsonValue::Null,
    }
}

/// An array of JSON strings.
pub open spec fn strs_json(v: Seq<String>) -> Json {
    Json::Arr(v.map_values(|s: String| Json::Str(s@)))
}

/// An array of JSON strings.
pub fn strs_value(v: &Vec<String>) -> (r: JsonValue)
    ensures
        json_of(r) == strs_json(v@),
{
    let mut items: Vec<JsonValue> = Vec::new();
    let mut i: usize = 0;
    while i < v.len()
        invariant
            i <= v@.len(),
            jsons_of(items@) == v@.take(i as int).map_values(|s: String| Json::Str(s@)),
        decreases v@.len() - i,
    {
        let ghost before = items@;
        let item = JsonValue::Str(v[i].clone());
        assert(json_of(item) == Json::Str(v@[i as int]@));
        items.push(item);
        proof {
            assert(items@.drop_last() =~= before);
            assert(jsons_of(items@) == jsons_of(before).push(json_of(item)));
            assert(v@.take(i + 1).map_values(|s: String| Json::Str(s@)) =~= v@.take(i as int).map_values(
                |s: String| Json::Str(s@),
            ).push(Json::Str(v@[i as int]@)));
        }
        i = i + 1;
    }
    assert(v@.take(v@.len() as int) =~= v@);
    JsonValue::Arr(items)
}

} // verus!
