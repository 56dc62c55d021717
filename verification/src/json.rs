//! A small JSON document model and a verified renderer.
//!
//! `Json` is the executable tree that the DSL builders produce; `Jv` is its
//! mathematical counterpart, built from sequences, which the contracts speak
//! of. `render` turns a `Json` tree into the exact character sequence that
//! `jv_text` defines.

use vstd::prelude::*;
use vstd::string::StrSliceExecFns;

verus! {

/// Mathematical model of a JSON value: what the contracts are stated over.
pub enum Jv {
    /// A JSON string (unescaped character content).
    Str(Seq<char>),
    /// A JSON number, kept as its decimal token text.
    Num(Seq<char>),
    /// A JSON array.
    Arr(Seq<Jv>),
    /// A JSON object: an ordered sequence of key/value entries.
    Obj(Seq<(Seq<char>, Jv)>),
}

/// Executable JSON value.
pub enum Json {
    Str(String),
    Num(String),
    Arr(Vec<Json>),
    Obj(Vec<(String, Json)>),
}

/// The model of an executable JSON tree.
pub open spec fn jv(j: Json) -> Jv
    decreases j,
{
    match j {
        Json::Str(s) => Jv::Str(s@),
        Json::Num(t) => Jv::Num(t@),
        Json::Arr(items) => Jv::Arr(jv_items(items@)),
        Json::Obj(entries) => Jv::Obj(jv_entries(entries@)),
    }
}

/// Models of the elements of a JSON array.
pub open spec fn jv_items(items: Seq<Json>) -> Seq<Jv>
    decreases items,
{
    if items.len() == 0 {
        Seq::empty()
    } else {
        jv_items(items.subrange(0, items.len() - 1)).push(jv(items[items.len() - 1]))
    }
}

/// Models of the entries of a JSON object.
pub open spec fn jv_entries(entries: Seq<(String, Json)>) -> Seq<(Seq<char>, Jv)>
    decreases entries,
{
    if entries.len() == 0 {
        Seq::empty()
    } else {
        jv_entries(entries.subrange(0, entries.len() - 1)).push(
            (entries[entries.len() - 1].0@, jv(entries[entries.len() - 1].1)),
        )
    }
}

/// The hexadecimal digit character for a value below 16.
pub open spec fn hex_digit(n: nat) -> char {
    if n == 0 { '0' } else if n == 1 { '1' } else if n == 2 { '2' } else if n == 3 { '3' }
    else if n == 4 { '4' } else if n == 5 { '5' } else if n == 6 { '6' } else if n == 7 { '7' }
    else if n == 8 { '8' } else if n == 9 { '9' } else if n == 10 { 'a' } else if n == 11 { 'b' }
    else if n == 12 { 'c' } else if n == 13 { 'd' } else if n == 14 { 'e' } else { 'f' }
}

/// How one character of a JSON string is written: itself, a two-character
/// escape, or a `\u00XX` escape for the remaining control characters.
pub open spec fn esc_char(c: char) -> Seq<char> {
    if c == '"' { seq!['\\', '"'] }
    else if c == '\\' { seq!['\\', '\\'] }
    else if c == '\n' { seq!['\\', 'n'] }
    else if c == '\r' { seq!['\\', 'r'] }
    else if c == '\t' { seq!['\\', 't'] }
    else if (c as u32) < 32 {
        seq!['\\', 'u', '0', '0', hex_digit((c as u32 / 16) as nat), hex_digit((c as u32 % 16) as nat)]
    } else { seq![c] }
}

/// The escaped form of a whole string body.
pub open spec fn esc_str(s: Seq<char>) -> Seq<char>
    decreases s,
{
    if s.len() == 0 {
        Seq::empty()
    } else {
        esc_str(s.subrange(0, s.len() - 1)) + esc_char(s[s.len() - 1])
    }
}

/// A JSON string token: quoted, escaped content.
pub open spec fn str_text(s: Seq<char>) -> Seq<char> {
    seq!['"'] + esc_str(s) + seq!['"']
}

/// The rendered text of a JSON value.
pub open spec fn jv_text(v: Jv) -> Seq<char>
    decreases v,
{
    match v {
        Jv::Str(s) => str_text(s),
        Jv::Num(t) => t,
        Jv::Arr(items) => seq!['['] + arr_text(items) + seq![']'],
        Jv::Obj(entries) => seq!['{'] + obj_text(entries) + seq!['}'],
    }
}

/// The comma-separated rendered elements of an array.
pub open spec fn arr_text(items: Seq<Jv>) -> Seq<char>
    decreases items,
{
    if items.len() == 0 {
        Seq::empty()
    } else if items.len() == 1 {
        jv_text(items[0])
    } else {
        arr_text(items.subrange(0, items.len() - 1)) + seq![','] + jv_text(items[items.len() - 1])
    }
}

/// One rendered `"key": value` entry of an object.
pub open spec fn entry_text(e: (Seq<char>, Jv)) -> Seq<char>
    decreases e,
{
    str_text(e.0) + seq![':'] + jv_text(e.1)
}

/// The comma-separated rendered entries of an object.
pub open spec fn obj_text(entries: Seq<(Seq<char>, Jv)>) -> Seq<char>
    decreases entries,
{
    if entries.len() == 0 {
        Seq::empty()
    } else if entries.len() == 1 {
        entry_text(entries[0])
    } else {
        obj_text(entries.subrange(0, entries.len() - 1)) + seq![',']
            + entry_text(entries[entries.len() - 1])
    }
}

pub(crate) proof fn lemma_esc_str_push(s: Seq<char>, c: char)
    ensures
        esc_str(s.push(c)) == esc_str(s) + esc_char(c),
{
    let t = s.push(c);
    assert(t.subrange(0, t.len() - 1) =~= s);
    assert(t[t.len() - 1] == c);
}

pub(crate) proof fn lemma_jv_items_push(items: Seq<Json>, x: Json)
    ensures
        jv_items(items.push(x)) == jv_items(items).push(jv(x)),
{
    let t = items.push(x);
    assert(t.subrange(0, t.len() - 1) =~= items);
    assert(t[t.len() - 1] == x);
}

pub(crate) proof fn lemma_jv_entries_push(entries: Seq<(String, Json)>, e: (String, Json))
    ensures
        jv_entries(entries.push(e)) == jv_entries(entries).push((e.0@, jv(e.1))),
{
    let t = entries.push(e);
    assert(t.subrange(0, t.len() - 1) =~= entries);
    assert(t[t.len() - 1] == e);
}

pub(crate) proof fn lemma_jv_items_len(items: Seq<Json>)
    ensures
        jv_items(items).len() == items.len(),
    decreases items.len(),
{
    if items.len() > 0 {
        lemma_jv_items_len(items.subrange(0, items.len() - 1));
    }
}

pub(crate) proof fn lemma_jv_entries_len(entries: Seq<(String, Json)>)
    ensures
        jv_entries(entries).len() == entries.len(),
    decreases entries.len(),
{
    if entries.len() > 0 {
        lemma_jv_entries_len(entries.subrange(0, entries.len() - 1));
    }
}

pub(crate) proof fn lemma_arr_text_push(items: Seq<Jv>, x: Jv)
    ensures
        arr_text(items.push(x)) == if items.len() == 0 {
            jv_text(x)
        } else {
            (arr_text(items) + seq![','] + jv_text(x))
        },
{
    let t = items.push(x);
    assert(t.subrange(0, t.len() - 1) =~= items);
    assert(t[t.len() - 1] == x);
}

pub(crate) proof fn lemma_obj_text_push(entries: Seq<(Seq<char>, Jv)>, e: (Seq<char>, Jv))
    ensures
        obj_text(entries.push(e)) == if entries.len() == 0 {
            entry_text(e)
        } else {
            (obj_text(entries) + seq![','] + entry_text(e))
        },
{
    let t = entries.push(e);
    assert(t.subrange(0, t.len() - 1) =~= entries);
    assert(t[t.len() - 1] == e);
}

/// The hexadecimal digit character for a value below 16.
pub(crate) fn hex_digit_char(n: u32) -> (c: char)
    requires
        n < 16,
    ensures
        c == hex_digit(n as nat),
{
    if n == 0 { '0' } else if n == 1 { '1' } else if n == 2 { '2' } else if n == 3 { '3' }
    else if n == 4 { '4' } else if n == 5 { '5' } else if n == 6 { '6' } else if n == 7 { '7' }
    else if n == 8 { '8' } else if n == 9 { '9' } else if n == 10 { 'a' } else if n == 11 { 'b' }
    else if n == 12 { 'c' } else if n == 13 { 'd' } else if n == 14 { 'e' } else { 'f' }
}

/// Appends the escaped form of one string character.
fn push_esc_char(out: &mut Vec<char>, c: char)
    ensures
        final(out)@ == old(out)@ + esc_char(c),
{
    if c == '"' {
        out.push('\\');
        out.push('"');
    } else if c == '\\' {
        out.push('\\');
        out.push('\\');
    } else if c == '\n' {
        out.push('\\');
        out.push('n');
    } else if c == '\r' {
        out.push('\\');
        out.push('r');
    } else if c == '\t' {
        out.push('\\');
        out.push('t');
    } else {
        let u = c as u32;
        if u < 32 {
            out.push('\\');
            out.push('u');
            out.push('0');
            out.push('0');
            out.push(hex_digit_char(u / 16));
            out.push(hex_digit_char(u % 16));
        } else {
            out.push(c);
        }
    }
    assert(out@ =~= old(out)@ + esc_char(c));
}

/// Appends the characters of `s` unchanged.
fn push_chars(out: &mut Vec<char>, s: &str)
    ensures
        final(out)@ == old(out)@ + s@,
{
    let n = s.unicode_len();
    let mut i: usize = 0;
    while i < n
        invariant
            i <= n,
            n == s@.len(),
            out@ == old(out)@ + s@.subrange(0, i as int),
        decreases n - i,
    {
        let c = s.get_char(i);
        out.push(c);
        proof {
            assert(s@.subrange(0, i + 1) =~= s@.subrange(0, i as int).push(s@[i as int]));
            assert(out@ =~= old(out)@ + s@.subrange(0, i + 1));
        }
        i += 1;
    }
    assert(s@.subrange(0, n as int) =~= s@);
}

/// Appends a quoted, escaped JSON string token for `s`.
fn push_str_token(out: &mut Vec<char>, s: &str)
    ensures
        final(out)@ == old(out)@ + str_text(s@),
{
    out.push('"');
    let n = s.unicode_len();
    let mut i: usize = 0;
    while i < n
        invariant
            i <= n,
            n == s@.len(),
            out@ == old(out)@ + seq!['"'] + esc_str(s@.subrange(0, i as int)),
        decreases n - i,
    {
        let c = s.get_char(i);
        push_esc_char(out, c);
        proof {
            assert(s@.subrange(0, i + 1) =~= s@.subrange(0, i as int).push(s@[i as int]));
            lemma_esc_str_push(s@.subrange(0, i as int), s@[i as int]);
            assert(out@ =~= old(out)@ + seq!['"'] + esc_str(s@.subrange(0, i + 1)));
        }
        i += 1;
    }
    out.push('"');
    proof {
        assert(s@.subrange(0, n as int) =~= s@);
        assert(out@ =~= old(out)@ + str_text(s@));
    }
}

/// Appends the rendered text of `j`.
#[verifier::loop_isolation(false)]
fn render_into(j: &Json, out: &mut Vec<char>)
    ensures
        final(out)@ == old(out)@ + jv_text(jv(*j)),
    decreases *j,
{
    match j {
        Json::Str(s) => {
            push_str_token(out, s.as_str());
        }
        Json::Num(t) => {
            push_chars(out, t.as_str());
        }
        Json::Arr(items) => {
            out.push('[');
            let n = items.len();
            let mut i: usize = 0;
            while i < n
                invariant
                    i <= n,
                    n == items@.len(),
                    out@ == old(out)@ + seq!['['] + arr_text(jv_items(items@.subrange(0, i as int))),
                decreases n - i,
            {
                if i > 0 {
                    proof {
                        lemma_jv_items_len(items@.subrange(0, i as int));
                    }
                    out.push(',');
                }
                proof {
                    broadcast use vstd::seq::axiom_seq_index_decreases;

                    let jj = *j;
                    assert(decreases_to!(jj => jj->Arr_0));
                    assert(decreases_to!(jj->Arr_0 => jj->Arr_0@));
                    assert(decreases_to!(jj->Arr_0@ => jj->Arr_0@[i as int]));
                    assert(decreases_to!(*j => items@[i as int]));
                }
                render_into(&items[i], out);
                proof {
                    lemma_jv_items_len(items@.subrange(0, i as int));
                    assert(items@.subrange(0, i + 1) =~= items@.subrange(0, i as int).push(
                        items@[i as int],
                    ));
                    lemma_jv_items_push(items@.subrange(0, i as int), items@[i as int]);
                    lemma_arr_text_push(jv_items(items@.subrange(0, i as int)), jv(items@[i as int]));
                    assert(out@ =~= old(out)@ + seq!['['] + arr_text(
                        jv_items(items@.subrange(0, i + 1)),
                    ));
                }
                i += 1;
            }
            proof {
                assert(items@.subrange(0, n as int) =~= items@);
            }
            out.push(']');
            assert(out@ =~= old(out)@ + jv_text(jv(*j)));
        }
        Json::Obj(entries) => {
            out.push('{');
            let n = entries.len();
            let mut i: usize = 0;
            while i < n
                invariant
                    i <= n,
                    n == entries@.len(),
                    out@ == old(out)@ + seq!['{'] + obj_text(
                        jv_entries(entries@.subrange(0, i as int)),
                    ),
                decreases n - i,
            {
                if i > 0 {
                    proof {
                        lemma_jv_entries_len(entries@.subrange(0, i as int));
                    }
                    out.push(',');
                }
                push_str_token(out, entries[i].0.as_str());
                out.push(':');
                proof {
                    broadcast use vstd::seq::axiom_seq_index_decreases;

                    let jj = *j;
                    assert(decreases_to!(jj => jj->Obj_0));
                    assert(decreases_to!(jj->Obj_0 => jj->Obj_0@));
                    assert(decreases_to!(jj->Obj_0@ => jj->Obj_0@[i as int]));
                    assert(decreases_to!(jj->Obj_0@[i as int] => jj->Obj_0@[i as int].1));
                    assert(decreases_to!(*j => entries@[i as int].1));
                }
                render_into(&entries[i].1, out);
                proof {
                    lemma_jv_entries_len(entries@.subrange(0, i as int));
                    assert(entries@.subrange(0, i + 1) =~= entries@.subrange(0, i as int).push(
                        entries@[i as int],
                    ));
                    lemma_jv_entries_push(entries@.subrange(0, i as int), entries@[i as int]);
                    lemma_obj_text_push(
                        jv_entries(entries@.subrange(0, i as int)),
                        (entries@[i as int].0@, jv(entries@[i as int].1)),
                    );
                    assert(out@ =~= old(out)@ + seq!['{'] + obj_text(
                        jv_entries(entries@.subrange(0, i + 1)),
                    ));
                }
                i += 1;
            }
            proof {
                assert(entries@.subrange(0, n as int) =~= entries@);
            }
            out.push('}');
            assert(out@ =~= old(out)@ + jv_text(jv(*j)));
        }
    }
}

/// Relies on `String: FromIterator<char>`: collecting an iterator of
/// characters yields the string made of exactly those characters, in order.
#[verifier::external_body]
pub(crate) fn chars_to_string(cs: &Vec<char>) -> (s: String)
    ensures
        s@ == cs@,
{
    cs.iter().collect()
}

/// Renders a JSON value to its exact textual form.
pub fn render(j: &Json) -> (out: String)
    ensures
        out@ == jv_text(jv(*j)),
{
    let mut cs: Vec<char> = Vec::new();
    render_into(j, &mut cs);
    chars_to_string(&cs)
}

} // verus!
