//! Compact JSON text, written into a byte buffer: literals, numbers, strings,
//! optional values (`null` when absent) and lists.

use vstd::prelude::*;
use vstd::utf8::encode_utf8;
use crate::text::{decimal, json_quoted, push_decimal, push_quoted, push_str};

verus! {

/// The UTF-8 bytes of a piece of literal text.
#[verifier::opaque]
pub open spec fn lit(s: &str) -> Seq<u8> {
    encode_utf8(s@)
}

/// A JSON string.
#[verifier::opaque]
pub open spec fn jstr(s: String) -> Seq<u8> {
    encode_utf8(json_quoted(s@))
}

/// A JSON number.
#[verifier::opaque]
pub open spec fn jnum(n: u128) -> Seq<u8> {
    decimal(n as nat)
}

pub open spec fn jbool(b: bool) -> Seq<u8> {
    if b {
        lit("true")
    } else {
        lit("false")
    }
}

pub open spec fn jopt_str(o: Option<String>) -> Seq<u8> {
    match o {
        Some(s) => jstr(s),
        None => lit("null"),
    }
}

pub open spec fn jopt_num(o: Option<u64>) -> Seq<u8> {
    match o {
        Some(n) => jnum(n as u128),
        None => lit("null"),
    }
}

pub open spec fn jopt_bool(o: Option<bool>) -> Seq<u8> {
    match o {
        Some(b) => jbool(b),
        None => lit("null"),
    }
}

/// A pair of numbers as a two-element list.
pub open spec fn jpair(p: [u64; 2]) -> Seq<u8> {
    lit("[") + jnum(p@[0] as u128) + lit(",") + jnum(p@[1] as u128) + lit("]")
}

pub open spec fn jopt_pair(o: Option<[u64; 2]>) -> Seq<u8> {
    match o {
        Some(p) => jpair(p),
        None => lit("null"),
    }
}

/// Items separated by commas.
pub open spec fn joined(items: Seq<Seq<u8>>) -> Seq<u8>
    decreases items.len(),
{
    if items.len() == 0 {
        Seq::empty()
    } else if items.len() == 1 {
        items[0]
    } else {
        joined(items.drop_last()) + lit(",") + items.last()
    }
}

/// A JSON list of items already written.
pub open spec fn jlist(items: Seq<Seq<u8>>) -> Seq<u8> {
    lit("[") + joined(items) + lit("]")
}

/// A JSON list of strings.
pub open spec fn jstr_list(v: Seq<String>) -> Seq<u8> {
    jlist(v.map_values(|s: String| jstr(s)))
}

/// Adding one more item to a comma-separated list.
pub proof fn lemma_joined_push(items: Seq<Seq<u8>>, x: Seq<u8>)
    ensures
        joined(items.push(x)) == if items.len() == 0 {
            x
        } else {
            joined(items) + lit(",") + x
        },
{
    assert(items.push(x).drop_last() =~= items);
}

/// Appends literal text.
pub fn push_lit(out: &mut Vec<u8>, s: &str)
    ensures
        final(out)@ == old(out)@ + lit(s),
{
    reveal(lit);
    push_str(out, s);
}

/// Appends a JSON string.
pub fn push_jstr(out: &mut Vec<u8>, s: &String)
    ensures
        final(out)@ == old(out)@ + jstr(*s),
{
    reveal(jstr);
    push_quoted(out, s.as_str());
}

/// Appends a JSON number.
pub fn push_num(out: &mut Vec<u8>, n: u128)
    ensures
        final(out)@ == old(out)@ + jnum(n),
{
    reveal(jnum);
    push_decimal(out, n);
}

pub fn push_bool(out: &mut Vec<u8>, b: bool)
    ensures
        final(out)@ == old(out)@ + jbool(b),
{
    if b {
        push_lit(out, "true");
    } else {
        push_lit(out, "false");
    }
}

pub fn push_opt_str(out: &mut Vec<u8>, o: &Option<String>)
    ensures
        final(out)@ == old(out)@ + jopt_str(*o),
{
    match o {
        Some(s) => push_jstr(out, s),
        None => push_lit(out, "null"),
    }
}

pub fn push_opt_num(out: &mut Vec<u8>, o: Option<u64>)
    ensures
        final(out)@ == old(out)@ + jopt_num(o),
{
    match o {
        Some(n) => push_num(out, n as u128),
        None => push_lit(out, "null"),
    }
}

pub fn push_opt_bool(out: &mut Vec<u8>, o: Option<bool>)
    ensures
        final(out)@ == old(out)@ + jopt_bool(o),
{
    match o {
        Some(b) => push_bool(out, b),
        None => push_lit(out, "null"),
    }
}

pub fn push_pair(out: &mut Vec<u8>, p: [u64; 2])
    ensures
        final(out)@ == old(out)@ + jpair(p),
{
    push_lit(out, "[");
    push_num(out, p[0] as u128);
    push_lit(out, ",");
    push_num(out, p[1] as u128);
    push_lit(out, "]");
    assert(out@ =~= old(out)@ + jpair(p));
}

pub fn push_opt_pair(out: &mut Vec<u8>, o: Option<[u64; 2]>)
    ensures
        final(out)@ == old(out)@ + jopt_pair(o),
{
    match o {
        Some(p) => push_pair(out, p),
        None => push_lit(out, "null"),
    }
}

pub fn push_str_list(out: &mut Vec<u8>, v: &Vec<String>)
    ensures
        final(out)@ == old(out)@ + jstr_list(v@),
{
    let ghost items = v@.map_values(|s: String| jstr(s));
    push_lit(out, "[");
    let ghost start = out@;
    let mut i: usize = 0;
    while i < v.len()
        invariant
            i <= v@.len(),
            items == v@.map_values(|s: String| jstr(s)),
            start == old(out)@ + lit("["),
            out@ == start + joined(items.take(i as int)),
        decreases v@.len() - i,
    {
        proof {
            assert(items.take(i + 1) =~= items.take(i as int).push(items[i as int]));
            lemma_joined_push(items.take(i as int), items[i as int]);
        }
        if i > 0 {
            push_lit(out, ",");
        }
        push_jstr(out, &v[i]);
        proof {
            if i == 0 {
                assert(items.take(0) =~= Seq::<Seq<u8>>::empty());
                assert(out@ =~= start + joined(items.take(1)));
            } else {
                assert(out@ =~= start + joined(items.take(i + 1)));
            }
        }
        i = i + 1;
    }
    push_lit(out, "]");
    assert(items.take(v@.len() as int) =~= items);
    assert(out@ =~= old(out)@ + jstr_list(v@));
}

} // verus!
