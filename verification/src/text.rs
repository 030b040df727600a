//! Text put together from parts, with the `string_builder` crate.
//!
//! A builder collects bytes. What it holds is named by [`contents`]; the
//! functions here append whole texts only, so the bytes are always the
//! encoding of a text, and that text is what comes out.

use string_builder::Builder;
use vstd::prelude::*;
use vstd::string::*;
use vstd::utf8::*;

verus! {

#[verifier::external_type_specification]
#[verifier::external_body]
pub struct ExBuilder(string_builder::Builder);

/// The bytes a builder holds, in the order they were appended.
pub uninterp spec fn contents(builder: Builder) -> Seq<u8>;

/// Makes a builder with `Builder::default`: it holds no bytes.
#[verifier::external_body]
pub(crate) fn start() -> (builder: Builder)
    ensures
        contents(builder) == Seq::<u8>::empty(),
{
    Builder::default()
}

/// Appends a text with `Builder::append`: its bytes are added after those
/// the builder holds.
#[verifier::external_body]
pub(crate) fn push(builder: &mut Builder, part: &str)
    ensures
        contents(*final(builder)) == contents(*old(builder)) + part.spec_bytes(),
{
    builder.append(part)
}

/// Takes the text out with `Builder::string`, which succeeds exactly when
/// the bytes are valid UTF-8 and then gives the text they encode.
#[verifier::external_body]
pub(crate) fn finish(builder: Builder) -> (out: Option<String>)
    ensures
        out is Some <==> valid_utf8(contents(builder)),
        out matches Some(s) ==> s@ == decode_utf8(contents(builder)),
{
    match builder.string() {
        Ok(s) => Some(s),
        Err(_) => None,
    }
}

/// The encoding of two texts joined is the two encodings joined.
pub proof fn lemma_encode_concat(a: Seq<char>, b: Seq<char>)
    ensures
        encode_utf8(a + b) == encode_utf8(a) + encode_utf8(b),
    decreases a.len(),
{
    if a.len() == 0 {
        assert(a + b =~= b);
        assert(encode_utf8(a) + encode_utf8(b) =~= encode_utf8(b));
    } else {
        lemma_encode_concat(a.drop_first(), b);
        assert((a + b).drop_first() =~= a.drop_first() + b);
        assert(encode_utf8(a + b) =~= encode_utf8(a) + encode_utf8(b));
    }
}

/// All texts of `parts`, one after another.
pub open spec fn joined(parts: Seq<&str>) -> Seq<char>
    decreases parts.len(),
{
    if parts.len() == 0 {
        Seq::empty()
    } else {
        joined(parts.drop_last()) + parts.last()@
    }
}

/// Joins the texts of `parts` into one.
pub fn join(parts: &Vec<&str>) -> (out: String)
    ensures
        out@ == joined(parts@),
{
    broadcast use {encode_utf8_decode_utf8, encode_utf8_valid_utf8};

    let mut builder = start();
    let mut i: usize = 0;
    assert(parts@.take(0) =~= Seq::<&str>::empty());
    while i < parts.len()
        invariant
            i <= parts.len(),
            contents(builder) == encode_utf8(joined(parts@.take(i as int))),
        decreases parts.len() - i,
    {
        push(&mut builder, parts[i]);
        proof {
            let before = parts@.take(i as int);
            let now = parts@.take(i + 1);
            assert(now.drop_last() =~= before);
            assert(now.last() == parts@[i as int]);
            lemma_encode_concat(joined(before), parts@[i as int]@);
        }
        i += 1;
    }
    assert(parts@.take(parts@.len() as int) =~= parts@);
    match finish(builder) {
        Some(out) => out,
        None => String::new(),
    }
}

} // verus!
