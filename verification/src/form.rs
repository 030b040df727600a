//! The body of a form submission.

use vstd::prelude::*;
use vstd::string::*;

use crate::text::{join, joined};

verus! {

/// The text of a form with the given fields: each field as its name, `=` and
/// its value, the fields joined by `&`. Nothing is escaped.
pub open spec fn form_text(fields: Seq<(&str, &str)>) -> Seq<char>
    decreases fields.len(),
{
    if fields.len() == 0 {
        Seq::empty()
    } else {
        let sep = if fields.len() == 1 {
            Seq::<char>::empty()
        } else {
            seq!['&']
        };
        form_text(fields.drop_last()) + sep + fields.last().0@ + seq!['='] + fields.last().1@
    }
}

/// Writes the body of a form submission with the given fields.
pub fn form(fields: &Vec<(&str, &str)>) -> (out: String)
    ensures
        out@ == form_text(fields@),
{
    let mut parts: Vec<&str> = Vec::new();
    let mut i: usize = 0;
    assert(fields@.take(0) =~= Seq::<(&str, &str)>::empty());
    assert(joined(parts@) =~= Seq::<char>::empty());
    while i < fields.len()
        invariant
            i <= fields.len(),
            joined(parts@) == form_text(fields@.take(i as int)),
        decreases fields.len() - i,
    {
        let ghost before = parts@;
        if i > 0 {
            parts.push("&");
        }
        let ghost with_sep = parts@;
        parts.push(fields[i].0);
        let ghost with_name = parts@;
        parts.push("=");
        let ghost with_eq = parts@;
        parts.push(fields[i].1);
        proof {
            reveal_strlit("&");
            reveal_strlit("=");
            assert("&"@ =~= seq!['&']);
            assert("="@ =~= seq!['=']);
            let now = fields@.take(i + 1);
            let field = fields@[i as int];
            assert(now.drop_last() =~= fields@.take(i as int));
            assert(now.last() == field);
            let sep = if i > 0 {
                seq!['&']
            } else {
                Seq::<char>::empty()
            };
            if i > 0 {
                assert(with_sep.drop_last() =~= before);
                assert(with_sep.last()@ == sep);
                assert(joined(with_sep) == joined(before) + sep);
            } else {
                assert(joined(before) + sep =~= joined(before));
            }
            assert(with_name.drop_last() =~= with_sep);
            assert(joined(with_name) == joined(with_sep) + field.0@);
            assert(with_eq.drop_last() =~= with_name);
            assert(joined(with_eq) == joined(with_name) + seq!['=']);
            assert(parts@.drop_last() =~= with_eq);
            assert(joined(parts@) == joined(with_eq) + field.1@);
            assert(form_text(now) == form_text(now.drop_last()) + sep + field.0@ + seq!['=']
                + field.1@);
        }
        i += 1;
    }
    assert(fields@.take(fields@.len() as int) =~= fields@);
    join(&parts)
}

} // verus!
