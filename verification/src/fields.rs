//! Splitting a line into comma-separated fields and joining fields back
//! into a line. No quoting or escaping: every comma is a field boundary.

use vstd::prelude::*;
use vstd::string::StrSliceExecFns;
use vstd::string::StringExecFns;

verus! {

/// The fields of `s` split on `','`. Splitting always yields at least one
/// field: the empty line splits into one empty field.
pub open spec fn split_fields(s: Seq<char>) -> Seq<Seq<char>>
    decreases s.len(),
{
    if s.len() == 0 {
        seq![Seq::<char>::empty()]
    } else {
        let prev = split_fields(s.drop_last());
        if s.last() == ',' {
            prev.push(Seq::<char>::empty())
        } else {
            prev.update(prev.len() - 1, prev.last().push(s.last()))
        }
    }
}

pub proof fn lemma_split_fields_len(s: Seq<char>)
    ensures
        split_fields(s).len() >= 1,
    decreases s.len(),
{
    if s.len() > 0 {
        lemma_split_fields_len(s.drop_last());
    }
}

/// The fields joined with `','` between consecutive fields. Joining no
/// fields yields the empty line.
pub open spec fn join_fields(fields: Seq<Seq<char>>) -> Seq<char>
    decreases fields.len(),
{
    if fields.len() == 0 {
        Seq::<char>::empty()
    } else if fields.len() == 1 {
        fields[0]
    } else {
        join_fields(fields.drop_last()) + seq![','] + fields.last()
    }
}

/// Relies on `String::push`: appends one character at the end.
#[verifier::external_body]
fn push_char(s: &mut String, c: char)
    ensures
        final(s)@ == old(s)@.push(c),
{
    s.push(c);
}

/// Appends one more field to a partial line, with the separating comma.
pub fn concat_columns(last: String, current: &str) -> (r: String)
    ensures
        r@ == last@ + seq![','] + current@,
{
    proof {
        reveal_strlit(",");
        assert(","@ =~= seq![',']);
    }
    last.concat(",").concat(current)
}

/// Splits `line` on `','`, preserving empty fields.
pub fn split_line(line: &str) -> (fields: Vec<String>)
    ensures
        fields.deep_view() == split_fields(line@),
        fields.len() >= 1,
{
    let n = line.unicode_len();
    let mut fields: Vec<String> = Vec::new();
    let mut cur = String::new();
    let mut i: usize = 0;
    proof {
        assert(line@.subrange(0, 0) =~= Seq::<char>::empty());
        assert(fields.deep_view().push(cur@) =~= split_fields(line@.subrange(0, 0)));
    }
    while i < n
        invariant
            i <= n,
            n == line@.len(),
            fields.deep_view().push(cur@) == split_fields(line@.subrange(0, i as int)),
        decreases n - i,
    {
        let ghost prefix = line@.subrange(0, i as int);
        let ghost next_prefix = line@.subrange(0, i as int + 1);
        proof {
            assert(next_prefix.drop_last() =~= prefix);
            assert(next_prefix.last() == line@[i as int]);
        }
        let c = line.get_char(i);
        if c == ',' {
            let ghost old_fields = fields.deep_view();
            let ghost old_cur = cur@;
            fields.push(cur);
            cur = String::new();
            proof {
                assert(fields.deep_view() =~= old_fields.push(old_cur));
                assert(fields.deep_view().push(cur@) =~= split_fields(prefix).push(
                    Seq::<char>::empty(),
                ));
            }
        } else {
            let ghost old_cur = cur@;
            push_char(&mut cur, c);
            proof {
                let prev = split_fields(prefix);
                lemma_split_fields_len(prefix);
                assert(prev.last() == old_cur);
                assert(fields.deep_view().push(cur@) =~= prev.update(
                    prev.len() - 1,
                    prev.last().push(c),
                ));
            }
        }
        i += 1;
    }
    proof {
        assert(line@.subrange(0, n as int) =~= line@);
    }
    let ghost old_fields = fields.deep_view();
    let ghost old_cur = cur@;
    fields.push(cur);
    proof {
        assert(fields.deep_view() =~= old_fields.push(old_cur));
    }
    fields
}

/// Joins `head` and then `fields[from..]`, with `','` between consecutive
/// fields.
pub fn join_with_head(head: String, fields: &Vec<String>, from: usize) -> (r: String)
    requires
        from <= fields@.len(),
    ensures
        r@ == join_fields(seq![head@] + fields.deep_view().skip(from as int)),
{
    let mut r = head;
    let mut i: usize = from;
    proof {
        assert(seq![r@] + fields.deep_view().subrange(from as int, from as int) =~= seq![r@]);
    }
    while i < fields.len()
        invariant
            from <= i <= fields.len(),
            r@ == join_fields(seq![head@] + fields.deep_view().subrange(from as int, i as int)),
        decreases fields.len() - i,
    {
        let ghost part = seq![head@] + fields.deep_view().subrange(from as int, i as int);
        let ghost next_part = seq![head@] + fields.deep_view().subrange(
            from as int,
            i as int + 1,
        );
        proof {
            assert(next_part.drop_last() =~= part);
            assert(next_part.last() == fields.deep_view()[i as int]);
        }
        r = concat_columns(r, fields[i].as_str());
        i += 1;
    }
    proof {
        assert(fields.deep_view().subrange(from as int, fields.len() as int) =~= fields.deep_view()
            .skip(from as int));
    }
    r
}

/// Joins `fields[from..]` with `','`. With `from` past the end the result
/// is the empty line.
pub fn join_from(fields: &Vec<String>, from: usize) -> (r: String)
    requires
        from <= fields@.len(),
    ensures
        r@ == join_fields(fields.deep_view().skip(from as int)),
{
    if from >= fields.len() {
        proof {
            assert(fields.deep_view().skip(from as int) =~= Seq::<Seq<char>>::empty());
        }
        return String::new();
    }
    let head = fields[from].clone();
    let r = join_with_head(head, fields, from + 1);
    proof {
        assert(seq![fields.deep_view()[from as int]] + fields.deep_view().skip(from as int + 1)
            =~= fields.deep_view().skip(from as int));
    }
    r
}

} // verus!
