use vstd::prelude::*;

verus! {

/// Splitting a byte sequence at every occurrence of `sep`. An empty input
/// is one empty piece; a trailing separator ends with an empty piece —
/// there is always exactly one piece more than there are separators.
pub open spec fn split_on(s: Seq<u8>, sep: u8) -> Seq<Seq<u8>>
    decreases s.len(),
{
    if s.len() == 0 {
        seq![Seq::<u8>::empty()]
    } else {
        let rest = split_on(s.drop_last(), sep);
        if s.last() == sep {
            rest.push(Seq::<u8>::empty())
        } else {
            rest.update(rest.len() - 1, rest.last().push(s.last()))
        }
    }
}

/// The splitting always yields at least one piece.
pub proof fn lemma_split_on_nonempty(s: Seq<u8>, sep: u8)
    ensures
        split_on(s, sep).len() > 0,
    decreases s.len(),
{
    if s.len() > 0 {
        lemma_split_on_nonempty(s.drop_last(), sep);
    }
}

/// Which rows of a line sequence the tabular reader keeps: each line is
/// split into comma-separated fields, and a row of one field or fewer is
/// malformed and silently dropped, in order.
pub open spec fn kept_rows(lines: Seq<Seq<u8>>) -> Seq<Seq<Seq<u8>>>
    decreases lines.len(),
{
    if lines.len() == 0 {
        Seq::empty()
    } else {
        let rest = kept_rows(lines.drop_last());
        let fields = split_on(lines.last(), 44u8);
        if fields.len() > 1 {
            rest.push(fields)
        } else {
            rest
        }
    }
}

/// What the tabular reader makes of raw text: rows separated by line
/// breaks, fields by commas, the first row a header that is discarded,
/// and every remaining row of more than one field kept in order.
pub open spec fn tabular_rows(text: Seq<u8>) -> Seq<Seq<Seq<u8>>> {
    kept_rows(split_on(text, 10u8).skip(1))
}

/// Splits `text` at every occurrence of `sep`.
fn split_bytes(text: &[u8], sep: u8) -> (r: Vec<Vec<u8>>)
    ensures
        r.deep_view() == split_on(text@, sep),
{
    let mut pieces: Vec<Vec<u8>> = Vec::new();
    let mut cur: Vec<u8> = Vec::new();
    let n = text.len();
    proof {
        assert(text@.take(0) =~= Seq::<u8>::empty());
        assert(split_on(text@.take(0), sep) =~~= pieces.deep_view().push(cur.deep_view()));
    }
    let mut i: usize = 0;
    while i < n
        invariant
            i <= n,
            n == text@.len(),
            split_on(text@.take(i as int), sep) == pieces.deep_view().push(cur.deep_view()),
        decreases n - i,
    {
        let ghost prefix = text@.take(i as int);
        let c = text[i];
        if c == sep {
            pieces.push(cur);
            cur = Vec::new();
        } else {
            cur.push(c);
        }
        i = i + 1;
        proof {
            let longer = text@.take(i as int);
            assert(longer.drop_last() =~= prefix);
            assert(longer.last() == c);
            assert(split_on(longer, sep) =~~= pieces.deep_view().push(cur.deep_view()));
        }
    }
    proof {
        assert(text@.take(n as int) =~= text@);
    }
    pieces.push(cur);
    proof {
        assert(pieces.deep_view() =~~= split_on(text@, sep));
    }
    pieces
}

/// Reads tabular text into its rows of byte fields: rows are separated by
/// line breaks and fields by commas; the first row is a header and is
/// discarded; a row with one field or fewer is malformed and silently
/// skipped, never an error. The caller turns each kept field into a number.
pub fn split_rows(text: &[u8]) -> (r: Vec<Vec<Vec<u8>>>)
    ensures
        r.deep_view() == tabular_rows(text@),
{
    let lines = split_bytes(text, 10u8);
    let mut rows: Vec<Vec<Vec<u8>>> = Vec::new();
    let mut k: usize = 1;
    proof {
        lemma_split_on_nonempty(text@, 10u8);
        assert(lines.deep_view().skip(1).take(0) =~~= Seq::<Seq<u8>>::empty());
        assert(rows.deep_view() =~~= kept_rows(lines.deep_view().skip(1).take(0)));
    }
    while k < lines.len()
        invariant
            1 <= k,
            k <= lines@.len(),
            lines.deep_view() == split_on(text@, 10u8),
            rows.deep_view() == kept_rows(lines.deep_view().skip(1).take(k - 1)),
        decreases lines@.len() - k,
    {
        let ghost seen = lines.deep_view().skip(1).take(k - 1);
        let ghost now = lines.deep_view().skip(1).take(k as int);
        let fields = split_bytes(lines[k].as_slice(), 44u8);
        let ghost fields_view = fields.deep_view();
        proof {
            assert(now.drop_last() =~~= seen);
            assert(now.last() =~= lines@[k as int].deep_view());
            assert(lines@[k as int].deep_view() =~= lines@[k as int]@);
            assert(fields_view == split_on(now.last(), 44u8));
            assert(fields_view.len() == fields@.len());
        }
        if fields.len() > 1 {
            rows.push(fields);
            proof {
                assert(kept_rows(now) == kept_rows(seen).push(fields_view));
                assert(rows.deep_view() =~~= kept_rows(now));
            }
        } else {
            proof {
                assert(kept_rows(now) == kept_rows(seen));
            }
        }
        k = k + 1;
    }
    proof {
        let all = lines.deep_view();
        assert(all.skip(1).take(all.len() - 1) =~~= all.skip(1));
    }
    rows
}

} // verus!
