use vstd::prelude::*;

verus! {

/// The pieces of `s` between commas, in order; a text without commas is one
/// piece.
pub open spec fn split_commas(s: Seq<char>) -> Seq<Seq<char>>
    decreases s.len(),
{
    if s.len() == 0 {
        seq![Seq::<char>::empty()]
    } else if s.last() == ',' {
        split_commas(s.drop_last()).push(Seq::<char>::empty())
    } else {
        let p = split_commas(s.drop_last());
        p.update(p.len() - 1, p.last().push(s.last()))
    }
}

proof fn lemma_split_nonempty(s: Seq<char>)
    ensures
        split_commas(s).len() >= 1,
    decreases s.len(),
{
    if s.len() > 0 {
        lemma_split_nonempty(s.drop_last());
    }
}

pub open spec fn texts(v: Seq<String>) -> Seq<Seq<char>> {
    v.map_values(|t: String| t@)
}

/// The origins that cross-origin requests may come from, listed with commas
/// between them; `None` for an empty list, which admits every origin.
pub fn allowed_origins(list: &str) -> (r: Option<Vec<String>>)
    ensures
        r is None <==> list@.len() == 0,
        r matches Some(v) ==> texts(v@) == split_commas(list@),
{
    let n = list.unicode_len();
    if n == 0 {
        return None;
    }
    let mut pieces: Vec<String> = Vec::new();
    let mut start: usize = 0;
    let mut i: usize = 0;
    assert(list@.subrange(0, 0) =~= Seq::<char>::empty());
    assert(texts(pieces@).push(list@.subrange(0, 0)) =~= split_commas(Seq::<char>::empty()));
    while i < n
        invariant
            n == list@.len(),
            start <= i <= n,
            texts(pieces@).push(list@.subrange(start as int, i as int)) == split_commas(list@.subrange(0, i as int)),
        decreases n - i,
    {
        let c = list.get_char(i);
        let ghost prefix = list@.subrange(0, i + 1);
        assert(prefix.drop_last() =~= list@.subrange(0, i as int));
        assert(prefix.last() == c);
        if c == ',' {
            let ghost before = texts(pieces@).push(list@.subrange(start as int, i as int));
            let piece = list.substring_char(start, i).to_owned();
            pieces.push(piece);
            assert(texts(pieces@) =~= before);
            start = i + 1;
            assert(list@.subrange(start as int, i + 1) =~= Seq::<char>::empty());
            assert(texts(pieces@).push(list@.subrange(start as int, i + 1)) =~= split_commas(prefix));
        } else {
            proof {
                lemma_split_nonempty(list@.subrange(0, i as int));
                assert(list@.subrange(start as int, i + 1) =~= list@.subrange(start as int, i as int).push(c));
                assert(texts(pieces@).push(list@.subrange(start as int, i + 1)) =~= split_commas(prefix));
            }
        }
        i = i + 1;
    }
    let last = list.substring_char(start, n).to_owned();
    pieces.push(last);
    assert(list@.subrange(0, n as int) =~= list@);
    assert(texts(pieces@) =~= texts(pieces@.drop_last()).push(list@.subrange(start as int, n as int)));
    Some(pieces)
}

} // verus!
