use vstd::prelude::*;

verus! {

/// The segments of `s` between its `/` separators, as `str::split('/')` gives
/// them: `n` separators yield `n + 1` segments, empty ones included.
pub open spec fn segments(s: Seq<char>) -> Seq<Seq<char>>
    decreases s.len(),
{
    if s.len() == 0 {
        seq![Seq::empty()]
    } else {
        let init = segments(s.drop_last());
        if s.last() == '/' {
            init.push(Seq::empty())
        } else {
            init.update(init.len() - 1, init.last().push(s.last()))
        }
    }
}

/// Splits `path` on every `/`.
pub fn split_path(path: &str) -> (r: Vec<String>)
    ensures
        r@.map_values(|x: String| x@) == segments(path@),
{
    let n = path.unicode_len();
    let mut out: Vec<String> = Vec::new();
    let mut start: usize = 0;
    let mut i: usize = 0;
    proof {
        assert(out@.map_values(|x: String| x@) =~= Seq::<Seq<char>>::empty());
        assert(path@.subrange(0, 0) =~= Seq::<char>::empty());
        assert(segments(Seq::<char>::empty()) =~= seq![Seq::<char>::empty()]);
    }
    while i < n
        invariant
            n == path@.len(),
            start <= i <= n,
            out@.map_values(|x: String| x@).push(path@.subrange(start as int, i as int))
                == segments(path@.subrange(0, i as int)),
        decreases n - i,
    {
        let c = path.get_char(i);
        let ghost prev = out@.map_values(|x: String| x@);
        proof {
            let p = path@.subrange(0, i + 1);
            assert(p.drop_last() =~= path@.subrange(0, i as int));
            assert(p.last() == c);
        }
        if c == '/' {
            let seg = path.substring_char(start, i).to_owned();
            out.push(seg);
            proof {
                assert(out@.map_values(|x: String| x@) =~= prev.push(seg@));
            }
            i = i + 1;
            start = i;
            proof {
                assert(path@.subrange(start as int, i as int) =~= Seq::<char>::empty());
            }
        } else {
            proof {
                assert(path@.subrange(start as int, i + 1) =~= path@.subrange(
                    start as int,
                    i as int,
                ).push(c));
            }
            i = i + 1;
        }
    }
    let last = path.substring_char(start, n).to_owned();
    out.push(last);
    proof {
        assert(path@.subrange(0, n as int) =~= path@);
    }
    out
}

} // verus!
