//! Fragment extraction: strip the code fence around a model reply.
//!
//! Model output is assumed to be a fenced block: its first line is an
//! opening fence marker and its last line a closing one; the interior
//! lines are the desired HTML. The extractor splits the text into lines,
//! drops the first and the last line, and rejoins the rest with newlines.
//! Degenerate input with fewer than two lines yields the empty string —
//! an explicit policy, never a fault.
//!
//! Lines follow the usual convention: pieces separated by `'\n'`, with one
//! trailing newline, if present, not opening a further empty line.

use vstd::prelude::*;

verus! {

/// The pieces of `s` separated by `'\n'`. Always at least one piece; a
/// trailing separator opens a further, empty piece.
pub open spec fn split_lines(s: Seq<char>) -> Seq<Seq<char>>
    decreases s.len(),
{
    if s.len() == 0 {
        seq![Seq::<char>::empty()]
    } else if s.last() == '\n' {
        split_lines(s.drop_last()).push(Seq::<char>::empty())
    } else {
        let r = split_lines(s.drop_last());
        r.update(r.len() - 1, r.last().push(s.last()))
    }
}

/// The lines of `s`: as `split_lines`, except that empty input has no
/// lines and a single trailing newline does not open an empty final line.
pub open spec fn lines_of(s: Seq<char>) -> Seq<Seq<char>> {
    if s.len() == 0 {
        Seq::<Seq<char>>::empty()
    } else if s.last() == '\n' {
        split_lines(s.drop_last())
    } else {
        split_lines(s)
    }
}

/// The lines of `ls` joined by a single `'\n'` between neighbours.
pub open spec fn join_lines(ls: Seq<Seq<char>>) -> Seq<char>
    decreases ls.len(),
{
    if ls.len() == 0 {
        Seq::<char>::empty()
    } else if ls.len() == 1 {
        ls[0]
    } else {
        join_lines(ls.drop_last()) + seq!['\n'] + ls.last()
    }
}

/// What fragment extraction returns: the interior lines of `s` — all but
/// the first and the last — rejoined with newlines, and the empty
/// sequence whenever `s` has fewer than two lines.
pub open spec fn extract_spec(s: Seq<char>) -> Seq<char> {
    let ls = lines_of(s);
    if ls.len() < 2 {
        Seq::<char>::empty()
    } else {
        join_lines(ls.subrange(1, ls.len() - 1))
    }
}

/// `split_lines` has at least one piece.
pub proof fn lemma_split_lines_nonempty(s: Seq<char>)
    ensures
        split_lines(s).len() >= 1,
    decreases s.len(),
{
    if s.len() != 0 {
        lemma_split_lines_nonempty(s.drop_last());
    }
}

/// Strips the enclosing code fence from `raw`: drops its first and last
/// line and rejoins the interior with newlines. Input with fewer than
/// two lines gives the empty string.
pub fn extract_fragment(raw: &str) -> (out: String)
    ensures
        out@ == extract_spec(raw@),
{
    let n = raw.unicode_len();
    if n == 0 {
        let out = String::new();
        proof {
            assert(lines_of(raw@).len() == 0);
        }
        return out;
    }
    // Length of the text with a single trailing newline, if any, set aside:
    // the lines of `raw` are exactly `split_lines` of this prefix.
    let last = raw.get_char(n - 1);
    let m: usize = if last == '\n' {
        n - 1
    } else {
        n
    };
    proof {
        if last == '\n' {
            assert(raw@.subrange(0, m as int) =~= raw@.drop_last());
        } else {
            assert(raw@.subrange(0, m as int) =~= raw@);
        }
        assert(lines_of(raw@) == split_lines(raw@.subrange(0, m as int)));
    }
    // Completed lines so far, and the line still being read.
    let mut pieces: Vec<String> = Vec::new();
    let mut cur = String::new();
    let mut i: usize = 0;
    while i < m
        invariant
            i <= m,
            m <= n == raw@.len(),
            pieces.deep_view().push(cur@) =~~= split_lines(raw@.subrange(0, i as int)),
        decreases m - i,
    {
        let ghost prefix = raw@.subrange(0, i as int);
        let ghost step = raw@.subrange(0, i + 1 as int);
        proof {
            assert(step.drop_last() =~= prefix);
            assert(step.last() == raw@[i as int]);
        }
        let c = raw.get_char(i);
        if c == '\n' {
            let ghost prev = pieces.deep_view();
            let ghost curv = cur@;
            pieces.push(cur);
            cur = String::new();
            proof {
                assert(pieces.deep_view() =~~= prev.push(curv));
                assert(split_lines(step) =~~= split_lines(prefix).push(Seq::<char>::empty()));
                assert(pieces.deep_view().push(cur@) =~~= split_lines(prefix).push(
                    Seq::<char>::empty(),
                ));
            }
        } else {
            let piece = raw.substring_char(i, i + 1);
            proof {
                assert(piece@ =~= seq![raw@[i as int]]);
                let r = split_lines(prefix);
                lemma_split_lines_nonempty(prefix);
                assert(split_lines(step) =~~= r.update(r.len() - 1, r.last().push(c)));
                assert(r =~~= pieces.deep_view().push(cur@));
                assert(r.update(r.len() - 1, r.last().push(c)) =~~= pieces.deep_view().push(
                    cur@ + piece@,
                ));
            }
            cur.append(piece);
        }
        i = i + 1;
    }
    let ghost all_lines = lines_of(raw@);
    proof {
        assert(all_lines =~~= pieces.deep_view().push(cur@));
    }
    // `cur` holds the final line; `pieces` holds every line before it.
    if pieces.len() == 0 {
        let out = String::new();
        proof {
            assert(all_lines.len() == 1);
        }
        return out;
    }
    proof {
        assert(all_lines.len() >= 2);
        assert(all_lines.subrange(1, all_lines.len() - 1) =~~= pieces.deep_view().subrange(
            1,
            pieces.deep_view().len() as int,
        ));
    }
    let mut out = String::new();
    let mut j: usize = 1;
    while j < pieces.len()
        invariant
            1 <= j <= pieces.len(),
            out@ =~= join_lines(pieces.deep_view().subrange(1, j as int)),
        decreases pieces.len() - j,
    {
        let ghost mid = pieces.deep_view().subrange(1, j as int);
        proof {
            assert(pieces.deep_view().subrange(1, j + 1 as int) =~~= mid.push(
                pieces.deep_view()[j as int],
            ));
            reveal_strlit("\n");
            if mid.len() == 0 {
                assert(join_lines(mid.push(pieces.deep_view()[j as int])) == pieces.deep_view()[j as int]);
            } else {
                assert(mid.push(pieces.deep_view()[j as int]).drop_last() =~~= mid);
                assert(join_lines(mid.push(pieces.deep_view()[j as int])) == join_lines(mid)
                    + seq!['\n'] + pieces.deep_view()[j as int]);
            }
        }
        if j > 1 {
            out.append("\n");
        }
        out.append(pieces[j].as_str());
        j = j + 1;
    }
    proof {
        assert(out@ =~= extract_spec(raw@));
    }
    out
}

} // verus!
