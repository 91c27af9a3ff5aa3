//! Character-level text operations on `&str`, specified over `Seq<char>`.
use vstd::prelude::*;

verus! {

/// The pieces of `s` between occurrences of `sep`, in order: `s` split at
/// every `sep`, with an empty piece before a leading and after a trailing `sep`.
/// There is always at least one piece.
pub open spec fn split_on(s: Seq<char>, sep: char) -> Seq<Seq<char>>
    decreases s.len(),
{
    if s.len() == 0 {
        seq![Seq::<char>::empty()]
    } else {
        let pieces = split_on(s.drop_last(), sep);
        if s.last() == sep {
            pieces.push(Seq::<char>::empty())
        } else {
            pieces.update(pieces.len() - 1, pieces.last().push(s.last()))
        }
    }
}

/// The pieces joined back together, with `sep` between neighbours.
pub open spec fn join_with(pieces: Seq<Seq<char>>, sep: Seq<char>) -> Seq<char>
    decreases pieces.len(),
{
    if pieces.len() == 0 {
        Seq::<char>::empty()
    } else if pieces.len() == 1 {
        pieces[0]
    } else {
        join_with(pieces.drop_last(), sep) + sep + pieces.last()
    }
}

/// `split_on` always yields at least one piece.
pub proof fn lemma_split_nonempty(s: Seq<char>, sep: char)
    ensures
        split_on(s, sep).len() >= 1,
    decreases s.len(),
{
    if s.len() > 0 {
        lemma_split_nonempty(s.drop_last(), sep);
    }
}

/// Splits `s` at every occurrence of `sep`.
pub fn split_text(s: &str, sep: char) -> (pieces: Vec<String>)
    ensures
        pieces.deep_view() =~~= split_on(s@, sep),
{
    let len = s.unicode_len();
    let mut pieces: Vec<String> = Vec::new();
    let mut start: usize = 0;
    let mut i: usize = 0;
    assert(split_on(s@.take(0), sep) =~~= pieces.deep_view().push(s@.subrange(0, 0)));
    while i < len
        invariant
            len == s@.len(),
            start <= i <= len,
            split_on(s@.take(i as int), sep) =~~= pieces.deep_view().push(
                s@.subrange(start as int, i as int),
            ),
        decreases len - i,
    {
        let c = s.get_char(i);
        let ghost before = pieces.deep_view();
        let ghost piece = s@.subrange(start as int, i as int);
        proof {
            assert(s@.take(i + 1).drop_last() =~= s@.take(i as int));
            assert(s@.take(i + 1).last() == c);
        }
        if c == sep {
            let piece_text = String::from_str(s.substring_char(start, i));
            pieces.push(piece_text);
            start = i + 1;
            assert(pieces.deep_view() =~~= before.push(piece));
        } else {
            assert(piece.push(c) =~= s@.subrange(start as int, i + 1));
        }
        i = i + 1;
    }
    let last = String::from_str(s.substring_char(start, len));
    let ghost before = pieces.deep_view();
    pieces.push(last);
    assert(pieces.deep_view() =~~= before.push(s@.subrange(start as int, len as int)));
    assert(s@.take(len as int) =~= s@);
    pieces
}

/// The last piece of `s` split at `sep`: what follows the last `sep`, or all of
/// `s` where it holds no `sep`.
pub open spec fn last_piece(s: Seq<char>, sep: char) -> Seq<char> {
    split_on(s, sep).last()
}

/// The first `count` pieces of `s` split at `sep`, joined again by `sep`:
/// the part of `s` before its `count`-th `sep`, or all of `s` where it holds
/// fewer.
pub open spec fn leading_pieces(s: Seq<char>, sep: char, count: nat) -> Seq<char> {
    let pieces = split_on(s, sep);
    join_with(pieces.take(if count < pieces.len() { count as int } else { pieces.len() as int }), seq![sep])
}

/// Joins the first `count` pieces (or all of them, where there are fewer) with
/// `sep` between neighbours.
pub fn join_first(pieces: &Vec<String>, count: usize, sep: &str) -> (joined: String)
    ensures
        joined@ == join_with(
            pieces.deep_view().take(if count < pieces.len() { count as int } else { pieces.len() as int }),
            sep@,
        ),
{
    let n = if count < pieces.len() { count } else { pieces.len() };
    let mut joined = String::new();
    let mut i: usize = 0;
    while i < n
        invariant
            n <= pieces.len(),
            i <= n,
            joined@ == join_with(pieces.deep_view().take(i as int), sep@),
        decreases n - i,
    {
        proof {
            assert(pieces.deep_view().take(i + 1).drop_last() =~= pieces.deep_view().take(i as int));
        }
        if i == 0 {
            joined.append(pieces[i].as_str());
            assert(joined@ =~= join_with(pieces.deep_view().take(1), sep@));
        } else {
            joined.append(sep);
            joined.append(pieces[i].as_str());
        }
        i = i + 1;
    }
    joined
}

/// What follows the last `sep` in `s` (all of `s` where there is none).
pub fn last_piece_text(s: &str, sep: char) -> (piece: String)
    ensures
        piece@ == last_piece(s@, sep),
{
    let mut pieces = split_text(s, sep);
    proof {
        lemma_split_nonempty(s@, sep);
    }
    let piece = pieces.pop().unwrap();
    piece
}

/// The part of `s` before its `count`-th `sep` (all of `s` where it holds fewer).
pub fn leading_pieces_text(s: &str, sep: char, sep_text: &str, count: usize) -> (prefix: String)
    requires
        sep_text@ == seq![sep],
    ensures
        prefix@ == leading_pieces(s@, sep, count as nat),
{
    let pieces = split_text(s, sep);
    join_first(&pieces, count, sep_text)
}

/// Splitting at `sep` and joining the pieces again with `sep` gives back the text.
pub proof fn lemma_join_split(s: Seq<char>, sep: char)
    ensures
        join_with(split_on(s, sep), seq![sep]) == s,
    decreases s.len(),
{
    if s.len() > 0 {
        let t = s.drop_last();
        let p = split_on(t, sep);
        lemma_join_split(t, sep);
        lemma_split_nonempty(t, sep);
        if s.last() == sep {
            assert(p.push(Seq::<char>::empty()).drop_last() =~= p);
            assert(t + seq![sep] + Seq::<char>::empty() =~= s);
        } else {
            let q = p.update(p.len() - 1, p.last().push(s.last()));
            if p.len() == 1 {
                assert(t.push(s.last()) =~= s);
            } else {
                assert(q.drop_last() =~= p.drop_last());
                assert(join_with(p.drop_last(), seq![sep]) + seq![sep] + p.last().push(s.last())
                    =~= (join_with(p.drop_last(), seq![sep]) + seq![sep] + p.last()).push(s.last()));
                assert(t.push(s.last()) =~= s);
            }
        }
    }
}

/// No piece of `s` split at `sep` holds `sep`.
pub proof fn lemma_split_pieces_free_of_sep(s: Seq<char>, sep: char)
    ensures
        forall|k: int| 0 <= k < split_on(s, sep).len() ==> !(#[trigger] split_on(s, sep)[k]).contains(sep),
    decreases s.len(),
{
    if s.len() > 0 {
        let t = s.drop_last();
        let p = split_on(t, sep);
        lemma_split_pieces_free_of_sep(t, sep);
        lemma_split_nonempty(t, sep);
        if s.last() != sep {
            let q = split_on(s, sep);
            assert forall|k: int| 0 <= k < q.len() implies !(#[trigger] q[k]).contains(sep) by {
                if k == q.len() - 1 {
                    let piece = p.last().push(s.last());
                    assert(!p[p.len() - 1].contains(sep));
                    if piece.contains(sep) {
                        let j = choose|j: int| 0 <= j < piece.len() && piece[j] == sep;
                        if j < p.last().len() {
                            assert(p.last()[j] == sep);
                        }
                    }
                }
            }
        } else {
            let q = split_on(s, sep);
            assert forall|k: int| 0 <= k < q.len() implies !(#[trigger] q[k]).contains(sep) by {
                if k < p.len() {
                    assert(q[k] == p[k]);
                }
            }
        }
    }
}

/// `s` with every occurrence of `pat` taken out, the occurrences found from
/// the left and not overlapping (`str::replace(pat, "")`); an empty `pat`
/// leaves `s` as it is.
pub open spec fn remove_all(s: Seq<char>, pat: Seq<char>) -> Seq<char>
    decreases s.len(),
{
    if pat.len() == 0 || s.len() < pat.len() {
        s
    } else if s.take(pat.len() as int) == pat {
        remove_all(s.skip(pat.len() as int), pat)
    } else {
        seq![s[0]] + remove_all(s.drop_first(), pat)
    }
}

/// Whether `a` and `b` hold the same characters.
pub fn same_text(a: &str, b: &str) -> (same: bool)
    ensures
        same == (a@ == b@),
{
    let n = a.unicode_len();
    if n != b.unicode_len() {
        return false;
    }
    let mut i: usize = 0;
    while i < n
        invariant
            n == a@.len() == b@.len(),
            i <= n,
            forall|j: int| 0 <= j < i ==> a@[j] == b@[j],
        decreases n - i,
    {
        if a.get_char(i) != b.get_char(i) {
            return false;
        }
        i = i + 1;
    }
    assert(a@ =~= b@);
    true
}

/// Whether `pat` occurs in `s` at character position `at`.
fn occurs_at(s: &str, pat: &str, at: usize, pat_len: usize) -> (found: bool)
    requires
        pat_len == pat@.len(),
        at + pat_len <= s@.len() <= usize::MAX,
    ensures
        found == (s@.subrange(at as int, at + pat_len) == pat@),
{
    let mut j: usize = 0;
    while j < pat_len
        invariant
            pat_len == pat@.len(),
            at + pat_len <= s@.len() <= usize::MAX,
            j <= pat_len,
            forall|k: int| 0 <= k < j ==> s@[at + k] == pat@[k],
        decreases pat_len - j,
    {
        if s.get_char(at + j) != pat.get_char(j) {
            assert(s@.subrange(at as int, at + pat_len)[j as int] != pat@[j as int]);
            return false;
        }
        j = j + 1;
    }
    assert(s@.subrange(at as int, at + pat_len) =~= pat@);
    true
}

/// `s` with every occurrence of `pat` removed, scanning from the left.
pub fn remove_all_text(s: &str, pat: &str) -> (rest: String)
    ensures
        rest@ == remove_all(s@, pat@),
{
    let len = s.unicode_len();
    let pat_len = pat.unicode_len();
    if pat_len == 0 {
        return String::from_str(s);
    }
    let mut rest = String::new();
    let mut start: usize = 0;
    let mut i: usize = 0;
    assert(s@.skip(0) =~= s@);
    while i < len
        invariant
            len == s@.len(),
            pat_len == pat@.len() > 0,
            start <= i <= len,
            remove_all(s@, pat@) =~= rest@ + s@.subrange(start as int, i as int) + remove_all(
                s@.skip(i as int),
                pat@,
            ),
        decreases len - i,
    {
        let ghost tail = s@.skip(i as int);
        if pat_len <= len - i && occurs_at(s, pat, i, pat_len) {
            assert(tail.take(pat_len as int) =~= s@.subrange(i as int, i + pat_len));
            assert(tail.skip(pat_len as int) =~= s@.skip(i + pat_len));
            rest.append(s.substring_char(start, i));
            i = i + pat_len;
            start = i;
        } else {
            if pat_len <= len - i {
                assert(tail.take(pat_len as int) =~= s@.subrange(i as int, i + pat_len));
                assert(tail.drop_first() =~= s@.skip(i + 1));
                assert(s@.subrange(start as int, i as int) + seq![s@[i as int]] =~= s@.subrange(start as int, i + 1));
                i = i + 1;
            } else {
                assert(tail =~= s@.subrange(i as int, len as int));
                assert(s@.subrange(start as int, i as int) + tail =~= s@.subrange(start as int, len as int));
                assert(s@.skip(len as int) =~= Seq::<char>::empty());
                i = len;
            }
        }
    }
    rest.append(s.substring_char(start, len));
    assert(s@.skip(len as int) =~= Seq::<char>::empty());
    rest
}

/// The last piece of `s` split at `sep` holds no `sep`.
pub proof fn lemma_last_piece_free_of_sep(s: Seq<char>, sep: char)
    ensures
        !last_piece(s, sep).contains(sep),
{
    lemma_split_nonempty(s, sep);
    lemma_split_pieces_free_of_sep(s, sep);
    let pieces = split_on(s, sep);
    assert(!pieces[pieces.len() - 1].contains(sep));
}

/// Joining the first `k` pieces gives a beginning of joining them all.
proof fn lemma_join_take_prefix(pieces: Seq<Seq<char>>, sep: Seq<char>, k: int)
    requires
        0 <= k <= pieces.len(),
    ensures
        join_with(pieces.take(k), sep).len() <= join_with(pieces, sep).len(),
        join_with(pieces, sep).take(join_with(pieces.take(k), sep).len() as int) =~= join_with(
            pieces.take(k),
            sep,
        ),
    decreases pieces.len(),
{
    if k == pieces.len() {
        assert(pieces.take(k) =~= pieces);
    } else {
        let shorter = pieces.drop_last();
        assert(shorter.take(k) =~= pieces.take(k));
        lemma_join_take_prefix(shorter, sep, k);
        if pieces.len() > 1 {
            let whole = join_with(pieces, sep);
            let front = join_with(shorter, sep);
            assert(whole =~= front + sep + pieces.last());
            let n = join_with(pieces.take(k), sep).len() as int;
            assert(whole.take(n) =~= front.take(n));
        } else {
            assert(k == 0);
            assert(pieces.take(0) =~= Seq::<Seq<char>>::empty());
        }
    }
}

/// The part of `s` before its `count`-th `sep` is a beginning of `s`.
pub proof fn lemma_leading_pieces_prefix(s: Seq<char>, sep: char, count: nat)
    ensures
        leading_pieces(s, sep, count).len() <= s.len(),
        s.take(leading_pieces(s, sep, count).len() as int) =~= leading_pieces(s, sep, count),
{
    let pieces = split_on(s, sep);
    let k = if count < pieces.len() { count as int } else { pieces.len() as int };
    lemma_join_take_prefix(pieces, seq![sep], k);
    lemma_join_split(s, sep);
}

/// Taking out an empty pattern leaves the text as it is.
pub proof fn lemma_remove_nothing(s: Seq<char>)
    ensures
        remove_all(s, Seq::<char>::empty()) == s,
{
}

/// Taking out occurrences of a pattern never makes the text longer.
pub proof fn lemma_remove_all_no_longer(s: Seq<char>, pat: Seq<char>)
    ensures
        remove_all(s, pat).len() <= s.len(),
    decreases s.len(),
{
    if pat.len() == 0 || s.len() < pat.len() {
    } else if s.take(pat.len() as int) == pat {
        lemma_remove_all_no_longer(s.skip(pat.len() as int), pat);
    } else {
        lemma_remove_all_no_longer(s.drop_first(), pat);
    }
}

} // verus!
