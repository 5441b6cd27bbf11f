//! Plain text work on listings: splitting a listing into lines at the
//! newline character, and cutting a line down to its first
//! whitespace-delimited column, which holds the resource name.

use vstd::prelude::*;

verus! {

/// Length of the prefix of `s` that comes before the first occurrence of
/// `delim`; the whole length when `delim` does not occur.
pub open spec fn prefix_len(s: Seq<char>, delim: char) -> nat
    decreases s.len(),
{
    if s.len() == 0 {
        0
    } else if s[0] == delim {
        0
    } else {
        1 + prefix_len(s.drop_first(), delim)
    }
}

pub proof fn lemma_prefix_len_le(s: Seq<char>, delim: char)
    ensures
        prefix_len(s, delim) <= s.len(),
    decreases s.len(),
{
    if s.len() > 0 && s[0] != delim {
        lemma_prefix_len_le(s.drop_first(), delim);
    }
}

/// `prefix_len` is the first index that holds `delim`, or the length when
/// no index does.
pub proof fn lemma_prefix_len_at(s: Seq<char>, delim: char, k: int)
    requires
        0 <= k <= s.len(),
        forall|j: int| 0 <= j < k ==> s[j] != delim,
        k < s.len() ==> s[k] == delim,
    ensures
        prefix_len(s, delim) == k,
    decreases s.len(),
{
    if s.len() == 0 {
    } else if s[0] == delim {
        assert(k == 0);
    } else {
        assert(k != 0);
        let t = s.drop_first();
        assert forall|j: int| 0 <= j < k - 1 implies t[j] != delim by {
            assert(t[j] == s[j + 1]);
        }
        assert(k - 1 < t.len() ==> t[k - 1] == delim);
        lemma_prefix_len_at(t, delim, k - 1);
    }
}

/// The pieces of `s` between occurrences of `delim`: always at least one
/// piece, one more piece than there are occurrences of `delim`.
pub open spec fn split_at(s: Seq<char>, delim: char) -> Seq<Seq<char>>
    decreases s.len(),
    via split_at_decreases
{
    let n = prefix_len(s, delim) as int;
    if n == s.len() {
        seq![s]
    } else {
        seq![s.take(n)] + split_at(s.skip(n + 1), delim)
    }
}

#[via_fn]
proof fn split_at_decreases(s: Seq<char>, delim: char) {
    lemma_prefix_len_le(s, delim);
}

/// The first index at or after `from` that holds `delim`, or the string's
/// length when none does.
pub fn scan_to(s: &str, from: usize, delim: char) -> (r: usize)
    requires
        from <= s@.len(),
    ensures
        from <= r <= s@.len(),
        r - from == prefix_len(s@.skip(from as int), delim),
        forall|j: int| from <= j < r ==> s@[j] != delim,
        r < s@.len() ==> s@[r as int] == delim,
{
    let len = s.unicode_len();
    let mut i: usize = from;
    loop
        invariant
            from <= i <= len,
            len == s@.len(),
            forall|j: int| from <= j < i ==> s@[j] != delim,
        decreases len - i,
    {
        if i == len {
            proof {
                assert forall|j: int| 0 <= j < i - from implies s@.skip(from as int)[j]
                    != delim by {
                    assert(s@.skip(from as int)[j] == s@[j + from]);
                }
                lemma_prefix_len_at(s@.skip(from as int), delim, i - from);
            }
            return i;
        }
        if s.get_char(i) == delim {
            proof {
                assert forall|j: int| 0 <= j < i - from implies s@.skip(from as int)[j]
                    != delim by {
                    assert(s@.skip(from as int)[j] == s@[j + from]);
                }
                assert(s@.skip(from as int)[i - from] == s@[i as int]);
                lemma_prefix_len_at(s@.skip(from as int), delim, i - from);
            }
            return i;
        }
        i = i + 1;
    }
}

/// Split `s` into its pieces between occurrences of `delim`.
pub fn split_str(s: &str, delim: char) -> (r: Vec<String>)
    ensures
        r.deep_view() == split_at(s@, delim),
{
    let len = s.unicode_len();
    let mut pieces: Vec<String> = Vec::new();
    let mut j: usize = 0;
    proof {
        assert(s@.skip(0) =~= s@);
        assert(pieces.deep_view() + split_at(s@.skip(0), delim) =~= split_at(s@, delim));
    }
    loop
        invariant
            j <= len,
            len == s@.len(),
            split_at(s@, delim) == pieces.deep_view() + split_at(s@.skip(j as int), delim),
        decreases len - j,
    {
        let k = scan_to(s, j, delim);
        let piece: String = s.substring_char(j, k).to_owned();
        let ghost old_dv = pieces.deep_view();
        let ghost rest = s@.skip(j as int);
        let ghost n = k - j;
        pieces.push(piece);
        proof {
            assert(pieces.deep_view() =~= old_dv.push(piece@));
            assert(prefix_len(rest, delim) == n);
            assert(piece@ =~= rest.take(n)) by {
                assert forall|m: int| 0 <= m < n implies rest.take(n)[m] == piece@[m] by {
                    assert(rest[m] == s@[j + m]);
                }
            }
        }
        if k == len {
            proof {
                assert(rest.take(n) =~= rest);
                assert(split_at(rest, delim) == seq![rest]);
                assert(old_dv + split_at(rest, delim) =~= pieces.deep_view());
                assert(pieces.deep_view() == split_at(s@, delim));
            }
            return pieces;
        }
        proof {
            assert(n < rest.len());
            assert(split_at(rest, delim) == seq![rest.take(n)] + split_at(
                rest.skip(n + 1),
                delim,
            ));
            assert(rest.skip(n + 1) =~= s@.skip(k + 1)) by {
                assert forall|m: int| 0 <= m < rest.len() - n - 1 implies #[trigger] rest.skip(
                    n + 1,
                )[m] == s@.skip(k + 1)[m] by {
                    assert(rest.skip(n + 1)[m] == rest[m + n + 1]);
                    assert(rest[m + n + 1] == s@[j + m + n + 1]);
                    assert(s@.skip(k + 1)[m] == s@[k + 1 + m]);
                }
            }
            assert(old_dv + split_at(rest, delim) =~= pieces.deep_view() + split_at(
                s@.skip(k + 1),
                delim,
            ));
        }
        j = k + 1;
    }
}

/// The first whitespace-delimited column of a line: what stands before the
/// first space, or the whole line when it holds no space.
pub open spec fn line_name(line: Seq<char>) -> Seq<char> {
    line.take(prefix_len(line, ' ') as int)
}

/// Extract the resource name from one listing line.
pub fn name_of_line(line: &str) -> (r: String)
    ensures
        r@ == line_name(line@),
{
    let k = scan_to(line, 0, ' ');
    proof {
        assert(line@.skip(0) =~= line@);
        assert(line@.subrange(0, k as int) =~= line_name(line@));
    }
    let piece = line.substring_char(0, k);
    piece.to_owned()
}

} // verus!
