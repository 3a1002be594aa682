use vstd::prelude::*;

use crate::persistency::KeyValuePair;
use crate::text::{starts_with_spec, str_starts_with};

verus! {

/// Index of the first `'\n'` in `s`, or `s.len()` when there is none.
pub open spec fn first_nl(s: Seq<char>) -> int
    decreases s.len(),
{
    if s.len() == 0 {
        0
    } else if s[0] == '\n' {
        0
    } else {
        1 + first_nl(s.drop_first())
    }
}

pub proof fn lemma_first_nl(s: Seq<char>)
    ensures
        0 <= first_nl(s) <= s.len(),
        first_nl(s) < s.len() ==> s[first_nl(s)] == '\n',
        forall|j: int| 0 <= j < first_nl(s) ==> s[j] != '\n',
    decreases s.len(),
{
    if s.len() == 0 {
    } else if s[0] == '\n' {
    } else {
        lemma_first_nl(s.drop_first());
        if first_nl(s) < s.len() {
            assert(s.drop_first()[first_nl(s) - 1] == s[first_nl(s)]);
        }
        assert forall|j: int| 0 <= j < first_nl(s) implies s[j] != '\n' by {
            if j > 0 {
                assert(s.drop_first()[j - 1] == s[j]);
            }
        }
    }
}

/// The lines of `s`, split on `'\n'` with no trimming: `n` newlines give
/// `n + 1` lines, so a trailing newline yields a final empty line.
pub open spec fn split_lines_spec(s: Seq<char>) -> Seq<Seq<char>>
    decreases s.len(),
    via split_lines_spec_dec
{
    if first_nl(s) == s.len() {
        seq![s]
    } else {
        seq![s.take(first_nl(s))] + split_lines_spec(s.skip(first_nl(s) + 1))
    }
}

#[via_fn]
proof fn split_lines_spec_dec(s: Seq<char>) {
    lemma_first_nl(s);
}

/// Split `s` into its lines on `'\n'`, no trimming.
pub fn split_lines(s: &str) -> (v: Vec<String>)
    ensures
        v@.map_values(|l: String| l@) == split_lines_spec(s@),
{
    let len = s.unicode_len();
    let mut v: Vec<String> = Vec::new();
    let mut pos: usize = 0;
    proof {
        assert(s@.skip(0) =~= s@);
    }
    loop
        invariant_except_break
            pos <= len,
            len == s@.len(),
            split_lines_spec(s@) =~= v@.map_values(|l: String| l@) + split_lines_spec(
                s@.skip(pos as int),
            ),
        ensures
            v@.map_values(|l: String| l@) == split_lines_spec(s@),
        decreases len - pos,
    {
        let ghost rem = s@.skip(pos as int);
        let mut k: usize = pos;
        while k < len && s.get_char(k) != '\n'
            invariant
                pos <= k <= len,
                len == s@.len(),
                forall|j: int| pos <= j < k ==> s@[j] != '\n',
            decreases len - k,
        {
            k = k + 1;
        }
        proof {
            lemma_first_nl(rem);
            assert forall|j: int| 0 <= j < rem.len() implies rem[j] == s@[pos + j] by {}
            if k < len {
                assert(rem[k - pos] == '\n');
                if first_nl(rem) < k - pos {
                    assert(s@[pos + first_nl(rem)] != '\n');
                    assert(rem[first_nl(rem)] == '\n');
                    assert(false);
                }
                if first_nl(rem) > k - pos {
                    assert(rem[k - pos] != '\n');
                    assert(false);
                }
                assert(first_nl(rem) == k - pos);
            } else {
                if first_nl(rem) < rem.len() {
                    assert(rem[first_nl(rem)] == '\n');
                    assert(s@[pos + first_nl(rem)] != '\n');
                    assert(false);
                }
                assert(first_nl(rem) == rem.len());
            }
        }
        let ghost old_views = v@.map_values(|l: String| l@);
        if k < len {
            let line = s.substring_char(pos, k);
            v.push(String::from_str(line));
            proof {
                assert(rem.take((k - pos) as int) =~= s@.subrange(pos as int, k as int));
                assert(rem.skip((k - pos + 1) as int) =~= s@.skip((k + 1) as int));
                assert(v@.map_values(|l: String| l@) =~= old_views + seq![
                    s@.subrange(pos as int, k as int),
                ]);
                assert(split_lines_spec(rem) == seq![rem.take((k - pos) as int)]
                    + split_lines_spec(rem.skip((k - pos + 1) as int)));
            }
            pos = k + 1;
        } else {
            let line = s.substring_char(pos, len);
            v.push(String::from_str(line));
            proof {
                assert(rem =~= s@.subrange(pos as int, len as int));
                assert(split_lines_spec(rem) == seq![rem]);
                assert(v@.map_values(|l: String| l@) =~= old_views + seq![rem]);
                assert(v@.map_values(|l: String| l@) =~= split_lines_spec(s@));
            }
            break ;
        }
    }
    v
}

/// Everything before the first `'\n'` of `s` (the whole string when there
/// is none). Carriage returns are not stripped.
pub open spec fn first_line_spec(s: Seq<char>) -> Seq<char> {
    s.take(first_nl(s))
}

/// The first line of `s`, the part a native worker's liveness verdict is
/// read from.
pub fn first_line(s: &str) -> (l: String)
    ensures
        l@ == first_line_spec(s@),
{
    let len = s.unicode_len();
    let mut k: usize = 0;
    while k < len && s.get_char(k) != '\n'
        invariant
            k <= len,
            len == s@.len(),
            forall|j: int| 0 <= j < k ==> s@[j] != '\n',
        decreases len - k,
    {
        k = k + 1;
    }
    proof {
        lemma_first_nl(s@);
        if k < len {
            if first_nl(s@) > k {
                assert(s@[k as int] != '\n');
                assert(false);
            }
            assert(first_nl(s@) == k);
        } else {
            assert(first_nl(s@) == len);
        }
    }
    String::from_str(s.substring_char(0, k))
}

/// A `###` separator sits at index `i` of `s`.
pub open spec fn sep_at(s: Seq<char>, i: int) -> bool {
    0 <= i && i + 3 <= s.len() && s[i] == '#' && s[i + 1] == '#' && s[i + 2] == '#'
}

pub open spec fn contains_sep(s: Seq<char>) -> bool {
    exists|i: int| sep_at(s, i)
}

/// Index of the first `###` separator in `s`, or `s.len()` when there is
/// none.
pub open spec fn first_sep(s: Seq<char>) -> int
    decreases s.len(),
{
    if s.len() == 0 {
        0
    } else if sep_at(s, 0) {
        0
    } else {
        1 + first_sep(s.drop_first())
    }
}

pub proof fn lemma_first_sep(s: Seq<char>)
    ensures
        0 <= first_sep(s) <= s.len(),
        contains_sep(s) ==> sep_at(s, first_sep(s)),
        forall|j: int| 0 <= j < first_sep(s) ==> !sep_at(s, j),
        !contains_sep(s) ==> first_sep(s) == s.len(),
    decreases s.len(),
{
    if s.len() == 0 {
        if contains_sep(s) {
            let i = choose|i: int| sep_at(s, i);
            assert(false);
        }
    } else if sep_at(s, 0) {
    } else {
        let d = s.drop_first();
        lemma_first_sep(d);
        assert forall|j: int| 0 <= j implies (sep_at(d, j) == sep_at(s, j + 1)) by {
            if j + 3 <= d.len() {
                assert(d[j] == s[j + 1]);
                assert(d[j + 1] == s[j + 2]);
                assert(d[j + 2] == s[j + 3]);
            }
        }
        if contains_sep(s) {
            let i = choose|i: int| sep_at(s, i);
            assert(i >= 1);
            assert(sep_at(d, i - 1));
            assert(sep_at(d, first_sep(d)));
            assert(sep_at(s, first_sep(d) + 1));
        }
        if !contains_sep(s) {
            if contains_sep(d) {
                let j = choose|j: int| sep_at(d, j);
                assert(sep_at(s, j + 1));
                assert(false);
            }
        }
        assert forall|j: int| 0 <= j < first_sep(s) implies !sep_at(s, j) by {
            if j > 0 {
                assert(!sep_at(d, j - 1));
            }
        }
    }
}

/// Find the first `###` separator of `s`.
fn find_sep(s: &str) -> (r: Option<usize>)
    ensures
        match r {
            Some(i) => contains_sep(s@) && i == first_sep(s@),
            None => !contains_sep(s@),
        },
{
    let len = s.unicode_len();
    if len < 3 {
        proof {
            if contains_sep(s@) {
                let j = choose|j: int| sep_at(s@, j);
                assert(false);
            }
        }
        return None;
    }
    let mut i: usize = 0;
    while i <= len - 3
        invariant
            3 <= len,
            i <= len,
            len == s@.len(),
            forall|j: int| 0 <= j < i ==> !sep_at(s@, j),
        decreases len - i,
    {
        if s.get_char(i) == '#' && s.get_char(i + 1) == '#' && s.get_char(i + 2) == '#' {
            proof {
                lemma_first_sep(s@);
                assert(sep_at(s@, i as int));
                if first_sep(s@) < i {
                    assert(!sep_at(s@, first_sep(s@)));
                    assert(false);
                }
                if first_sep(s@) > i {
                    assert(!sep_at(s@, i as int));
                    assert(false);
                }
            }
            return Some(i);
        }
        i = i + 1;
    }
    proof {
        if contains_sep(s@) {
            let j = choose|j: int| sep_at(s@, j);
            assert(j < i);
            assert(false);
        }
    }
    None
}

/// The key/value record carried by one output line, if any: the line must
/// start with `KV:`, and the remainder must split on the literal `###`
/// into exactly two fields (exactly one separator); any other line is
/// ignored.
pub open spec fn kv_of_line_spec(line: Seq<char>) -> Option<(Seq<char>, Seq<char>)> {
    if starts_with_spec(line, "KV:"@) {
        let rest = line.skip(3);
        if contains_sep(rest) && !contains_sep(rest.skip(first_sep(rest) + 3)) {
            Some((rest.take(first_sep(rest)), rest.skip(first_sep(rest) + 3)))
        } else {
            None
        }
    } else {
        None
    }
}

/// Parse one output line as a key/value record, per `kv_of_line_spec`.
pub fn parse_kv_line(line: &str) -> (r: Option<KeyValuePair>)
    ensures
        match r {
            Some(kv) => kv_of_line_spec(line@) == Some((kv.key@, kv.value@)),
            None => kv_of_line_spec(line@) is None,
        },
{
    proof {
        reveal_strlit("KV:");
    }
    if !str_starts_with(line, "KV:") {
        return None;
    }
    let len = line.unicode_len();
    let rest = line.substring_char(3, len);
    proof {
        assert(rest@ =~= line@.skip(3));
    }
    let rlen = rest.unicode_len();
    match find_sep(rest) {
        None => None,
        Some(i) => {
            proof {
                lemma_first_sep(rest@);
            }
            let tail = rest.substring_char(i + 3, rlen);
            proof {
                assert(tail@ =~= rest@.skip(i + 3));
            }
            match find_sep(tail) {
                Some(_) => None,
                None => {
                    let key = String::from_str(rest.substring_char(0, i));
                    let value = String::from_str(tail);
                    proof {
                        assert(key@ =~= rest@.take(i as int));
                    }
                    Some(KeyValuePair { key, value })
                },
            }
        },
    }
}

/// The records of a sequence of lines, in order.
pub open spec fn kv_records_of_lines(lines: Seq<Seq<char>>) -> Seq<(Seq<char>, Seq<char>)>
    decreases lines.len(),
{
    if lines.len() == 0 {
        Seq::empty()
    } else {
        let rest = kv_records_of_lines(lines.drop_last());
        match kv_of_line_spec(lines.last()) {
            Some(kv) => rest.push(kv),
            None => rest,
        }
    }
}

/// All key/value records carried by a runner's output, in emission order.
pub open spec fn kv_records_spec(output: Seq<char>) -> Seq<(Seq<char>, Seq<char>)> {
    kv_records_of_lines(split_lines_spec(output))
}

pub open spec fn record_views(records: Seq<KeyValuePair>) -> Seq<(Seq<char>, Seq<char>)> {
    records.map_values(|kv: KeyValuePair| (kv.key@, kv.value@))
}

/// Extract every key/value record from a runner's raw output.
pub fn parse_output(output: &str) -> (v: Vec<KeyValuePair>)
    ensures
        record_views(v@) == kv_records_spec(output@),
{
    let lines = split_lines(output);
    let ghost lviews = lines@.map_values(|l: String| l@);
    let mut v: Vec<KeyValuePair> = Vec::new();
    let mut i: usize = 0;
    while i < lines.len()
        invariant
            i <= lines@.len(),
            lviews == split_lines_spec(output@),
            lviews == lines@.map_values(|l: String| l@),
            record_views(v@) == kv_records_of_lines(lviews.take(i as int)),
        decreases lines@.len() - i,
    {
        proof {
            assert(lviews.take(i + 1).drop_last() =~= lviews.take(i as int));
            assert(lviews.take(i + 1).last() == lviews[i as int]);
            assert(lviews[i as int] == lines@[i as int]@);
        }
        let ghost old_records = record_views(v@);
        match parse_kv_line(lines[i].as_str()) {
            Some(kv) => {
                v.push(kv);
            },
            None => {},
        }
        proof {
            assert(record_views(v@) =~= kv_records_of_lines(lviews.take(i + 1)));
        }
        i = i + 1;
    }
    proof {
        assert(lviews.take(lines@.len() as int) =~= lviews);
    }
    v
}

} // verus!
