//! Text building blocks: joining, decimal numerals, prefixes and lines.

use vstd::prelude::*;

verus! {

/// The texts held by a sequence of strings.
pub open spec fn views(v: Seq<String>) -> Seq<Seq<char>> {
    Seq::new(v.len(), |i: int| v[i]@)
}

/// The view of an optional string.
pub open spec fn opt_view(o: Option<String>) -> Option<Seq<char>> {
    match o {
        Some(s) => Some(s@),
        None => None,
    }
}

/// `parts` laid end to end with `sep` between neighbours.
pub open spec fn join(parts: Seq<Seq<char>>, sep: Seq<char>) -> Seq<char>
    decreases parts.len(),
{
    if parts.len() == 0 {
        Seq::empty()
    } else if parts.len() == 1 {
        parts[0]
    } else {
        join(parts.drop_last(), sep) + sep + parts.last()
    }
}

/// `parts` without its empty members, order kept.
pub open spec fn drop_empty(parts: Seq<Seq<char>>) -> Seq<Seq<char>>
    decreases parts.len(),
{
    if parts.len() == 0 {
        Seq::empty()
    } else if parts.last().len() == 0 {
        drop_empty(parts.drop_last())
    } else {
        drop_empty(parts.drop_last()).push(parts.last())
    }
}

/// The character that writes the digit `d`.
pub open spec fn digit_char(d: int) -> char {
    if d == 0 {
        '0'
    } else if d == 1 {
        '1'
    } else if d == 2 {
        '2'
    } else if d == 3 {
        '3'
    } else if d == 4 {
        '4'
    } else if d == 5 {
        '5'
    } else if d == 6 {
        '6'
    } else if d == 7 {
        '7'
    } else if d == 8 {
        '8'
    } else {
        '9'
    }
}

/// The decimal numeral of a natural number, without leading zeros.
pub open spec fn natural_text(n: nat) -> Seq<char>
    decreases n,
{
    if n < 10 {
        seq![digit_char(n as int)]
    } else {
        natural_text(n / 10).push(digit_char((n % 10) as int))
    }
}

/// The decimal numeral of an integer, with `-` before a negative one.
pub open spec fn integer_text(i: int) -> Seq<char> {
    if i < 0 {
        seq!['-'] + natural_text((-i) as nat)
    } else {
        natural_text(i as nat)
    }
}

/// The index of the last `c` in `s`, or -1 where `s` holds none.
pub open spec fn last_index_of(s: Seq<char>, c: char) -> int
    decreases s.len(),
{
    if s.len() == 0 {
        -1
    } else if s.last() == c {
        s.len() - 1
    } else {
        last_index_of(s.drop_last(), c)
    }
}

/// What follows the last `c` in `s`; all of `s` where it holds none.
pub open spec fn after_last(s: Seq<char>, c: char) -> Seq<char> {
    s.subrange(last_index_of(s, c) + 1, s.len() as int)
}

/// The texts of a list that grew by one string are the texts of the list
/// with that string's text added.
pub proof fn lemma_views_push(v: Seq<String>, s: String)
    ensures
        views(v.push(s)) == views(v).push(s@),
{
    assert(views(v.push(s)) =~= views(v).push(s@));
}

/// One more element of a sequence taken is the element pushed onto what was
/// taken before.
pub proof fn lemma_take_push<T>(s: Seq<T>, i: int)
    requires
        0 <= i < s.len(),
    ensures
        s.take(i + 1) == s.take(i).push(s[i]),
{
    assert(s.take(i + 1) =~= s.take(i).push(s[i]));
}

/// Joins the strings of `parts` with `sep` between neighbours.
pub fn join_strings(parts: &Vec<String>, sep: &str) -> (out: String)
    ensures
        out@ == join(views(parts@), sep@),
{
    let mut out = String::new();
    let mut i: usize = 0;
    while i < parts.len()
        invariant
            i <= parts.len(),
            out@ == join(views(parts@).take(i as int), sep@),
        decreases parts.len() - i,
    {
        proof {
            let p = views(parts@);
            assert(p.take(i as int + 1).drop_last() =~= p.take(i as int));
            assert(p.take(i as int + 1).last() == parts@[i as int]@);
            if i == 0 {
                assert(p.take(0).len() == 0);
            }
        }
        if i > 0 {
            out.append(sep);
        }
        out.append(parts[i].as_str());
        assert(out@ =~= join(views(parts@).take(i as int + 1), sep@));
        i += 1;
    }
    proof {
        assert(views(parts@).take(parts.len() as int) =~= views(parts@));
    }
    out
}

/// Appends `part` to `parts` unless it is empty.
pub fn push_nonempty(parts: &mut Vec<String>, part: String)
    ensures
        views(final(parts)@) == views(old(parts)@) + drop_empty(seq![part@]),
{
    proof {
        assert(seq![part@].drop_last() =~= Seq::<Seq<char>>::empty());
        assert(drop_empty(seq![part@].drop_last()) =~= Seq::<Seq<char>>::empty());
    }
    if !part.as_str().is_empty() {
        proof {
            lemma_views_push(parts@, part);
            assert(drop_empty(seq![part@]) =~= seq![part@]);
            assert(views(parts@).push(part@) =~= views(parts@) + seq![part@]);
        }
        parts.push(part);
    } else {
        assert(drop_empty(seq![part@]) =~= Seq::<Seq<char>>::empty());
        assert(views(parts@) + Seq::<Seq<char>>::empty() =~= views(parts@));
    }
}

/// Dropping the empty members of a sequence that grew by one member is
/// dropping those of the sequence, and then of the member.
pub proof fn lemma_drop_empty_push(parts: Seq<Seq<char>>, part: Seq<char>)
    ensures
        drop_empty(parts.push(part)) == drop_empty(parts) + drop_empty(seq![part]),
{
    assert(parts.push(part).drop_last() =~= parts);
    assert(seq![part].drop_last() =~= Seq::<Seq<char>>::empty());
    assert(drop_empty(seq![part].drop_last()) =~= Seq::<Seq<char>>::empty());
    if part.len() == 0 {
        assert(drop_empty(seq![part]) =~= Seq::<Seq<char>>::empty());
        assert(drop_empty(parts) + Seq::<Seq<char>>::empty() =~= drop_empty(parts));
    } else {
        assert(drop_empty(seq![part]) =~= seq![part]);
        assert(drop_empty(parts).push(part) =~= drop_empty(parts) + seq![part]);
    }
}

/// The one-character text of a decimal digit.
pub fn digit_str(d: u64) -> (out: &'static str)
    requires
        d < 10,
    ensures
        out@ == seq![digit_char(d as int)],
{
    proof {
        reveal_strlit("0");
        reveal_strlit("1");
        reveal_strlit("2");
        reveal_strlit("3");
        reveal_strlit("4");
        reveal_strlit("5");
        reveal_strlit("6");
        reveal_strlit("7");
        reveal_strlit("8");
        reveal_strlit("9");
    }
    let out = if d == 0 {
        "0"
    } else if d == 1 {
        "1"
    } else if d == 2 {
        "2"
    } else if d == 3 {
        "3"
    } else if d == 4 {
        "4"
    } else if d == 5 {
        "5"
    } else if d == 6 {
        "6"
    } else if d == 7 {
        "7"
    } else if d == 8 {
        "8"
    } else {
        "9"
    };
    assert(out@ =~= seq![digit_char(d as int)]);
    out
}

/// The decimal numeral of `n`.
pub fn natural_to_string(n: u64) -> (out: String)
    ensures
        out@ == natural_text(n as nat),
    decreases n,
{
    if n < 10 {
        String::from_str(digit_str(n))
    } else {
        let mut out = natural_to_string(n / 10);
        out.append(digit_str(n % 10));
        assert(out@ =~= natural_text(n as nat));
        out
    }
}

/// The decimal numeral of `i`.
pub fn integer_to_string(i: i64) -> (out: String)
    ensures
        out@ == integer_text(i as int),
{
    if i < 0 {
        let magnitude: u64 = (-(i + 1)) as u64 + 1;
        let mut out = String::from_str("-");
        let digits = natural_to_string(magnitude);
        out.append(digits.as_str());
        proof {
            reveal_strlit("-");
            assert(out@ =~= integer_text(i as int));
        }
        out
    } else {
        natural_to_string(i as u64)
    }
}

/// Whether two string slices hold the same text.
pub fn str_eq(a: &str, b: &str) -> (r: bool)
    ensures
        r == (a@ == b@),
{
    let x = String::from_str(a);
    let y = String::from_str(b);
    x == y
}

/// Whether `s` begins with `prefix`.
pub fn starts_with(s: &str, prefix: &str) -> (r: bool)
    ensures
        r == prefix@.is_prefix_of(s@),
{
    let n = prefix.unicode_len();
    if n > s.unicode_len() {
        return false;
    }
    let mut i: usize = 0;
    while i < n
        invariant
            i <= n,
            n == prefix@.len(),
            n <= s@.len(),
            forall|j: int| 0 <= j < i ==> prefix@[j] == s@[j],
        decreases n - i,
    {
        if prefix.get_char(i) != s.get_char(i) {
            assert(prefix@[i as int] != s@.subrange(0, n as int)[i as int]);
            return false;
        }
        i += 1;
    }
    assert(prefix@ =~= s@.subrange(0, n as int));
    true
}

/// The part of `s` that follows its last `c`.
pub fn text_after_last<'a>(s: &'a str, c: char) -> (out: &'a str)
    ensures
        out@ == after_last(s@, c),
{
    let n = s.unicode_len();
    let mut start: usize = 0;
    let mut i: usize = 0;
    while i < n
        invariant
            i <= n,
            n == s@.len(),
            start == last_index_of(s@.take(i as int), c) + 1,
            start <= i,
        decreases n - i,
    {
        proof {
            assert(s@.take(i as int + 1).drop_last() =~= s@.take(i as int));
        }
        if s.get_char(i) == c {
            start = i + 1;
        }
        i += 1;
    }
    proof {
        assert(s@.take(n as int) =~= s@);
    }
    s.substring_char(start, n)
}

/// The index of the first line feed in `s`; `s.len()` where it holds none.
pub open spec fn first_newline(s: Seq<char>) -> int
    decreases s.len(),
{
    if s.len() == 0 {
        0
    } else if s[0] == '\n' {
        0
    } else {
        1 + first_newline(s.drop_first())
    }
}

/// `line` without a carriage return at its end.
pub open spec fn strip_cr(line: Seq<char>) -> Seq<char> {
    if line.len() > 0 && line.last() == '\r' {
        line.drop_last()
    } else {
        line
    }
}

/// The lines of `s`. A line ends with a line feed, or with a carriage
/// return and a line feed; neither belongs to the line. What follows the
/// last line feed is a line unless it is empty.
pub open spec fn lines_of(s: Seq<char>) -> Seq<Seq<char>>
    decreases s.len(),
{
    if s.len() == 0 {
        Seq::empty()
    } else {
        let k = first_newline(s);
        if 0 <= k < s.len() {
            seq![strip_cr(s.take(k))] + lines_of(s.skip(k + 1))
        } else {
            seq![s]
        }
    }
}

/// `s` without its first member; `s` itself where it is empty.
pub open spec fn tail<T>(s: Seq<T>) -> Seq<T> {
    if s.len() == 0 {
        s
    } else {
        s.drop_first()
    }
}

/// Where no line feed stands before `k`, and `k` is the end of `s` or the
/// place of a line feed, `k` is where the first line feed is.
pub proof fn lemma_first_newline(s: Seq<char>, k: int)
    requires
        0 <= k <= s.len(),
        forall|j: int| 0 <= j < k ==> s[j] != '\n',
        k < s.len() ==> s[k] == '\n',
    ensures
        first_newline(s) == k,
    decreases s.len(),
{
    if s.len() > 0 && k > 0 {
        lemma_first_newline(s.drop_first(), k - 1);
    }
}

/// Splits `s` into its lines.
pub fn split_lines(s: &str) -> (out: Vec<String>)
    ensures
        views(out@) == lines_of(s@),
{
    let n = s.unicode_len();
    let mut out: Vec<String> = Vec::new();
    let mut start: usize = 0;
    let mut i: usize = 0;
    assert(s@.skip(0) =~= s@);
    assert(views(out@) + lines_of(s@) =~= lines_of(s@));
    while i < n
        invariant
            start <= i <= n,
            n == s@.len(),
            lines_of(s@) == views(out@) + lines_of(s@.skip(start as int)),
            forall|j: int| start <= j < i ==> s@[j] != '\n',
        decreases n - i,
    {
        if s.get_char(i) == '\n' {
            let ghost rest = s@.skip(start as int);
            proof {
                lemma_first_newline(rest, i - start);
                assert(rest.take(i - start) =~= s@.subrange(start as int, i as int));
                assert(rest.skip(i - start + 1) =~= s@.skip(i as int + 1));
            }
            let mut end = i;
            if end > start && s.get_char(end - 1) == '\r' {
                end = end - 1;
            }
            let line = String::from_str(s.substring_char(start, end));
            proof {
                let whole = s@.subrange(start as int, i as int);
                assert(line@ =~= strip_cr(whole));
                lemma_views_push(out@, line);
                assert(views(out@).push(line@) + lines_of(s@.skip(i as int + 1)) =~= views(out@) + (
                seq![line@] + lines_of(s@.skip(i as int + 1))));
            }
            out.push(line);
            start = i + 1;
        }
        i += 1;
    }
    if start < n {
        let line = String::from_str(s.substring_char(start, n));
        proof {
            let rest = s@.skip(start as int);
            lemma_first_newline(rest, n - start);
            assert(line@ =~= rest);
            lemma_views_push(out@, line);
            assert(views(out@).push(line@) =~= views(out@) + seq![rest]);
        }
        out.push(line);
    } else {
        assert(views(out@) + Seq::<Seq<char>>::empty() =~= views(out@));
    }
    out
}

/// Whether one of the first `n` strings of `v`, or of all where there are
/// fewer, holds the text of `s`.
pub fn contains_text(v: &Vec<String>, n: usize, s: &str) -> (r: bool)
    ensures
        r == views(v@).take(
            if n <= v.len() {
                n as int
            } else {
                v.len() as int
            },
        ).contains(s@),
{
    let limit = if n <= v.len() {
        n
    } else {
        v.len()
    };
    let mut i: usize = 0;
    while i < limit
        invariant
            i <= limit <= v.len(),
            limit == if n <= v.len() {
                n
            } else {
                v.len()
            },
            forall|j: int| 0 <= j < i ==> views(v@)[j] != s@,
        decreases limit - i,
    {
        if str_eq(v[i].as_str(), s) {
            assert(views(v@).take(limit as int)[i as int] == s@);
            return true;
        }
        i += 1;
    }
    false
}

/// The position of the last `name` in `names`; -1 where there is none.
pub open spec fn last_position_of(names: Seq<Seq<char>>, name: Seq<char>) -> int
    decreases names.len(),
{
    if names.len() == 0 {
        -1
    } else if names.last() == name {
        names.len() - 1
    } else {
        last_position_of(names.drop_last(), name)
    }
}

/// The position of the last string of `names` that holds `name`.
pub fn last_position(names: &Vec<String>, name: &str) -> (r: Option<usize>)
    ensures
        match r {
            Some(i) => i == last_position_of(views(names@), name@),
            None => last_position_of(views(names@), name@) == -1,
        },
{
    let ghost all = views(names@);
    let mut i: usize = names.len();
    assert(all.take(i as int) =~= all);
    while i > 0
        invariant
            i <= names.len(),
            all == views(names@),
            last_position_of(all, name@) == last_position_of(all.take(i as int), name@),
        decreases i,
    {
        proof {
            assert(all.take(i as int).drop_last() =~= all.take(i as int - 1));
            assert(all.take(i as int).last() == names@[i as int - 1]@);
        }
        i -= 1;
        if str_eq(names[i].as_str(), name) {
            return Some(i);
        }
    }
    None
}

/// The name of `key` as a part of `owner`: the two with a dot between
/// them.
pub open spec fn qualified(owner: Seq<char>, key: Seq<char>) -> Seq<char> {
    owner + "."@ + key
}

/// The name of `key` as a part of `owner`.
pub fn qualified_name(owner: &str, key: &str) -> (out: String)
    ensures
        out@ == qualified(owner@, key@),
{
    let mut out = String::from_str(owner);
    out.append(".");
    out.append(key);
    out
}

} // verus!
