use vstd::prelude::*;

verus! {

pub open spec fn is_digit(c: char) -> bool {
    '0' <= c && c <= '9'
}

/// The value of a string of decimal digits.
pub open spec fn digits_value(s: Seq<char>) -> nat
    decreases s.len(),
{
    if s.len() == 0 {
        0
    } else {
        digits_value(s.drop_last()) * 10 + (s.last() as nat - '0' as nat) as nat
    }
}

/// One part of a dotted-quad address: one to three digits, no leading zero
/// unless the part is `0`, and a value of at most 255.
pub open spec fn is_octet(s: Seq<char>) -> bool {
    &&& 1 <= s.len() <= 3
    &&& forall|i: int| 0 <= i < s.len() ==> is_digit(#[trigger] s[i])
    &&& (s.len() == 1 || s[0] != '0')
    &&& digits_value(s) <= 255
}

/// An IPv4 address in dotted-quad form: four octets separated by dots.
pub open spec fn is_ipv4(s: Seq<char>) -> bool {
    exists|i: int, j: int, k: int|
        0 <= i < j < k < s.len() && s[i] == '.' && s[j] == '.' && s[k] == '.' && #[trigger] ipv4_split(
            s,
            i,
            j,
            k,
        )
}

/// The four parts between the dots at `i`, `j` and `k` are octets.
pub open spec fn ipv4_split(s: Seq<char>, i: int, j: int, k: int) -> bool {
    &&& is_octet(s.subrange(0, i))
    &&& is_octet(s.subrange(i + 1, j))
    &&& is_octet(s.subrange(j + 1, k))
    &&& is_octet(s.subrange(k + 1, s.len() as int))
}

/// Whether the characters `from..to` of a string form an octet.
fn octet_at(s: &str, from: usize, to: usize) -> (r: bool)
    requires
        from <= to <= s@.len(),
    ensures
        r == is_octet(s@.subrange(from as int, to as int)),
{
    let ghost part = s@.subrange(from as int, to as int);
    let n = to - from;
    if n < 1 || n > 3 {
        return false;
    }
    let mut value: u32 = 0;
    let mut i: usize = 0;
    while i < n
        invariant
            n == part.len(),
            to == from + n,
            1 <= n <= 3,
            from + n <= s@.len(),
            part == s@.subrange(from as int, to as int),
            i <= n,
            forall|t: int| 0 <= t < i ==> is_digit(#[trigger] part[t]),
            value == digits_value(part.take(i as int)),
            value < 1000,
            i == 0 ==> value == 0,
            i == 1 ==> value < 10,
            i == 2 ==> value < 100,
        decreases n - i,
    {
        let c = s.get_char(from + i);
        assert(c == part[i as int]);
        if !('0' <= c && c <= '9') {
            return false;
        }
        assert(part.take(i + 1).drop_last() =~= part.take(i as int));
        value = value * 10 + (c as u32 - '0' as u32);
        i = i + 1;
    }
    assert(part.take(n as int) =~= part);
    let first = s.get_char(from);
    (n == 1 || first != '0') && value <= 255
}

/// The position of the first `.` at or after `from`, or the string's length.
fn next_dot(s: &str, from: usize) -> (r: usize)
    requires
        from <= s@.len(),
    ensures
        from <= r <= s@.len(),
        r < s@.len() ==> s@[r as int] == '.',
        forall|t: int| from <= t < r ==> s@[t] != '.',
{
    let len = s.unicode_len();
    let mut i = from;
    while i < len
        invariant
            len == s@.len(),
            from <= i <= len,
            forall|t: int| from <= t < i ==> s@[t] != '.',
        decreases len - i,
    {
        if s.get_char(i) == '.' {
            return i;
        }
        i = i + 1;
    }
    i
}

/// Whether a string is an IPv4 address in dotted-quad form.
pub fn parse_ipv4(s: &str) -> (r: bool)
    ensures
        r == is_ipv4(s@),
{
    let len = s.unicode_len();
    let i = next_dot(s, 0);
    if i >= len {
        proof { lemma_no_split(s@, i as int, len as int, len as int); }
        return false;
    }
    let j = next_dot(s, i + 1);
    if j >= len {
        proof { lemma_no_split(s@, i as int, j as int, len as int); }
        return false;
    }
    let k = next_dot(s, j + 1);
    if k >= len {
        proof { lemma_no_split(s@, i as int, j as int, k as int); }
        return false;
    }
    let r = octet_at(s, 0, i) && octet_at(s, i + 1, j) && octet_at(s, j + 1, k) && octet_at(
        s,
        k + 1,
        len,
    );
    proof {
        if r {
            assert(ipv4_split(s@, i as int, j as int, k as int));
        } else {
            lemma_no_split(s@, i as int, j as int, k as int);
        }
    }
    r
}

/// Octets hold no dot, so the dots of a dotted quad are the first three dots
/// of the string.
proof fn lemma_no_split(s: Seq<char>, i: int, j: int, k: int)
    requires
        0 <= i <= s.len(),
        0 <= j,
        0 <= k,
        i < s.len() ==> s[i] == '.',
        forall|t: int| 0 <= t < i ==> s[t] != '.',
        i < s.len() ==> i + 1 <= j <= s.len(),
        j < s.len() ==> s[j] == '.',
        i < s.len() ==> forall|t: int| i + 1 <= t < j ==> s[t] != '.',
        j < s.len() ==> j + 1 <= k <= s.len(),
        k < s.len() ==> s[k] == '.',
        j < s.len() ==> forall|t: int| j + 1 <= t < k ==> s[t] != '.',
        k < s.len() ==> !ipv4_split(s, i, j, k),
    ensures
        !is_ipv4(s),
{
    if is_ipv4(s) {
        let (a, b, c) = choose|a: int, b: int, c: int|
            0 <= a < b < c < s.len() && s[a] == '.' && s[b] == '.' && s[c] == '.'
                && #[trigger] ipv4_split(s, a, b, c);
        if i < a {
            assert(s.subrange(0, a)[i] == s[i]);
            assert(is_digit(s.subrange(0, a)[i]));
        }
        assert(i == a);
        if j < b {
            assert(s.subrange(a + 1, b)[j - a - 1] == s[j]);
            assert(is_digit(s.subrange(a + 1, b)[j - a - 1]));
        }
        assert(j == b);
        if k < c {
            assert(s.subrange(b + 1, c)[k - b - 1] == s[k]);
            assert(is_digit(s.subrange(b + 1, c)[k - b - 1]));
        }
        assert(k == c);
    }
}

} // verus!

verus! {

/// The pieces of a text between line feeds, in order; a text ending in a line
/// feed has an empty last piece.
pub open spec fn split_lines(s: Seq<char>) -> Seq<Seq<char>>
    decreases s.len(),
{
    if s.len() == 0 {
        seq![Seq::empty()]
    } else {
        let p = split_lines(s.drop_last());
        if s.last() == '\n' {
            p.push(Seq::empty())
        } else {
            p.update(p.len() - 1, p.last().push(s.last()))
        }
    }
}

/// A line without its carriage return, if it ends with one.
pub open spec fn strip_cr(l: Seq<char>) -> Seq<char> {
    if l.len() > 0 && l.last() == '\r' {
        l.drop_last()
    } else {
        l
    }
}

/// The lines of a text.
pub open spec fn body_lines(s: Seq<char>) -> Seq<Seq<char>> {
    split_lines(s).map_values(|l: Seq<char>| strip_cr(l))
}

proof fn lemma_split_lines_nonempty(s: Seq<char>)
    ensures
        split_lines(s).len() >= 1,
    decreases s.len(),
{
    if s.len() > 0 {
        lemma_split_lines_nonempty(s.drop_last());
    }
}

/// The first line of a response body that is an IPv4 address, if any.
pub fn first_ipv4_line(body: &str) -> (r: Option<String>)
    ensures
        r is Some ==> exists|m: int|
            0 <= m < body_lines(body@).len() && body_lines(body@)[m] == r->0@ && is_ipv4(r->0@)
                && forall|p: int| 0 <= p < m ==> !is_ipv4(#[trigger] body_lines(body@)[p]),
        r is None ==> forall|m: int|
            0 <= m < body_lines(body@).len() ==> !is_ipv4(#[trigger] body_lines(body@)[m]),
{
    let len = body.unicode_len();
    let mut start: usize = 0;
    let mut i: usize = 0;
    let mut done: Ghost<nat> = Ghost(0);
    while i < len
        invariant
            len == body@.len(),
            start <= i <= len,
            split_lines(body@.take(i as int)).len() == done@ + 1,
            split_lines(body@.take(i as int)).last() == body@.subrange(start as int, i as int),
            forall|p: int|
                0 <= p < done@ ==> !is_ipv4(strip_cr(#[trigger] split_lines(body@.take(i as int))[p])),
        decreases len - i,
    {
        let ghost before = split_lines(body@.take(i as int));
        proof {
            assert(body@.take(i + 1).drop_last() =~= body@.take(i as int));
            lemma_split_lines_nonempty(body@.take(i as int));
        }
        let c = body.get_char(i);
        if c == '\n' {
            let mut end = i;
            if end > start && body.get_char(end - 1) == '\r' {
                end = end - 1;
            }
            let line = body.substring_char(start, end);
            assert(line@ == strip_cr(before.last())) by {
                if i > start && body@[i - 1] == '\r' {
                    assert(before.last().drop_last() =~= body@.subrange(start as int, end as int));
                } else {
                    assert(before.last() =~= body@.subrange(start as int, end as int));
                }
            }
            if parse_ipv4(line) {
                proof {
                    lemma_prefix_lines(body@, i as int, done@);
                    assert(body_lines(body@)[done@ as int] == line@);
                }
                return Some(line.to_string());
            }
            start = i + 1;
            done = Ghost(done@ + 1);
            proof {
                let after = split_lines(body@.take(i + 1));
                assert(after == before.push(Seq::empty()));
                assert(body@.subrange(start as int, i + 1) =~= Seq::<char>::empty());
                assert forall|p: int| 0 <= p < done@ implies !is_ipv4(strip_cr(#[trigger] after[p])) by {
                    if p < done@ - 1 {
                        assert(after[p] == before[p]);
                    }
                }
            }
        } else {
            proof {
                let after = split_lines(body@.take(i + 1));
                assert(after == before.update(before.len() - 1, before.last().push(c)));
                assert(body@.subrange(start as int, i + 1) =~= before.last().push(c));
                assert forall|p: int| 0 <= p < done@ implies !is_ipv4(strip_cr(#[trigger] after[p])) by {
                    assert(after[p] == before[p]);
                }
            }
        }
        i = i + 1;
    }
    proof {
        assert(body@.take(len as int) =~= body@);
    }
    let mut end = len;
    if end > start && body.get_char(end - 1) == '\r' {
        end = end - 1;
    }
    let line = body.substring_char(start, end);
    let ghost all = split_lines(body@);
    assert(line@ == strip_cr(all.last())) by {
        if len > start && body@[len - 1] == '\r' {
            assert(all.last().drop_last() =~= body@.subrange(start as int, end as int));
        } else {
            assert(all.last() =~= body@.subrange(start as int, end as int));
        }
    }
    if parse_ipv4(line) {
        assert(body_lines(body@)[done@ as int] == line@);
        return Some(line.to_string());
    }
    assert forall|m: int| 0 <= m < body_lines(body@).len() implies !is_ipv4(
        #[trigger] body_lines(body@)[m],
    ) by {
        assert(body_lines(body@)[m] == strip_cr(all[m]));
    }
    None
}

/// The lines that a line feed at `i` completes stay the first lines of the
/// whole text.
proof fn lemma_prefix_lines(s: Seq<char>, i: int, n: nat)
    requires
        0 <= i < s.len(),
        s[i] == '\n',
        split_lines(s.take(i)).len() == n + 1,
    ensures
        n + 2 <= split_lines(s).len(),
        split_lines(s)[n as int] == split_lines(s.take(i)).last(),
        forall|p: int| 0 <= p <= n ==> split_lines(s)[p] == split_lines(s.take(i))[p],
    decreases s.len(),
{
    lemma_split_lines_nonempty(s.drop_last());
    if i == s.len() - 1 {
        assert(s.drop_last() =~= s.take(i));
    } else {
        assert(s.drop_last().take(i) =~= s.take(i));
        lemma_prefix_lines(s.drop_last(), i, n);
    }
}

} // verus!
