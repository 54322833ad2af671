use vstd::prelude::*;

verus! {

/// Number of occurrences of `c` in `s`.
pub open spec fn count_byte(s: Seq<u8>, c: u8) -> int
    decreases s.len(),
{
    if s.len() == 0 {
        0
    } else {
        count_byte(s.drop_last(), c) + if s.last() == c {
            1int
        } else {
            0int
        }
    }
}

pub proof fn lemma_count_byte_nonneg(s: Seq<u8>, c: u8)
    ensures
        count_byte(s, c) >= 0,
    decreases s.len(),
{
    if s.len() > 0 {
        lemma_count_byte_nonneg(s.drop_last(), c);
    }
}

pub proof fn lemma_count_byte_append(x: Seq<u8>, y: Seq<u8>, c: u8)
    ensures
        count_byte(x + y, c) == count_byte(x, c) + count_byte(y, c),
    decreases y.len(),
{
    if y.len() == 0 {
        assert(x + y =~= x);
    } else {
        lemma_count_byte_append(x, y.drop_last(), c);
        assert((x + y).drop_last() =~= x + y.drop_last());
        assert((x + y).last() == y.last());
    }
}

pub proof fn lemma_count_byte_zero(s: Seq<u8>, c: u8)
    ensures
        (count_byte(s, c) == 0) <==> (forall|i: int| 0 <= i < s.len() ==> s[i] != c),
    decreases s.len(),
{
    if s.len() > 0 {
        lemma_count_byte_zero(s.drop_last(), c);
        lemma_count_byte_nonneg(s.drop_last(), c);
        assert(forall|i: int| 0 <= i < s.len() - 1 ==> s.drop_last()[i] == s[i]);
    }
}

/// Byte-vector equality, decided elementwise.
pub fn bytes_eq(a: &Vec<u8>, b: &Vec<u8>) -> (r: bool)
    ensures
        r == (a@ == b@),
{
    if a.len() != b.len() {
        return false;
    }
    let mut i: usize = 0;
    while i < a.len()
        invariant
            i <= a.len(),
            a.len() == b.len(),
            forall|j: int| 0 <= j < i ==> a@[j] == b@[j],
        decreases a.len() - i,
    {
        if a[i] != b[i] {
            return false;
        }
        i += 1;
    }
    proof {
        assert(a@ =~= b@);
    }
    true
}

/// Copy of `s[from..to]`.
pub fn copy_range(s: &Vec<u8>, from: usize, to: usize) -> (r: Vec<u8>)
    requires
        from <= to <= s.len(),
    ensures
        r@ == s@.subrange(from as int, to as int),
{
    let mut r: Vec<u8> = Vec::new();
    let mut i: usize = from;
    while i < to
        invariant
            from <= i <= to <= s.len(),
            r@ =~= s@.subrange(from as int, i as int),
        decreases to - i,
    {
        r.push(s[i]);
        i += 1;
        proof {
            assert(r@ =~= s@.subrange(from as int, i as int));
        }
    }
    proof {
        assert(r@ =~= s@.subrange(from as int, to as int));
    }
    r
}

/// Splits `s` at its single occurrence of `sep`. Returns `None` unless `sep`
/// occurs exactly once.
pub fn split_once_byte(s: &Vec<u8>, sep: u8) -> (r: Option<(Vec<u8>, Vec<u8>)>)
    ensures
        match r {
            Some(parts) => {
                &&& s@ == parts.0@ + seq![sep] + parts.1@
                &&& !parts.0@.contains(sep)
                &&& !parts.1@.contains(sep)
                &&& count_byte(s@, sep) == 1
            },
            None => count_byte(s@, sep) != 1,
        },
{
    let mut i: usize = 0;
    let mut count: usize = 0;
    let mut first: usize = 0;
    while i < s.len()
        invariant
            i <= s.len(),
            count <= i,
            count as int == count_byte(s@.take(i as int), sep),
            count > 0 ==> first < i && s@[first as int] == sep && count_byte(
                s@.take(first as int),
                sep,
            ) == 0,
        decreases s.len() - i,
    {
        proof {
            assert(s@.take(i as int + 1).drop_last() =~= s@.take(i as int));
            assert(s@.take(i as int + 1).last() == s@[i as int]);
        }
        if s[i] == sep {
            if count == 0 {
                first = i;
            }
            count += 1;
        }
        i += 1;
    }
    proof {
        assert(s@.take(s@.len() as int) =~= s@);
    }
    if count != 1 {
        return None;
    }
    let a = copy_range(s, 0, first);
    let b = copy_range(s, first + 1, s.len());
    proof {
        assert(s@ =~= a@ + seq![sep] + b@);
        lemma_count_byte_zero(a@, sep);
        assert(s@.take(first as int + 1) =~= s@.take(first as int).push(sep));
        assert(s@.take(first as int + 1).drop_last() =~= s@.take(first as int));
        assert(count_byte(s@.take(first as int + 1), sep) == 1);
        assert(s@ =~= s@.take(first as int + 1) + b@);
        lemma_count_byte_append(s@.take(first as int + 1), b@, sep);
        assert(count_byte(b@, sep) == 0);
        lemma_count_byte_zero(b@, sep);
    }
    Some((a, b))
}

/// Index of the separator in a string that contains one.
pub open spec fn sep_index(s: Seq<u8>, c: u8) -> int {
    choose|i: int| 0 <= i < s.len() && s[i] == c
}

/// What stands before the lone separator.
pub open spec fn before_sep(s: Seq<u8>, c: u8) -> Seq<u8> {
    s.take(sep_index(s, c))
}

/// What stands after the lone separator.
pub open spec fn after_sep(s: Seq<u8>, c: u8) -> Seq<u8> {
    s.skip(sep_index(s, c) + 1)
}

/// A string that decomposes around a lone separator does so uniquely, and
/// `sep_index` finds that decomposition.
pub proof fn lemma_split_parts(s: Seq<u8>, a: Seq<u8>, b: Seq<u8>, c: u8)
    requires
        s == a + seq![c] + b,
        !a.contains(c),
        !b.contains(c),
    ensures
        sep_index(s, c) == a.len(),
        before_sep(s, c) == a,
        after_sep(s, c) == b,
        count_byte(s, c) == 1,
{
    lemma_count_byte_zero(a, c);
    lemma_count_byte_zero(b, c);
    lemma_count_byte_append(a, seq![c], c);
    lemma_count_byte_append(a + seq![c], b, c);
    assert(count_byte(seq![c], c) == 1) by {
        assert(count_byte(Seq::<u8>::empty(), c) == 0);
        assert(seq![c].drop_last() =~= Seq::<u8>::empty());
        assert(seq![c].last() == c);
    }
    assert(s + Seq::<u8>::empty() =~= (a + seq![c]) + b);
    assert(s =~= s + Seq::<u8>::empty());
    assert(s[a.len() as int] == c);
    let i = sep_index(s, c);
    assert(0 <= i < s.len() && s[i] == c);
    if i < a.len() {
        assert(s[i] == a[i]);
        assert(a.contains(c));
    }
    if i > a.len() {
        assert(s[i] == b[i - a.len() - 1]);
        assert(b.contains(c));
    }
    assert(before_sep(s, c) =~= a);
    assert(after_sep(s, c) =~= b);
}

/// Appends all of `src` to `dst`.
pub fn append_bytes(dst: &mut Vec<u8>, src: &Vec<u8>)
    ensures
        final(dst)@ == old(dst)@ + src@,
{
    let mut i: usize = 0;
    while i < src.len()
        invariant
            i <= src.len(),
            dst@ =~= old(dst)@ + src@.take(i as int),
        decreases src.len() - i,
    {
        dst.push(src[i]);
        i += 1;
        proof {
            assert(dst@ =~= old(dst)@ + src@.take(i as int));
        }
    }
    proof {
        assert(dst@ =~= old(dst)@ + src@);
    }
}

/// Decimal digits of `n`, most significant first.
pub open spec fn dec_digits(n: nat) -> Seq<u8>
    decreases n,
{
    if n < 10 {
        seq![(48 + n) as u8]
    } else {
        dec_digits(n / 10) + seq![(48 + n % 10) as u8]
    }
}

/// Renders `n` in decimal ASCII.
pub fn format_u64(n: u64) -> (r: Vec<u8>)
    ensures
        r@ == dec_digits(n as nat),
    decreases n,
{
    if n < 10 {
        let mut r: Vec<u8> = Vec::new();
        r.push((48 + n) as u8);
        proof {
            assert(r@ =~= dec_digits(n as nat));
        }
        r
    } else {
        let mut r = format_u64(n / 10);
        r.push((48 + n % 10) as u8);
        proof {
            assert(r@ =~= dec_digits(n as nat));
        }
        r
    }
}

} // verus!
