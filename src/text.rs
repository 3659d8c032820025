use vstd::prelude::*;

verus! {

/// `c` is an ASCII decimal digit.
pub open spec fn is_digit(c: char) -> bool {
    48 <= (c as u32) && (c as u32) <= 57
}

/// Value of a decimal digit character.
pub open spec fn digit_value(c: char) -> nat {
    ((c as u32) - 48) as nat
}

/// Value of a digit string read in base ten, most significant digit first.
pub open spec fn digits_value(s: Seq<char>) -> nat
    decreases s.len(),
{
    if s.len() == 0 {
        0
    } else {
        digits_value(s.drop_last()) * 10 + digit_value(s.last())
    }
}

/// `s` is a non-empty run of decimal digits.
pub open spec fn all_digits(s: Seq<char>) -> bool {
    s.len() > 0 && forall|i: int| 0 <= i < s.len() ==> #[trigger] is_digit(s[i])
}

/// The unsigned number written in `s`, if `s` is a run of digits whose value is at most `max`.
pub open spec fn parse_uint(s: Seq<char>, max: nat) -> Option<nat> {
    if all_digits(s) && digits_value(s) <= max {
        Some(digits_value(s))
    } else {
        None
    }
}

/// The number of tenths written in `s`: either whole digits, or whole digits, a point
/// and one fractional digit; `None` for any other text or a count above `u32::MAX`.
pub open spec fn parse_tenths(s: Seq<char>) -> Option<nat> {
    if s.len() >= 3 && s[s.len() - 2] == '.' {
        let whole = s.subrange(0, s.len() - 2);
        if all_digits(whole) && is_digit(s.last()) && digits_value(whole) * 10 + digit_value(
            s.last(),
        ) <= u32::MAX {
            Some(digits_value(whole) * 10 + digit_value(s.last()))
        } else {
            None
        }
    } else if all_digits(s) && digits_value(s) * 10 <= u32::MAX {
        Some(digits_value(s) * 10)
    } else {
        None
    }
}

/// `s` without its trailing spaces.
pub open spec fn trim_padding(s: Seq<char>) -> Seq<char>
    decreases s.len(),
{
    if s.len() > 0 && s.last() == ' ' {
        trim_padding(s.drop_last())
    } else {
        s
    }
}

/// Every character past the trimmed text is a space.
pub proof fn lemma_trim_padding_spaces(s: Seq<char>, i: int)
    requires
        trim_padding(s).len() <= i < s.len(),
    ensures
        s[i] == ' ',
    decreases s.len(),
{
    if s.len() > 0 && s.last() == ' ' && i < s.len() - 1 {
        lemma_trim_padding_spaces(s.drop_last(), i);
    }
}

/// Comma splitting read left to right: the fields already closed by a comma,
/// and the field still open.
pub open spec fn split_acc(s: Seq<char>) -> (Seq<Seq<char>>, Seq<char>)
    decreases s.len(),
{
    if s.len() == 0 {
        (Seq::empty(), Seq::empty())
    } else {
        let (done, cur) = split_acc(s.drop_last());
        if s.last() == ',' {
            (done.push(cur), Seq::empty())
        } else {
            (done, cur.push(s.last()))
        }
    }
}

/// The comma-separated fields of `s`; the empty text has one empty field.
pub open spec fn fields(s: Seq<char>) -> Seq<Seq<char>> {
    split_acc(s).0.push(split_acc(s).1)
}

proof fn lemma_digits_value_prefix(s: Seq<char>, k: int)
    requires
        0 <= k <= s.len(),
    ensures
        digits_value(s.take(k)) <= digits_value(s),
    decreases s.len(),
{
    if k < s.len() {
        lemma_digits_value_prefix(s.drop_last(), k);
        assert(s.drop_last().take(k) =~= s.take(k));
    } else {
        assert(s.take(k) =~= s);
    }
}

/// Reads the first `len` characters of `s` as an unsigned number no larger than `max`.
pub fn parse_uint_prefix(s: &[char], len: usize, max: u32) -> (r: Option<u32>)
    requires
        len <= s@.len(),
    ensures
        r matches Some(v) ==> parse_uint(s@.take(len as int), max as nat) == Some(v as nat),
        r is None ==> parse_uint(s@.take(len as int), max as nat) is None,
{
    if len == 0 {
        return None;
    }
    let ghost t = s@.take(len as int);
    let mut v: u64 = 0;
    let mut i: usize = 0;
    while i < len
        invariant
            i <= len <= s@.len(),
            t == s@.take(len as int),
            forall|j: int| 0 <= j < i ==> #[trigger] is_digit(s@[j]),
            v == digits_value(s@.take(i as int)),
            v <= max,
        decreases len - i,
    {
        let d = s[i] as u32;
        if d < 48 || d > 57 {
            assert(!is_digit(t[i as int]));
            return None;
        }
        assert(s@.take(i + 1).drop_last() =~= s@.take(i as int));
        let nv = v * 10 + (d - 48) as u64;
        if nv > max as u64 {
            proof {
                assert(t.take(i + 1) =~= s@.take(i + 1));
                lemma_digits_value_prefix(t, i + 1);
            }
            return None;
        }
        v = nv;
        i = i + 1;
    }
    assert(s@.take(i as int) =~= t);
    Some(v as u32)
}

/// Reads the first `len` characters of `s` as a count of tenths (see `parse_tenths`).
pub fn parse_tenths_prefix(s: &[char], len: usize) -> (r: Option<u32>)
    requires
        len <= s@.len(),
    ensures
        r matches Some(v) ==> parse_tenths(s@.take(len as int)) == Some(v as nat),
        r is None ==> parse_tenths(s@.take(len as int)) is None,
{
    let ghost t = s@.take(len as int);
    if len >= 3 && s[len - 2] == '.' {
        assert(t.subrange(0, t.len() - 2) =~= s@.take(len - 2));
        let d = s[len - 1] as u32;
        if d < 48 || d > 57 {
            return None;
        }
        match parse_uint_prefix(s, len - 2, 429496729) {
            Some(w) => {
                let v = w as u64 * 10 + (d - 48) as u64;
                if v > 4294967295 {
                    None
                } else {
                    Some(v as u32)
                }
            },
            None => {
                proof {
                    if all_digits(t.subrange(0, t.len() - 2)) {
                        assert(digits_value(t.subrange(0, t.len() - 2)) > 429496729);
                    }
                }
                None
            },
        }
    } else {
        match parse_uint_prefix(s, len, 429496729) {
            Some(w) => Some(w * 10),
            None => None,
        }
    }
}

/// Length of `s` once trailing spaces are dropped.
pub fn trimmed_len(s: &[char]) -> (r: usize)
    ensures
        r <= s@.len(),
        s@.take(r as int) == trim_padding(s@),
{
    let mut end: usize = s.len();
    assert(s@.take(end as int) =~= s@);
    while end > 0 && s[end - 1] == ' '
        invariant
            end <= s@.len(),
            trim_padding(s@.take(end as int)) == trim_padding(s@),
        decreases end,
    {
        assert(s@.take(end as int).drop_last() =~= s@.take(end - 1));
        end = end - 1;
    }
    end
}

/// Splits `s` at every comma.
pub fn split_fields(s: &[char]) -> (r: Vec<Vec<char>>)
    ensures
        r.deep_view() == fields(s@),
{
    let mut done: Vec<Vec<char>> = Vec::new();
    let mut cur: Vec<char> = Vec::new();
    let mut i: usize = 0;
    assert(s@.take(0) =~= Seq::<char>::empty());
    while i < s.len()
        invariant
            i <= s@.len(),
            (done.deep_view(), cur@) == split_acc(s@.take(i as int)),
        decreases s@.len() - i,
    {
        assert(s@.take(i + 1).drop_last() =~= s@.take(i as int));
        let c = s[i];
        if c == ',' {
            let ghost d0 = done.deep_view();
            let closed = cur;
            assert(closed.deep_view() =~= closed@);
            done.push(closed);
            assert(done.deep_view() =~= d0.push(closed@));
            cur = Vec::new();
            assert(cur@ =~= Seq::<char>::empty());
        } else {
            cur.push(c);
        }
        i = i + 1;
    }
    assert(s@.take(i as int) =~= s@);
    let ghost d1 = done.deep_view();
    let last = cur;
    assert(last.deep_view() =~= last@);
    done.push(last);
    assert(done.deep_view() =~= d1.push(last@));
    done
}

} // verus!
