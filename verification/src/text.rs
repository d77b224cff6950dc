use vstd::prelude::*;

verus! {

/// The whitespace characters trimmed from the end of a listing body: ASCII
/// space, tab, carriage return, newline.
pub open spec fn is_space_char(c: char) -> bool {
    c == ' ' || c == '\t' || c == '\r' || c == '\n'
}

/// `s` with its trailing whitespace removed.
pub open spec fn spec_trim_end(s: Seq<char>) -> Seq<char>
    decreases s.len(),
{
    if s.len() > 0 && is_space_char(s.last()) {
        spec_trim_end(s.drop_last())
    } else {
        s
    }
}

/// The lines of `s`, split at each newline: one line more than there are
/// newlines, in order, the separators dropped.
pub open spec fn spec_lines(s: Seq<char>) -> Seq<Seq<char>>
    decreases s.len(),
{
    if s.len() == 0 {
        seq![Seq::<char>::empty()]
    } else {
        let rest = spec_lines(s.drop_last());
        if s.last() == '\n' {
            rest.push(Seq::<char>::empty())
        } else {
            rest.update(rest.len() - 1, rest.last().push(s.last()))
        }
    }
}

/// The views of a sequence of strings.
pub open spec fn line_views(v: Seq<String>) -> Seq<Seq<char>> {
    v.map_values(|l: String| l@)
}

fn is_space_exec(c: char) -> (r: bool)
    ensures
        r == is_space_char(c),
{
    c == ' ' || c == '\t' || c == '\r' || c == '\n'
}

/// `s` with trailing whitespace removed.
pub fn trim_end<'a>(s: &'a str) -> (r: &'a str)
    ensures
        r@ == spec_trim_end(s@),
{
    let mut end: usize = s.unicode_len();
    proof {
        assert(s@.subrange(0, end as int) =~= s@);
    }
    loop
        invariant
            end <= s@.len(),
            spec_trim_end(s@) == spec_trim_end(s@.subrange(0, end as int)),
        ensures
            end <= s@.len(),
            spec_trim_end(s@) == spec_trim_end(s@.subrange(0, end as int)),
            end == 0 || !is_space_char(s@[end - 1]),
        decreases end,
    {
        if end == 0 {
            break;
        }
        let c = s.get_char(end - 1);
        if !is_space_exec(c) {
            break;
        }
        proof {
            assert(s@.subrange(0, end as int).drop_last() =~= s@.subrange(0, end - 1));
        }
        end = end - 1;
    }
    let r = s.substring_char(0, end);
    proof {
        let sub = s@.subrange(0, end as int);
        if end > 0 {
            assert(sub.last() == s@[end - 1]);
        }
        assert(spec_trim_end(sub) == sub);
    }
    r
}

/// The lines of `s`, split at `'\n'`.
pub fn split_lines(s: &str) -> (r: Vec<String>)
    ensures
        line_views(r@) == spec_lines(s@),
{
    let n = s.unicode_len();
    let mut out: Vec<String> = Vec::new();
    let mut start: usize = 0;
    let mut i: usize = 0;
    proof {
        assert(s@.subrange(0, 0) =~= Seq::<char>::empty());
        assert(line_views(out@).push(s@.subrange(0, 0)) =~~= spec_lines(s@.subrange(0, 0)));
    }
    while i < n
        invariant
            start <= i <= n,
            n == s@.len(),
            spec_lines(s@.subrange(0, i as int)) == line_views(out@).push(
                s@.subrange(start as int, i as int),
            ),
        decreases n - i,
    {
        let ghost prev = spec_lines(s@.subrange(0, i as int));
        proof {
            assert(s@.subrange(0, i + 1).drop_last() =~= s@.subrange(0, i as int));
            assert(s@.subrange(0, i + 1).last() == s@[i as int]);
        }
        let c = s.get_char(i);
        if c == '\n' {
            let line = s.substring_char(start, i).to_owned();
            let ghost old_out = out@;
            out.push(line);
            proof {
                assert(line_views(out@) =~~= line_views(old_out).push(line@));
                assert(s@.subrange(i + 1, i + 1) =~= Seq::<char>::empty());
                assert(spec_lines(s@.subrange(0, i + 1)) =~~= line_views(out@).push(
                    s@.subrange(i + 1, i + 1),
                ));
            }
            start = i + 1;
        } else {
            proof {
                assert(prev.last() == s@.subrange(start as int, i as int));
                assert(prev.len() == line_views(out@).len() + 1);
                assert(s@.subrange(start as int, i as int).push(s@[i as int]) =~= s@.subrange(
                    start as int,
                    i + 1,
                ));
                assert(spec_lines(s@.subrange(0, i + 1)) =~~= line_views(out@).push(
                    s@.subrange(start as int, i + 1),
                ));
            }
        }
        i = i + 1;
    }
    let line = s.substring_char(start, n).to_owned();
    let ghost old_out = out@;
    out.push(line);
    proof {
        assert(s@.subrange(0, n as int) =~= s@);
        assert(line_views(out@) =~~= line_views(old_out).push(line@));
        assert(line_views(out@) =~~= spec_lines(s@));
    }
    out
}

/// Whether every character of `s` is an ASCII digit.
pub open spec fn all_digits(s: Seq<char>) -> bool {
    forall|i: int| 0 <= i < s.len() ==> 48 <= (#[trigger] s[i]) as int <= 57
}

/// The number a sequence of ASCII digits denotes.
pub open spec fn dec_value(s: Seq<char>) -> int
    decreases s.len(),
{
    if s.len() == 0 {
        0
    } else {
        dec_value(s.drop_last()) * 10 + (s.last() as int - 48)
    }
}

/// The decimal digit characters of `n`, most significant first.
pub open spec fn spec_dec_digits(n: nat) -> Seq<char>
    decreases n,
{
    if n < 10 {
        seq![(48 + n) as char]
    } else {
        spec_dec_digits(n / 10).push((48 + n % 10) as char)
    }
}

fn digit_str(d: u32) -> (r: &'static str)
    requires
        d < 10,
    ensures
        r@.len() == 1,
        r@[0] as int == 48 + d,
        r@[0] == ((48 + d) as char),
{
    proof {
        reveal_strlit("0");
        reveal_strlit("1");
        reveal_strlit("2");
        reveal_strlit("3");
        reveal_strlit("4");
        reveal_strlit("5");
        reveal_strlit("6");
        reveal_strlit("7");
        reveal_strlit("8");
        reveal_strlit("9");
    }
    match d {
        0 => "0",
        1 => "1",
        2 => "2",
        3 => "3",
        4 => "4",
        5 => "5",
        6 => "6",
        7 => "7",
        8 => "8",
        _ => "9",
    }
}

/// The decimal form of `n`: all digits, no leading zero unless `n` itself is
/// a single digit, and denoting exactly `n`.
pub fn u32_to_dec(n: u32) -> (r: String)
    ensures
        r@ == spec_dec_digits(n as nat),
        all_digits(r@),
        dec_value(r@) == n as int,
        r@.len() >= 1,
        r@[0] as int == 48 ==> r@.len() == 1,
    decreases n,
{
    if n < 10 {
        let d = digit_str(n);
        let r = d.to_owned();
        proof {
            assert(r@.drop_last() =~= Seq::<char>::empty());
            assert(dec_value(r@.drop_last()) == 0);
            assert(r@.last() as int == 48 + n);
            assert(dec_value(r@) == dec_value(r@.drop_last()) * 10 + (r@.last() as int - 48));
            assert(r@ =~= spec_dec_digits(n as nat));
        }
        r
    } else {
        let prefix = u32_to_dec(n / 10);
        let d = digit_str(n % 10);
        let r = prefix.concat(d);
        proof {
            assert(r@.drop_last() =~= prefix@);
            assert(r@.last() == d@[0]);
            assert(n / 10 * 10 + n % 10 == n) by (nonlinear_arith);
            if prefix@.len() == 1 {
                assert(dec_value(prefix@.drop_last()) == 0);
            }
            assert(r@[0] == prefix@[0]);
            assert(r@ =~= spec_dec_digits(n as nat));
        }
        r
    }
}

} // verus!
