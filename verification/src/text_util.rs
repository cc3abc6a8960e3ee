use vstd::prelude::*;

use vstd::std_specs::iter::IteratorSpec;

verus! {

/// Display width in terminal cells of one character, as the Unicode
/// East-Asian-width tables give it.
pub uninterp spec fn char_width_of(c: char) -> nat;

/// Relies on unicode_width's `UnicodeWidthChar::width`: the width of a
/// character is a function of the character alone, is at most three cells
/// (the tables' maximum, taken only by KHMER SIGN BEYYAL), and is one cell
/// for every printable ASCII character; a control character (width `None`)
/// counts as zero cells here.
#[verifier::external_body]
pub fn char_width(c: char) -> (r: usize)
    ensures
        r as nat == char_width_of(c),
        r <= 3,
        ' ' <= c && c <= '~' ==> r == 1,
{
    unicode_width::UnicodeWidthChar::width(c).unwrap_or(0)
}

/// The characters of a string, in order.
pub fn str_chars(s: &str) -> (r: Vec<char>)
    ensures
        r@ == s@,
{
    broadcast use vstd::string::group_string_axioms;

    let mut out: Vec<char> = Vec::new();
    let mut it = s.chars();
    loop
        invariant
            it.obeys_prophetic_iter_laws(),
            it.decrease() is Some,
            out@ + it.remaining() == s@,
        decreases it.decrease()->0,
    {
        match it.next() {
            Option::Some(c) => {
                out.push(c);
                proof {
                    assert(out@ + it.remaining() =~= s@);
                }
            },
            Option::None => {
                proof {
                    assert(out@ =~= s@);
                }
                return out;
            },
        }
    }
}

/// Relies on FromIterator for String: the string holding these characters.
#[verifier::external_body]
pub fn chars_string(v: &Vec<char>) -> (r: String)
    ensures
        r@ == v@,
{
    v.iter().collect()
}

/// What str::to_lowercase returns, as a character sequence.
pub uninterp spec fn lower_of(s: Seq<char>) -> Seq<char>;

/// Relies on str::to_lowercase: the result depends on the characters alone,
/// and an empty string stays empty.
#[verifier::external_body]
pub fn lowercase_chars(s: &str) -> (r: Vec<char>)
    ensures
        r@ == lower_of(s@),
        s@.len() == 0 ==> r@.len() == 0,
{
    s.to_lowercase().chars().collect()
}

/// Total display width of a character sequence from position `i` on.
pub open spec fn width_from(s: Seq<char>, i: int) -> nat
    decreases s.len() - i,
{
    if i < 0 || i >= s.len() {
        0
    } else {
        char_width_of(s[i]) + width_from(s, i + 1)
    }
}

/// Total display width of a character sequence.
#[verifier::opaque]
pub open spec fn text_width(s: Seq<char>) -> nat {
    width_from(s, 0)
}

pub open spec fn repeat_char(c: char, n: int) -> Seq<char> {
    Seq::new(if n >= 0 {
        n as nat
    } else {
        0
    }, |i: int| c)
}

/// How many leading characters fit into `rem` cells, taking characters
/// greedily until the first that does not fit.
pub open spec fn fit_count(s: Seq<char>, rem: int) -> int
    decreases s.len(),
{
    if s.len() == 0 {
        0
    } else if char_width_of(s[0]) <= rem {
        1 + fit_count(s.drop_first(), rem - char_width_of(s[0]))
    } else {
        0
    }
}

/// The cells left over after taking characters greedily into `rem` cells.
pub open spec fn fit_left(s: Seq<char>, rem: int) -> int
    decreases s.len(),
{
    if s.len() == 0 {
        rem
    } else if char_width_of(s[0]) <= rem {
        fit_left(s.drop_first(), rem - char_width_of(s[0]))
    } else {
        rem
    }
}

/// The text fitted to exactly `target` cells: unchanged when it fits
/// exactly, padded with spaces when narrower, replaced by dots when the
/// target is degenerate, and otherwise truncated with a `...` ellipsis and
/// padded to the full width.
#[verifier::opaque]
pub open spec fn spec_term_text(s: Seq<char>, target: int) -> Seq<char> {
    let w = text_width(s) as int;
    if w == target {
        s
    } else if w < target {
        s + repeat_char(' ', target - w)
    } else if target < 4 {
        repeat_char('.', target)
    } else {
        let keep = fit_count(s, target - 3);
        let left = fit_left(s, target - 3);
        s.take(keep) + repeat_char('.', 3) + repeat_char(' ', left)
    }
}

/// Fit `text` to exactly `target` terminal cells.
pub fn term_text(text: String, target: usize) -> (r: String)
    requires
        text@.len() <= usize::MAX / 3,
    ensures
        r@ == spec_term_text(text@, target as int),
{
    let cs = str_chars(text.as_str());
    let out = fit_chars(cs, target);
    chars_string(&out)
}

/// Fit a character sequence to exactly `target` terminal cells.
pub fn fit_chars(cs: Vec<char>, target: usize) -> (r: Vec<char>)
    requires
        cs@.len() <= usize::MAX / 3,
    ensures
        r@ == spec_term_text(cs@, target as int),
{
    proof {
        reveal(spec_term_text);
        reveal(text_width);
    }
    let ghost s = cs@;
    let mut w: usize = 0;
    let mut i: usize = 0;
    while i < cs.len()
        invariant
            cs@ == s,
            0 <= i <= s.len(),
            s.len() <= usize::MAX / 3,
            w <= 3 * i,
            w + width_from(s, i as int) == width_from(s, 0),
        decreases s.len() - i,
    {
        let cw = char_width(cs[i]);
        w = w + cw;
        i = i + 1;
    }
    assert(w as nat == text_width(s));
    if w == target {
        cs
    } else if w < target {
        let mut out = cs;
        let mut k: usize = 0;
        while k < target - w
            invariant
                w < target,
                out@ == s + repeat_char(' ', k as int),
                k <= target - w,
            decreases target - w - k,
        {
            out.push(' ');
            proof {
                assert(out@ =~= s + repeat_char(' ', k + 1));
            }
            k = k + 1;
        }
        out
    } else if target < 4 {
        let mut out: Vec<char> = Vec::new();
        let mut k: usize = 0;
        while k < target
            invariant
                out@ == repeat_char('.', k as int),
                k <= target,
            decreases target - k,
        {
            out.push('.');
            proof {
                assert(out@ =~= repeat_char('.', k + 1));
            }
            k = k + 1;
        }
        proof {
            assert(out@ =~= spec_term_text(s, target as int));
        }
        out
    } else {
        let budget = target - 3;
        let mut keep: usize = 0;
        let mut rem: usize = budget;
        proof {
            assert(s.skip(0) =~= s);
        }
        loop
            invariant
                cs@ == s,
                0 <= keep <= s.len(),
                rem <= budget,
                fit_count(s, budget as int) == keep + fit_count(s.skip(keep as int), rem as int),
                fit_left(s, budget as int) == fit_left(s.skip(keep as int), rem as int),
            ensures
                keep <= s.len(),
                fit_count(s, budget as int) == keep,
                fit_left(s, budget as int) == rem,
            decreases s.len() - keep,
        {
            if keep >= cs.len() {
                proof {
                    assert(s.skip(keep as int) =~= Seq::<char>::empty());
                }
                break ;
            }
            let cw = char_width(cs[keep]);
            proof {
                assert(s.skip(keep as int)[0] == s[keep as int]);
            }
            if cw <= rem {
                proof {
                    assert(s.skip(keep as int).drop_first() =~= s.skip(keep as int + 1));
                }
                keep = keep + 1;
                rem = rem - cw;
            } else {
                break ;
            }
        }
        let mut out: Vec<char> = Vec::new();
        let mut k: usize = 0;
        while k < keep
            invariant
                cs@ == s,
                keep <= s.len(),
                out@ == s.take(k as int),
                k <= keep,
            decreases keep - k,
        {
            out.push(cs[k]);
            proof {
                assert(out@ =~= s.take(k + 1));
            }
            k = k + 1;
        }
        out.push('.');
        out.push('.');
        out.push('.');
        let ghost mid = out@;
        proof {
            assert(mid =~= s.take(keep as int) + repeat_char('.', 3));
        }
        let mut k2: usize = 0;
        while k2 < rem
            invariant
                out@ == mid + repeat_char(' ', k2 as int),
                k2 <= rem,
            decreases rem - k2,
        {
            out.push(' ');
            proof {
                assert(out@ =~= mid + repeat_char(' ', k2 + 1));
            }
            k2 = k2 + 1;
        }
        proof {
            assert(out@ =~= spec_term_text(s, target as int));
        }
        out
    }
}

/// The display width of a character sequence.
pub fn text_width_of(cs: &Vec<char>) -> (r: usize)
    requires
        cs@.len() <= usize::MAX / 3,
    ensures
        r as nat == text_width(cs@),
{
    proof {
        reveal(text_width);
    }
    let mut w: usize = 0;
    let mut i: usize = 0;
    while i < cs.len()
        invariant
            0 <= i <= cs@.len(),
            cs@.len() <= usize::MAX / 3,
            w <= 3 * i,
            w + width_from(cs@, i as int) == width_from(cs@, 0),
        decreases cs@.len() - i,
    {
        let cw = char_width(cs[i]);
        w = w + cw;
        i = i + 1;
    }
    w
}

} // verus!
