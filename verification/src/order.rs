use vstd::prelude::*;

verus! {

/// Three-way comparison result used by the library's orderings.
#[derive(Clone, Copy, Debug, PartialEq, Eq, Structural)]
pub enum Cmp {
    Less,
    Equal,
    Greater,
}

/// The comparison with its arguments swapped.
pub open spec fn cmp_flip(c: Cmp) -> Cmp {
    match c {
        Cmp::Less => Cmp::Greater,
        Cmp::Equal => Cmp::Equal,
        Cmp::Greater => Cmp::Less,
    }
}

/// Lexicographic chaining: the first comparison decides unless it is a tie.
pub open spec fn cmp_chain(a: Cmp, b: Cmp) -> Cmp {
    if a is Equal {
        b
    } else {
        a
    }
}

pub open spec fn cmp_int(a: int, b: int) -> Cmp {
    if a < b {
        Cmp::Less
    } else if a == b {
        Cmp::Equal
    } else {
        Cmp::Greater
    }
}

/// `false` sorts before `true`, as Rust orders booleans.
pub open spec fn cmp_bool(a: bool, b: bool) -> Cmp {
    cmp_int(if a { 1int } else { 0int }, if b { 1int } else { 0int })
}

/// `None` sorts before any `Some`, as Rust orders options.
pub open spec fn cmp_opt_int(a: Option<int>, b: Option<int>) -> Cmp {
    match (a, b) {
        (Option::None, Option::None) => Cmp::Equal,
        (Option::None, Option::Some(_)) => Cmp::Less,
        (Option::Some(_), Option::None) => Cmp::Greater,
        (Option::Some(x), Option::Some(y)) => cmp_int(x, y),
    }
}

/// Lexicographic order on character sequences; a strict prefix sorts first.
pub open spec fn lex_cmp(a: Seq<char>, b: Seq<char>) -> Cmp
    decreases a.len(),
{
    if a.len() == 0 && b.len() == 0 {
        Cmp::Equal
    } else if a.len() == 0 {
        Cmp::Less
    } else if b.len() == 0 {
        Cmp::Greater
    } else if a[0] < b[0] {
        Cmp::Less
    } else if a[0] > b[0] {
        Cmp::Greater
    } else {
        lex_cmp(a.drop_first(), b.drop_first())
    }
}

pub open spec fn cmp_opt_chars(a: Option<Seq<char>>, b: Option<Seq<char>>) -> Cmp {
    match (a, b) {
        (Option::None, Option::None) => Cmp::Equal,
        (Option::None, Option::Some(_)) => Cmp::Less,
        (Option::Some(_), Option::None) => Cmp::Greater,
        (Option::Some(x), Option::Some(y)) => lex_cmp(x, y),
    }
}

pub proof fn lemma_lex_flip(a: Seq<char>, b: Seq<char>)
    ensures
        lex_cmp(b, a) == cmp_flip(lex_cmp(a, b)),
    decreases a.len() + b.len(),
{
    if a.len() > 0 && b.len() > 0 && a[0] == b[0] {
        lemma_lex_flip(a.drop_first(), b.drop_first());
    }
}

pub proof fn lemma_lex_eq(a: Seq<char>, b: Seq<char>)
    ensures
        (lex_cmp(a, b) is Equal) <==> a == b,
    decreases a.len() + b.len(),
{
    if a.len() > 0 && b.len() > 0 && a[0] == b[0] {
        lemma_lex_eq(a.drop_first(), b.drop_first());
        if lex_cmp(a, b) is Equal {
            assert(a =~= seq![a[0]] + a.drop_first());
            assert(b =~= seq![b[0]] + b.drop_first());
        }
    } else {
        if a.len() == 0 && b.len() == 0 {
            assert(a =~= b);
        }
    }
}

pub proof fn lemma_lex_trans_less(a: Seq<char>, b: Seq<char>, c: Seq<char>)
    requires
        lex_cmp(a, b) is Less,
        lex_cmp(b, c) is Less,
    ensures
        lex_cmp(a, c) is Less,
    decreases a.len() + b.len() + c.len(),
{
    if a.len() > 0 && b.len() > 0 && c.len() > 0 && a[0] == b[0] && b[0] == c[0] {
        lemma_lex_trans_less(a.drop_first(), b.drop_first(), c.drop_first());
    }
}

/// Transitivity of `lex_cmp` in its non-strict form.
pub proof fn lemma_lex_trans_le(a: Seq<char>, b: Seq<char>, c: Seq<char>)
    requires
        !(lex_cmp(a, b) is Greater),
        !(lex_cmp(b, c) is Greater),
    ensures
        !(lex_cmp(a, c) is Greater),
{
    lemma_lex_eq(a, b);
    lemma_lex_eq(b, c);
    lemma_lex_eq(a, c);
    if lex_cmp(a, b) is Less && lex_cmp(b, c) is Less {
        lemma_lex_trans_less(a, b, c);
    }
}

pub proof fn lemma_opt_chars_flip(a: Option<Seq<char>>, b: Option<Seq<char>>)
    ensures
        cmp_opt_chars(b, a) == cmp_flip(cmp_opt_chars(a, b)),
{
    if a is Some && b is Some {
        lemma_lex_flip(a->Some_0, b->Some_0);
    }
}

pub proof fn lemma_opt_chars_trans_le(
    a: Option<Seq<char>>,
    b: Option<Seq<char>>,
    c: Option<Seq<char>>,
)
    requires
        !(cmp_opt_chars(a, b) is Greater),
        !(cmp_opt_chars(b, c) is Greater),
    ensures
        !(cmp_opt_chars(a, c) is Greater),
{
    if a is Some && b is Some && c is Some {
        lemma_lex_trans_le(a->Some_0, b->Some_0, c->Some_0);
    }
}

pub proof fn lemma_opt_chars_eq(a: Option<Seq<char>>, b: Option<Seq<char>>)
    ensures
        (cmp_opt_chars(a, b) is Equal) <==> a == b,
{
    if a is Some && b is Some {
        lemma_lex_eq(a->Some_0, b->Some_0);
    }
}

} // verus!
