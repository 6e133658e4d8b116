//! Text building blocks for generated WGSL: decimal numbers and joined lines.

use vstd::prelude::*;

verus! {

/// The decimal digit character for `d` (0 to 9).
pub open spec fn digit_char(d: int) -> char {
    if d == 0 { '0' }
    else if d == 1 { '1' }
    else if d == 2 { '2' }
    else if d == 3 { '3' }
    else if d == 4 { '4' }
    else if d == 5 { '5' }
    else if d == 6 { '6' }
    else if d == 7 { '7' }
    else if d == 8 { '8' }
    else { '9' }
}

/// The decimal representation of `n`, without leading zeros.
pub open spec fn decimal(n: nat) -> Seq<char>
    decreases n,
{
    if n < 10 {
        seq![digit_char(n as int)]
    } else {
        decimal(n / 10).push(digit_char((n % 10) as int))
    }
}

/// `parts` with `sep` between each two neighbours.
pub open spec fn join(parts: Seq<Seq<char>>, sep: Seq<char>) -> Seq<char>
    decreases parts.len(),
{
    if parts.len() == 0 {
        Seq::empty()
    } else if parts.len() == 1 {
        parts[0]
    } else {
        join(parts.drop_last(), sep) + sep + parts.last()
    }
}

/// The views of a sequence of strings.
pub open spec fn views(v: Seq<String>) -> Seq<Seq<char>> {
    v.map_values(|s: String| s@)
}

fn digit_str(d: u64) -> (s: &'static str)
    requires
        d < 10,
    ensures
        s@ == seq![digit_char(d as int)],
{
    proof {
        reveal_strlit("0");
        reveal_strlit("1");
        reveal_strlit("2");
        reveal_strlit("3");
        reveal_strlit("4");
        reveal_strlit("5");
        reveal_strlit("6");
        reveal_strlit("7");
        reveal_strlit("8");
        reveal_strlit("9");
    }
    if d == 0 { "0" }
    else if d == 1 { "1" }
    else if d == 2 { "2" }
    else if d == 3 { "3" }
    else if d == 4 { "4" }
    else if d == 5 { "5" }
    else if d == 6 { "6" }
    else if d == 7 { "7" }
    else if d == 8 { "8" }
    else { "9" }
}

/// Appends the decimal representation of `n` to `out`.
pub fn push_decimal(out: &mut String, n: u64)
    ensures
        final(out)@ == old(out)@ + decimal(n as nat),
    decreases n,
{
    if n >= 10 {
        push_decimal(out, n / 10);
    }
    out.append(digit_str(n % 10));
    proof {
        if n >= 10 {
            assert(decimal(n as nat) == decimal((n / 10) as nat).push(digit_char((n % 10) as int)));
        }
    }
}

/// The decimal representation of `n`.
pub fn decimal_string(n: u64) -> (s: String)
    ensures
        s@ == decimal(n as nat),
{
    let mut s = String::new();
    push_decimal(&mut s, n);
    s
}

/// The strings of `parts` joined with `sep` between each two neighbours.
pub fn join_strings(parts: &Vec<String>, sep: &str) -> (s: String)
    ensures
        s@ == join(views(parts@), sep@),
{
    let mut s = String::new();
    let mut i: usize = 0;
    while i < parts.len()
        invariant
            i <= parts.len(),
            s@ == join(views(parts@.take(i as int)), sep@),
        decreases parts.len() - i,
    {
        let ghost before = views(parts@.take(i as int));
        if i > 0 {
            s.append(sep);
        }
        s.append(parts[i].as_str());
        proof {
            let after = views(parts@.take(i + 1));
            assert(after.drop_last() =~= before);
            assert(after.last() == parts@[i as int]@);
            if i == 0 {
                assert(before =~= Seq::<Seq<char>>::empty());
                assert(s@ =~= after[0]);
            }
        }
        i = i + 1;
    }
    assert(parts@.take(parts@.len() as int) =~= parts@);
    s
}

/// The WGSL spelling of a scalar (`n` = 1) or an `n`-component vector of `scalar`.
pub open spec fn wgsl_vector(n: nat, scalar: Seq<char>) -> Seq<char> {
    if n == 1 { scalar } else { "vec"@ + decimal(n) + "<"@ + scalar + ">"@ }
}

/// The WGSL spelling of a matrix of `f32` with `cols` columns and `rows` rows.
pub open spec fn wgsl_matrix(cols: nat, rows: nat) -> Seq<char> {
    "mat"@ + decimal(cols) + "x"@ + decimal(rows) + "f"@
}

/// Whether `needle` occurs in `hay` as consecutive characters.
pub open spec fn contains_text(hay: Seq<char>, needle: Seq<char>) -> bool {
    exists|i: int| 0 <= i && i + needle.len() <= hay.len() && #[trigger] hay.subrange(i, i + needle.len()) == needle
}

/// Text that occurs in `a` still occurs after more text is added on either side.
pub proof fn lemma_contains_text_extend(a: Seq<char>, needle: Seq<char>, before: Seq<char>, after: Seq<char>)
    requires
        contains_text(a, needle),
    ensures
        contains_text(before + a + after, needle),
{
    let i = choose|i: int| 0 <= i && i + needle.len() <= a.len() && #[trigger] a.subrange(i, i + needle.len()) == needle;
    let whole = before + a + after;
    let j = before.len() + i;
    assert(whole.subrange(j, j + needle.len()) =~= a.subrange(i, i + needle.len()));
}

/// Text occurs in itself.
pub proof fn lemma_contains_text_self(a: Seq<char>)
    ensures
        contains_text(a, a),
{
    assert(a.subrange(0int, 0int + a.len()) =~= a);
}

/// Each part of a joined text occurs in it.
pub proof fn lemma_join_contains(parts: Seq<Seq<char>>, sep: Seq<char>, k: int)
    requires
        0 <= k < parts.len(),
    ensures
        contains_text(join(parts, sep), parts[k]),
    decreases parts.len(),
{
    lemma_contains_text_self(parts[k]);
    if parts.len() == 1 {
    } else if k == parts.len() - 1 {
        lemma_contains_text_extend(parts[k], parts[k], join(parts.drop_last(), sep) + sep, Seq::empty());
        assert(join(parts.drop_last(), sep) + sep + parts[k] + Seq::<char>::empty() =~= join(parts, sep));
    } else {
        lemma_join_contains(parts.drop_last(), sep, k);
        lemma_contains_text_extend(join(parts.drop_last(), sep), parts[k], Seq::empty(), sep + parts.last());
        assert(Seq::<char>::empty() + join(parts.drop_last(), sep) + (sep + parts.last()) =~= join(parts, sep));
    }
}

} // verus!
