//! The text form of SGR parameters: decimal numbers joined by `;`.
use vstd::prelude::*;

verus! {

/// The ASCII digit for `d`, for `d < 10`.
pub open spec fn digit_char(d: nat) -> char
    recommends
        d < 10,
{
    if d == 0 {
        '0'
    } else if d == 1 {
        '1'
    } else if d == 2 {
        '2'
    } else if d == 3 {
        '3'
    } else if d == 4 {
        '4'
    } else if d == 5 {
        '5'
    } else if d == 6 {
        '6'
    } else if d == 7 {
        '7'
    } else if d == 8 {
        '8'
    } else {
        '9'
    }
}

/// The decimal representation of `n`, most significant digit first, without leading zeros.
pub open spec fn decimal(n: nat) -> Seq<char>
    decreases n,
{
    if n < 10 {
        seq![digit_char(n)]
    } else {
        decimal(n / 10).push(digit_char(n % 10))
    }
}

/// The parameters in decimal, separated by `;`.
pub open spec fn join_params(ps: Seq<nat>) -> Seq<char>
    decreases ps.len(),
{
    if ps.len() == 0 {
        Seq::empty()
    } else if ps.len() == 1 {
        decimal(ps[0])
    } else {
        join_params(ps.drop_last()) + seq![';'] + decimal(ps.last())
    }
}

/// The control sequence introducer, `ESC [`.
pub open spec fn csi() -> Seq<char> {
    seq!['\x1b', '[']
}

/// The sequence that resets every attribute, `ESC [ 0 m`.
pub open spec fn reset() -> Seq<char> {
    seq!['\x1b', '[', '0', 'm']
}

/// The SGR sequence that selects the parameters `ps`.
pub open spec fn select(ps: Seq<nat>) -> Seq<char> {
    csi() + join_params(ps) + seq!['m']
}

fn digit_str(d: usize) -> (r: &'static str)
    requires
        d < 10,
    ensures
        r@ == seq![digit_char(d as nat)],
{
    proof {
        reveal_strlit("0");
        reveal_strlit("1");
        reveal_strlit("2");
        reveal_strlit("3");
        reveal_strlit("4");
        reveal_strlit("5");
        reveal_strlit("6");
        reveal_strlit("7");
        reveal_strlit("8");
        reveal_strlit("9");
    }
    match d {
        0 => "0",
        1 => "1",
        2 => "2",
        3 => "3",
        4 => "4",
        5 => "5",
        6 => "6",
        7 => "7",
        8 => "8",
        _ => "9",
    }
}

/// Appends `n` in decimal to `out`.
pub fn push_decimal(out: &mut String, n: usize)
    ensures
        final(out)@ == old(out)@ + decimal(n as nat),
    decreases n,
{
    if n >= 10 {
        push_decimal(out, n / 10);
    }
    out.append(digit_str(n % 10));
    assert(final(out)@ == old(out)@ + decimal(n as nat)) by {
        if n < 10 {
            assert(n % 10 == n);
        }
    }
}

/// Appends the SGR sequence selecting `params` to `out`.
pub fn push_select(out: &mut String, params: &Vec<usize>)
    ensures
        final(out)@ == old(out)@ + select(params@.map_values(|p: usize| p as nat)),
{
    let ghost ps = params@.map_values(|p: usize| p as nat);
    let ghost start = out@;
    proof {
        reveal_strlit("\x1b[");
        reveal_strlit("m");
    }
    out.append("\x1b[");
    let mut i: usize = 0;
    while i < params.len()
        invariant
            0 <= i <= params@.len(),
            ps == params@.map_values(|p: usize| p as nat),
            out@ == start + csi() + join_params(ps.take(i as int)),
        decreases params@.len() - i,
    {
        let ghost before = out@;
        if i > 0 {
            out.append(";");
            proof {
                reveal_strlit(";");
            }
            assert(out@ =~= before + seq![';']);
        }
        push_decimal(out, params[i]);
        proof {
            let next = ps.take(i + 1);
            assert(next.drop_last() =~= ps.take(i as int));
            assert(next.last() == params@[i as int] as nat);
            if i == 0 {
                assert(next.len() == 1);
                assert(join_params(ps.take(0)) =~= Seq::<char>::empty());
                assert(join_params(next) == decimal(next[0]));
                assert(out@ =~= before + decimal(next.last()));
            } else {
                assert(join_params(next) == join_params(ps.take(i as int)) + seq![';']
                    + decimal(next.last()));
                assert(out@ =~= before + seq![';'] + decimal(next.last()));
            }
            assert(out@ =~= start + csi() + join_params(next));
        }
        i = i + 1;
    }
    assert(ps.take(params@.len() as int) =~= ps);
    out.append("m");
    assert(out@ =~= start + select(ps));
}

} // verus!
