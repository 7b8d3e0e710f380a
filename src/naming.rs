//! Segment names of the form `/pi-nes-shm-<pid>-<nanoseconds>-<counter>`.

use vstd::prelude::*;

verus! {

/// The character of a decimal digit `d < 10`.
pub open spec fn digit_char(d: nat) -> char {
    if d == 0 { '0' }
    else if d == 1 { '1' }
    else if d == 2 { '2' }
    else if d == 3 { '3' }
    else if d == 4 { '4' }
    else if d == 5 { '5' }
    else if d == 6 { '6' }
    else if d == 7 { '7' }
    else if d == 8 { '8' }
    else { '9' }
}

/// The decimal digits of `n`, most significant first, with no leading zero.
pub open spec fn decimal(n: nat) -> Seq<char>
    decreases n,
{
    if n < 10 {
        seq![digit_char(n)]
    } else {
        decimal(n / 10).push(digit_char(n % 10))
    }
}

/// The fixed start of every segment name; the leading `/` is what the
/// named-object namespace requires.
pub open spec fn name_prefix() -> Seq<char> {
    seq!['/', 'p', 'i', '-', 'n', 'e', 's', '-', 's', 'h', 'm', '-']
}

/// The name made from a process id, a wall-clock reading in nanoseconds and
/// a counter value.
pub open spec fn segment_name(pid: nat, nanos: nat, counter: nat) -> Seq<char> {
    name_prefix() + decimal(pid) + seq!['-'] + decimal(nanos) + seq!['-'] + decimal(counter)
}

fn digit_str(d: u128) -> (r: &'static str)
    requires
        d < 10,
    ensures
        r@ == seq![digit_char(d as nat)],
{
    if d == 0 {
        proof { reveal_strlit("0"); }
        "0"
    } else if d == 1 {
        proof { reveal_strlit("1"); }
        "1"
    } else if d == 2 {
        proof { reveal_strlit("2"); }
        "2"
    } else if d == 3 {
        proof { reveal_strlit("3"); }
        "3"
    } else if d == 4 {
        proof { reveal_strlit("4"); }
        "4"
    } else if d == 5 {
        proof { reveal_strlit("5"); }
        "5"
    } else if d == 6 {
        proof { reveal_strlit("6"); }
        "6"
    } else if d == 7 {
        proof { reveal_strlit("7"); }
        "7"
    } else if d == 8 {
        proof { reveal_strlit("8"); }
        "8"
    } else {
        proof { reveal_strlit("9"); }
        "9"
    }
}

/// Appends the decimal digits of `n` to `s`.
pub fn push_decimal(s: &mut String, n: u128)
    ensures
        final(s)@ == old(s)@ + decimal(n as nat),
    decreases n,
{
    if n >= 10 {
        push_decimal(s, n / 10);
    }
    s.append(digit_str(n % 10));
    proof {
        if n >= 10 {
            assert(old(s)@ + decimal(n as nat) =~= old(s)@ + decimal((n / 10) as nat) + seq![digit_char((n % 10) as nat)]);
        } else {
            assert(old(s)@ + decimal(n as nat) =~= old(s)@ + seq![digit_char((n % 10) as nat)]);
        }
    }
}

/// Builds the name of a segment from the process id, the wall-clock time in
/// nanoseconds and the value drawn from the process-wide counter.
pub fn format_segment_name(pid: u32, nanos: u128, counter: u64) -> (r: String)
    ensures
        r@ == segment_name(pid as nat, nanos as nat, counter as nat),
{
    let mut s = String::from_str("/pi-nes-shm-");
    proof { reveal_strlit("/pi-nes-shm-"); reveal_strlit("-"); }
    assert(s@ =~= name_prefix());
    push_decimal(&mut s, pid as u128);
    s.append("-");
    push_decimal(&mut s, nanos);
    s.append("-");
    push_decimal(&mut s, counter as u128);
    s
}

proof fn lemma_decimal_digits(n: nat)
    ensures
        decimal(n).len() >= 1,
        forall|i: int| 0 <= i < decimal(n).len() ==> decimal(n)[i] != '-',
    decreases n,
{
    if n >= 10 {
        lemma_decimal_digits(n / 10);
    }
}

proof fn lemma_digit_char_injective(a: nat, b: nat)
    requires
        a < 10,
        b < 10,
        digit_char(a) == digit_char(b),
    ensures
        a == b,
{
}

proof fn lemma_decimal_injective(n: nat, m: nat)
    requires
        decimal(n) == decimal(m),
    ensures
        n == m,
    decreases n,
{
    lemma_decimal_digits(n);
    lemma_decimal_digits(m);
    if n >= 10 && m >= 10 {
        let dn = decimal(n);
        assert(dn.drop_last() =~= decimal(n / 10));
        assert(decimal(m).drop_last() =~= decimal(m / 10));
        lemma_decimal_injective(n / 10, m / 10);
        assert(dn.last() == digit_char(n % 10));
        assert(decimal(m).last() == digit_char(m % 10));
        lemma_digit_char_injective(n % 10, m % 10);
    } else if n < 10 && m < 10 {
        assert(decimal(n) == seq![digit_char(n)]);
        assert(decimal(m) == seq![digit_char(m)]);
        assert(decimal(n)[0] == decimal(m)[0]);
        assert(seq![digit_char(n)][0] == digit_char(n));
        assert(seq![digit_char(m)][0] == digit_char(m));
        lemma_digit_char_injective(n, m);
    } else if n >= 10 {
        assert(decimal(n).len() == decimal(n / 10).len() + 1);
    } else if m >= 10 {
        assert(decimal(m).len() == decimal(m / 10).len() + 1);
    }
}

/// Names drawn with different counter values differ, whatever the process
/// ids and clock readings: a counter that never repeats within a process
/// therefore never lets two segments of that process share a name.
pub proof fn lemma_distinct_counters_give_distinct_names(
    pid1: nat,
    nanos1: nat,
    counter1: nat,
    pid2: nat,
    nanos2: nat,
    counter2: nat,
)
    requires
        counter1 != counter2,
    ensures
        segment_name(pid1, nanos1, counter1) != segment_name(pid2, nanos2, counter2),
{
    let a = name_prefix() + decimal(pid1) + seq!['-'] + decimal(nanos1) + seq!['-'];
    let b = name_prefix() + decimal(pid2) + seq!['-'] + decimal(nanos2) + seq!['-'];
    let d1 = decimal(counter1);
    let d2 = decimal(counter2);
    lemma_decimal_digits(counter1);
    lemma_decimal_digits(counter2);
    if segment_name(pid1, nanos1, counter1) == segment_name(pid2, nanos2, counter2) {
        let s = segment_name(pid1, nanos1, counter1);
        assert(s == a + d1);
        assert(s == b + d2);
        assert(a[a.len() - 1] == '-');
        assert(b[b.len() - 1] == '-');
        if d1.len() < d2.len() {
            let k = s.len() - d1.len() - 1;
            assert(s[k] == a[a.len() - 1]);
            assert(s[k] == d2[k - b.len()]);
        } else if d2.len() < d1.len() {
            let k = s.len() - d2.len() - 1;
            assert(s[k] == b[b.len() - 1]);
            assert(s[k] == d1[k - a.len()]);
        } else {
            assert(d1 =~= s.subrange(a.len() as int, s.len() as int));
            assert(d2 =~= s.subrange(b.len() as int, s.len() as int));
            lemma_decimal_injective(counter1, counter2);
        }
    }
}

} // verus!
