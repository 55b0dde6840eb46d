use vstd::prelude::*;

verus! {

broadcast use vstd::seq_lib::group_seq_properties;

/// The character of a decimal digit.
pub open spec fn digit_char(d: nat) -> char {
    if d == 0 {
        '0'
    } else if d == 1 {
        '1'
    } else if d == 2 {
        '2'
    } else if d == 3 {
        '3'
    } else if d == 4 {
        '4'
    } else if d == 5 {
        '5'
    } else if d == 6 {
        '6'
    } else if d == 7 {
        '7'
    } else if d == 8 {
        '8'
    } else {
        '9'
    }
}

/// The value of a decimal digit character.
pub open spec fn digit_value(c: char) -> int {
    if c == '1' {
        1
    } else if c == '2' {
        2
    } else if c == '3' {
        3
    } else if c == '4' {
        4
    } else if c == '5' {
        5
    } else if c == '6' {
        6
    } else if c == '7' {
        7
    } else if c == '8' {
        8
    } else if c == '9' {
        9
    } else {
        0
    }
}

/// The decimal digits of `n`, most significant first, without leading zeros.
pub open spec fn decimal_digits(n: nat) -> Seq<char>
    decreases n,
{
    if n < 10 {
        seq![digit_char(n)]
    } else {
        decimal_digits(n / 10).push(digit_char(n % 10))
    }
}

/// `k` zero characters.
pub open spec fn zeros(k: nat) -> Seq<char> {
    Seq::new(k, |i: int| '0')
}

/// `n` in decimal, padded with leading zeros to at least three digits.
pub open spec fn padded_decimal(n: nat) -> Seq<char> {
    let d = decimal_digits(n);
    if d.len() >= 3 {
        d
    } else {
        zeros((3 - d.len()) as nat) + d
    }
}

/// `base`, a dot, and `n` padded to three digits, such as `Body.007`.
pub open spec fn numbered_name(base: Seq<char>, n: nat) -> Seq<char> {
    base + seq!['.'] + padded_decimal(n)
}

/// The number a sequence of decimal digits reads as.
pub open spec fn digits_value(s: Seq<char>) -> int
    decreases s.len(),
{
    if s.len() == 0 {
        0
    } else {
        digits_value(s.drop_last()) * 10 + digit_value(s.last())
    }
}

/// The contents of a list of names.
pub open spec fn name_seq(names: Seq<String>) -> Seq<Seq<char>> {
    names.map_values(|s: String| s@)
}

proof fn lemma_digit_round_trip(d: nat)
    requires
        d < 10,
    ensures
        digit_value(digit_char(d)) == d,
{
}

proof fn lemma_decimal_value(n: nat)
    ensures
        digits_value(decimal_digits(n)) == n,
    decreases n,
{
    if n < 10 {
        lemma_digit_round_trip(n);
        assert(seq![digit_char(n)].drop_last() =~= Seq::<char>::empty());
        assert(digits_value(Seq::<char>::empty()) == 0);
    } else {
        lemma_decimal_value(n / 10);
        lemma_digit_round_trip(n % 10);
        let d = decimal_digits(n / 10);
        assert(d.push(digit_char(n % 10)).drop_last() =~= d);
        assert(d.push(digit_char(n % 10)).last() == digit_char(n % 10));
        assert(n == (n / 10) * 10 + n % 10);
    }
}

proof fn lemma_zeros_value(k: nat)
    ensures
        digits_value(zeros(k)) == 0,
    decreases k,
{
    if k > 0 {
        assert(zeros(k).drop_last() =~= zeros((k - 1) as nat));
        lemma_zeros_value((k - 1) as nat);
    }
}

proof fn lemma_leading_zeros_value(k: nat, d: Seq<char>)
    ensures
        digits_value(zeros(k) + d) == digits_value(d),
    decreases d.len(),
{
    if d.len() == 0 {
        assert(zeros(k) + d =~= zeros(k));
        lemma_zeros_value(k);
    } else {
        assert((zeros(k) + d).drop_last() =~= zeros(k) + d.drop_last());
        lemma_leading_zeros_value(k, d.drop_last());
    }
}

/// The decimal digit count of `n` in the three ranges that padding tells apart.
proof fn lemma_digits_len(n: nat)
    ensures
        n < 10 ==> decimal_digits(n).len() == 1,
        10 <= n < 100 ==> decimal_digits(n).len() == 2,
        n >= 10 ==> decimal_digits(n).len() >= 2,
        n >= 100 ==> decimal_digits(n).len() >= 3,
    decreases n,
{
    if n >= 10 {
        lemma_digits_len(n / 10);
    }
}

proof fn lemma_padded_value(n: nat)
    ensures
        digits_value(padded_decimal(n)) == n,
{
    lemma_decimal_value(n);
    let d = decimal_digits(n);
    if d.len() < 3 {
        lemma_leading_zeros_value((3 - d.len()) as nat, d);
    }
}

/// Different numbers give different numbered names.
pub proof fn lemma_numbered_name_injective(base: Seq<char>, i: nat, j: nat)
    requires
        numbered_name(base, i) == numbered_name(base, j),
    ensures
        i == j,
{
    let a = numbered_name(base, i);
    let b = numbered_name(base, j);
    let start = base.len() + 1;
    assert(a.subrange(start as int, a.len() as int) =~= padded_decimal(i));
    assert(b.subrange(start as int, b.len() as int) =~= padded_decimal(j));
    lemma_padded_value(i);
    lemma_padded_value(j);
}

/// When the names numbered `1..=count` all occur in `names`, there are at
/// least `count` names.
pub proof fn lemma_numbered_names_fit(base: Seq<char>, names: Seq<Seq<char>>, count: nat)
    requires
        forall|j: nat| 1 <= j <= count ==> names.contains(#[trigger] numbered_name(base, j)),
    ensures
        count <= names.len(),
{
    let numbered = Seq::new(count, |k: int| numbered_name(base, (k + 1) as nat));
    assert forall|a: int, b: int|
        0 <= a < numbered.len() && 0 <= b < numbered.len() && a != b implies numbered[a]
        != numbered[b] by {
        if numbered[a] == numbered[b] {
            lemma_numbered_name_injective(base, (a + 1) as nat, (b + 1) as nat);
        }
    }
    numbered.unique_seq_to_set();
    assert forall|x: Seq<char>| numbered.to_set().contains(x) implies names.to_set().contains(x) by {
        let k = choose|k: int| 0 <= k < numbered.len() && numbered[k] == x;
        assert(names.contains(numbered_name(base, (k + 1) as nat)));
    }
    names.lemma_cardinality_of_set();
    vstd::set_lib::lemma_len_subset(numbered.to_set(), names.to_set());
}

fn digit_str(d: u32) -> (s: &'static str)
    requires
        d < 10,
    ensures
        s@ == seq![digit_char(d as nat)],
{
    if d == 0 {
        proof {
            reveal_strlit("0");
        }
        "0"
    } else if d == 1 {
        proof {
            reveal_strlit("1");
        }
        "1"
    } else if d == 2 {
        proof {
            reveal_strlit("2");
        }
        "2"
    } else if d == 3 {
        proof {
            reveal_strlit("3");
        }
        "3"
    } else if d == 4 {
        proof {
            reveal_strlit("4");
        }
        "4"
    } else if d == 5 {
        proof {
            reveal_strlit("5");
        }
        "5"
    } else if d == 6 {
        proof {
            reveal_strlit("6");
        }
        "6"
    } else if d == 7 {
        proof {
            reveal_strlit("7");
        }
        "7"
    } else if d == 8 {
        proof {
            reveal_strlit("8");
        }
        "8"
    } else {
        proof {
            reveal_strlit("9");
        }
        "9"
    }
}

fn append_decimal(s: &mut String, n: u32)
    ensures
        final(s)@ == old(s)@ + decimal_digits(n as nat),
    decreases n,
{
    if n >= 10 {
        append_decimal(s, n / 10);
    }
    s.append(digit_str(n % 10));
    proof {
        if n >= 10 {
            assert(old(s)@ + decimal_digits((n / 10) as nat) + seq![digit_char((n % 10) as nat)]
                =~= old(s)@ + decimal_digits(n as nat));
        } else {
            assert(old(s)@ + seq![digit_char(n as nat)] =~= old(s)@ + decimal_digits(n as nat));
        }
    }
}

/// `base`, a dot, and `n` padded with zeros to three digits.
pub fn format_numbered(base: &str, n: u32) -> (name: String)
    ensures
        name@ == numbered_name(base@, n as nat),
{
    let mut name = base.to_owned();
    proof {
        reveal_strlit(".");
        reveal_strlit("00");
        reveal_strlit("0");
        lemma_digits_len(n as nat);
    }
    name.append(".");
    if n < 10 {
        name.append("00");
    } else if n < 100 {
        name.append("0");
    }
    append_decimal(&mut name, n);
    proof {
        if n < 10 {
            assert(zeros(2) =~= "00"@);
        } else if n < 100 {
            assert(zeros(1) =~= "0"@);
        }
        assert(name@ =~= numbered_name(base@, n as nat));
    }
    name
}

/// Whether `name` occurs in `names`.
pub fn contains_name(names: &Vec<String>, name: &String) -> (found: bool)
    ensures
        found == name_seq(names@).contains(name@),
{
    let mut i: usize = 0;
    while i < names.len()
        invariant
            i <= names.len(),
            forall|j: int| 0 <= j < i ==> name_seq(names@)[j] != name@,
        decreases names.len() - i,
    {
        if names[i] == *name {
            assert(name_seq(names@)[i as int] == name@);
            return true;
        }
        i += 1;
    }
    false
}

} // verus!
