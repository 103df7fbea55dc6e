//! Text helpers: decimal numerals and positions in a string.
use vstd::prelude::*;
use vstd::string::*;

verus! {

/// The decimal digit of a number below ten.
pub open spec fn digit(d: nat) -> char {
    if d == 0 {
        '0'
    } else if d == 1 {
        '1'
    } else if d == 2 {
        '2'
    } else if d == 3 {
        '3'
    } else if d == 4 {
        '4'
    } else if d == 5 {
        '5'
    } else if d == 6 {
        '6'
    } else if d == 7 {
        '7'
    } else if d == 8 {
        '8'
    } else {
        '9'
    }
}

/// The decimal numeral of a number, without leading zeros.
pub open spec fn decimal(n: nat) -> Seq<char>
    decreases n,
{
    if n < 10 {
        seq![digit(n)]
    } else {
        decimal(n / 10).push(digit(n % 10))
    }
}

/// The text of one digit.
fn digit_text(d: u64) -> (r: &'static str)
    requires
        d < 10,
    ensures
        r@ == seq![digit(d as nat)],
{
    proof {
        reveal_strlit("0");
        reveal_strlit("1");
        reveal_strlit("2");
        reveal_strlit("3");
        reveal_strlit("4");
        reveal_strlit("5");
        reveal_strlit("6");
        reveal_strlit("7");
        reveal_strlit("8");
        reveal_strlit("9");
    }
    if d == 0 {
        "0"
    } else if d == 1 {
        "1"
    } else if d == 2 {
        "2"
    } else if d == 3 {
        "3"
    } else if d == 4 {
        "4"
    } else if d == 5 {
        "5"
    } else if d == 6 {
        "6"
    } else if d == 7 {
        "7"
    } else if d == 8 {
        "8"
    } else {
        "9"
    }
}

/// Writes a number in decimal.
pub fn decimal_text(n: u64) -> (r: String)
    ensures
        r@ == decimal(n as nat),
    decreases n,
{
    if n < 10 {
        digit_text(n).to_owned()
    } else {
        let mut head: String = decimal_text(n / 10);
        head.append(digit_text(n % 10));
        assert(head@ == decimal((n / 10) as nat).push(digit((n % 10) as nat)));
        head
    }
}

/// Whether `://` stands at position `i`.
pub open spec fn separator_at(s: Seq<char>, i: int) -> bool {
    &&& 0 <= i
    &&& i + 3 <= s.len()
    &&& s[i] == ':'
    &&& s[i + 1] == '/'
    &&& s[i + 2] == '/'
}

/// The first position from `from` on at which `://` stands.
pub open spec fn separator_from(s: Seq<char>, from: int) -> Option<int>
    decreases s.len() - from,
{
    if from < 0 || from + 3 > s.len() {
        None
    } else if separator_at(s, from) {
        Some(from)
    } else {
        separator_from(s, from + 1)
    }
}

/// What follows the first `://`.
pub open spec fn after_separator(s: Seq<char>) -> Option<Seq<char>> {
    match separator_from(s, 0) {
        None => None,
        Some(i) => Some(s.skip(i + 3)),
    }
}

/// Whether `s` begins with `prefix`.
pub open spec fn begins_with(s: Seq<char>, prefix: Seq<char>) -> bool {
    prefix.len() <= s.len() && s.take(prefix.len() as int) == prefix
}

/// Where `://` stands somewhere, there is a first place.
pub proof fn separator_found(s: Seq<char>, from: int, i: int)
    requires
        0 <= from <= i,
        separator_at(s, i),
    ensures
        separator_from(s, from) matches Some(k) && from <= k <= i && separator_at(s, k),
    decreases i - from,
{
    if !separator_at(s, from) {
        separator_found(s, from + 1, i);
    }
}

/// The characters of a string.
pub fn chars_of(s: &str) -> (r: Vec<char>)
    ensures
        r@ == s@,
{
    let mut r: Vec<char> = Vec::new();
    for c in it: s.chars()
        invariant
            it.seq() == s@,
            r@ == s@.take(it.index() as int),
    {
        r.push(c);
        assert(r@ == s@.take(it.index() + 1));
    }
    assert(s@.take(s@.len() as int) == s@);
    r
}

/// Whether the characters begin with a prefix.
pub fn starts_with(s: &Vec<char>, prefix: &str) -> (r: bool)
    ensures
        r == begins_with(s@, prefix@),
{
    let p: Vec<char> = chars_of(prefix);
    if p.len() > s.len() {
        return false;
    }
    let mut i: usize = 0;
    while i < p.len()
        invariant
            i <= p@.len() <= s@.len(),
            p@ == prefix@,
            forall|j: int| 0 <= j < i ==> s@[j] == p@[j],
        decreases p@.len() - i,
    {
        if s[i] != p[i] {
            assert(s@.take(prefix@.len() as int)[i as int] != prefix@[i as int]);
            return false;
        }
        i = i + 1;
    }
    assert(s@.take(prefix@.len() as int) == prefix@);
    true
}

/// The first position at which `://` stands.
pub fn find_separator(s: &Vec<char>) -> (r: Option<usize>)
    ensures
        separator_from(s@, 0) == match r {
            Some(i) => Some(i as int),
            None => None,
        },
        r matches Some(i) ==> i + 3 <= s@.len(),
{
    let mut i: usize = 0;
    while i < s.len() && s.len() - i >= 3
        invariant
            i <= s@.len(),
            separator_from(s@, 0) == separator_from(s@, i as int),
        decreases s@.len() - i,
    {
        if s[i] == ':' && s[i + 1] == '/' && s[i + 2] == '/' {
            return Some(i);
        }
        i = i + 1;
    }
    None
}

/// The first position from `from` on that holds `c`.
pub fn find_char(s: &Vec<char>, from: usize, c: char) -> (r: Option<usize>)
    requires
        from <= s@.len(),
    ensures
        s@.skip(from as int).index_of_first(c) == match r {
            Some(i) => Some(i - from),
            None => None,
        },
        r matches Some(i) ==> from <= i < s@.len(),
{
    let mut i: usize = from;
    let ghost rest = s@.skip(from as int);
    while i < s.len()
        invariant
            from <= i <= s@.len(),
            rest == s@.skip(from as int),
            forall|j: int| 0 <= j < i - from ==> rest[j] != c,
        decreases s@.len() - i,
    {
        if s[i] == c {
            proof {
                assert(rest[i - from] == c);
                rest.index_of_first_ensures(c);
                let k = rest.index_of_first(c)->0;
                assert(k == i - from);
            }
            return Some(i);
        }
        assert(rest[i - from] != c);
        i = i + 1;
    }
    proof {
        rest.index_of_first_ensures(c);
    }
    None
}

/// The last position from `from` on that holds `c`.
pub fn find_last_char(s: &Vec<char>, from: usize, c: char) -> (r: Option<usize>)
    requires
        from <= s@.len(),
    ensures
        s@.skip(from as int).index_of_last(c) == match r {
            Some(i) => Some(i - from),
            None => None,
        },
        r matches Some(i) ==> from <= i < s@.len(),
{
    let mut i: usize = s.len();
    let ghost rest = s@.skip(from as int);
    while i > from
        invariant
            from <= i <= s@.len(),
            rest == s@.skip(from as int),
            forall|j: int| i - from <= j < rest.len() ==> rest[j] != c,
        decreases i,
    {
        i = i - 1;
        if s[i] == c {
            proof {
                assert(rest[i - from] == c);
                rest.index_of_last_ensures(c);
            }
            return Some(i);
        }
        assert(rest[i - from] != c);
    }
    proof {
        rest.index_of_last_ensures(c);
    }
    None
}

} // verus!
