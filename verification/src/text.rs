use vstd::prelude::*;
use vstd::string::*;

verus! {

/// The characters of a string, as a vector.
pub fn str_to_chars(s: &str) -> (v: Vec<char>)
    ensures
        v@ == s@,
{
    let n = s.unicode_len();
    let mut v: Vec<char> = Vec::new();
    let mut i: usize = 0;
    while i < n
        invariant
            n == s@.len(),
            i <= n,
            v@ == s@.subrange(0, i as int),
        decreases n - i,
    {
        v.push(s.get_char(i));
        i = i + 1;
        proof {
            assert(v@ =~= s@.subrange(0, i as int));
        }
    }
    proof {
        assert(v@ =~= s@);
    }
    v
}

/// Character-for-character string equality.
pub fn str_eq(a: &str, b: &str) -> (r: bool)
    ensures
        r == (a@ == b@),
{
    let na = a.unicode_len();
    let nb = b.unicode_len();
    if na != nb {
        proof {
            assert(a@ != b@);
        }
        return false;
    }
    let mut i: usize = 0;
    while i < na
        invariant
            na == a@.len(),
            na == b@.len(),
            i <= na,
            forall|j: int| 0 <= j < i ==> a@[j] == b@[j],
        decreases na - i,
    {
        if a.get_char(i) != b.get_char(i) {
            proof {
                assert(a@ != b@);
            }
            return false;
        }
        i = i + 1;
    }
    proof {
        assert(a@ =~= b@);
    }
    true
}

/// Whether two character vectors hold the same text.
pub fn chars_eq(a: &Vec<char>, b: &Vec<char>) -> (r: bool)
    ensures
        r == (a@ == b@),
{
    let na = a.len();
    let nb = b.len();
    if na != nb {
        proof {
            assert(a@ != b@);
        }
        return false;
    }
    let mut i: usize = 0;
    while i < na
        invariant
            na == a@.len(),
            na == b@.len(),
            i <= na,
            forall|j: int| 0 <= j < i ==> a@[j] == b@[j],
        decreases na - i,
    {
        if a[i] != b[i] {
            proof {
                assert(a@ != b@);
            }
            return false;
        }
        i = i + 1;
    }
    proof {
        assert(a@ =~= b@);
    }
    true
}


// ── Decimal digits ──────────────────────────────────────────────────

/// The character for one decimal digit; digits ten and up have no character
/// and fall back to '0', which no caller reaches.
pub open spec fn digit_char(d: nat) -> char {
    if d == 0 {
        '0'
    } else if d == 1 {
        '1'
    } else if d == 2 {
        '2'
    } else if d == 3 {
        '3'
    } else if d == 4 {
        '4'
    } else if d == 5 {
        '5'
    } else if d == 6 {
        '6'
    } else if d == 7 {
        '7'
    } else if d == 8 {
        '8'
    } else if d == 9 {
        '9'
    } else {
        '0'
    }
}

/// The decimal spelling of a number, most significant digit first. Never
/// empty: zero spells "0".
pub open spec fn dec_seq(n: nat) -> Seq<char>
    decreases n,
{
    if n < 10 {
        seq![digit_char(n)]
    } else {
        dec_seq(n / 10).push(digit_char(n % 10))
    }
}

pub proof fn lemma_dec_seq_nonempty(n: nat)
    ensures
        dec_seq(n).len() >= 1,
    decreases n,
{
    if n >= 10 {
        lemma_dec_seq_nonempty(n / 10);
    }
}

fn digit_str(d: u64) -> (r: &'static str)
    requires
        d < 10,
    ensures
        r@ == seq![digit_char(d as nat)],
{
    match d {
        0 => {
            proof {
                reveal_strlit("0");
                assert("0"@ =~= seq![digit_char(0)]);
            }
            "0"
        },
        1 => {
            proof {
                reveal_strlit("1");
                assert("1"@ =~= seq![digit_char(1)]);
            }
            "1"
        },
        2 => {
            proof {
                reveal_strlit("2");
                assert("2"@ =~= seq![digit_char(2)]);
            }
            "2"
        },
        3 => {
            proof {
                reveal_strlit("3");
                assert("3"@ =~= seq![digit_char(3)]);
            }
            "3"
        },
        4 => {
            proof {
                reveal_strlit("4");
                assert("4"@ =~= seq![digit_char(4)]);
            }
            "4"
        },
        5 => {
            proof {
                reveal_strlit("5");
                assert("5"@ =~= seq![digit_char(5)]);
            }
            "5"
        },
        6 => {
            proof {
                reveal_strlit("6");
                assert("6"@ =~= seq![digit_char(6)]);
            }
            "6"
        },
        7 => {
            proof {
                reveal_strlit("7");
                assert("7"@ =~= seq![digit_char(7)]);
            }
            "7"
        },
        8 => {
            proof {
                reveal_strlit("8");
                assert("8"@ =~= seq![digit_char(8)]);
            }
            "8"
        },
        9 => {
            proof {
                reveal_strlit("9");
                assert("9"@ =~= seq![digit_char(9)]);
            }
            "9"
        },
        _ => {
            proof {
                assert(false);
            }
            "0"
        },
    }
}

/// The decimal spelling of a number, as a string.
pub fn u64_to_string(n: u64) -> (s: String)
    ensures
        s@ == dec_seq(n as nat),
    decreases n,
{
    if n < 10 {
        digit_str(n).to_owned()
    } else {
        proof {
            vstd::arithmetic::div_mod::lemma_div_is_strictly_smaller(n as int, 10);
        }
        let mut s = u64_to_string(n / 10);
        s.append(digit_str(n % 10));
        proof {
            assert(s@ =~= dec_seq(n as nat));
        }
        s
    }
}

// ── ASCII capitalization ────────────────────────────────────────────

/// ASCII uppercase of one character; anything outside 'a'..'z' is unchanged.
pub open spec fn upper_char(c: char) -> char {
    if 'a' <= c && c <= 'z' {
        ((c as u32) - 32) as char
    } else {
        c
    }
}

/// The text with its first character uppercased.
pub open spec fn capitalize_spec(s: Seq<char>) -> Seq<char> {
    if s.len() == 0 {
        s
    } else {
        seq![upper_char(s[0])] + s.skip(1)
    }
}

fn upper_str(c: char) -> (r: Option<&'static str>)
    ensures
        (r is Some) == ('a' <= c && c <= 'z'),
        r is Some ==> r->0@ == seq![upper_char(c)],
{
    match c {
        'a' => {
            proof {
                reveal_strlit("A");
                assert("A"@ =~= seq![upper_char('a')]);
            }
            Some("A")
        },
        'b' => {
            proof {
                reveal_strlit("B");
                assert("B"@ =~= seq![upper_char('b')]);
            }
            Some("B")
        },
        'c' => {
            proof {
                reveal_strlit("C");
                assert("C"@ =~= seq![upper_char('c')]);
            }
            Some("C")
        },
        'd' => {
            proof {
                reveal_strlit("D");
                assert("D"@ =~= seq![upper_char('d')]);
            }
            Some("D")
        },
        'e' => {
            proof {
                reveal_strlit("E");
                assert("E"@ =~= seq![upper_char('e')]);
            }
            Some("E")
        },
        'f' => {
            proof {
                reveal_strlit("F");
                assert("F"@ =~= seq![upper_char('f')]);
            }
            Some("F")
        },
        'g' => {
            proof {
                reveal_strlit("G");
                assert("G"@ =~= seq![upper_char('g')]);
            }
            Some("G")
        },
        'h' => {
            proof {
                reveal_strlit("H");
                assert("H"@ =~= seq![upper_char('h')]);
            }
            Some("H")
        },
        'i' => {
            proof {
                reveal_strlit("I");
                assert("I"@ =~= seq![upper_char('i')]);
            }
            Some("I")
        },
        'j' => {
            proof {
                reveal_strlit("J");
                assert("J"@ =~= seq![upper_char('j')]);
            }
            Some("J")
        },
        'k' => {
            proof {
                reveal_strlit("K");
                assert("K"@ =~= seq![upper_char('k')]);
            }
            Some("K")
        },
        'l' => {
            proof {
                reveal_strlit("L");
                assert("L"@ =~= seq![upper_char('l')]);
            }
            Some("L")
        },
        'm' => {
            proof {
                reveal_strlit("M");
                assert("M"@ =~= seq![upper_char('m')]);
            }
            Some("M")
        },
        'n' => {
            proof {
                reveal_strlit("N");
                assert("N"@ =~= seq![upper_char('n')]);
            }
            Some("N")
        },
        'o' => {
            proof {
                reveal_strlit("O");
                assert("O"@ =~= seq![upper_char('o')]);
            }
            Some("O")
        },
        'p' => {
            proof {
                reveal_strlit("P");
                assert("P"@ =~= seq![upper_char('p')]);
            }
            Some("P")
        },
        'q' => {
            proof {
                reveal_strlit("Q");
                assert("Q"@ =~= seq![upper_char('q')]);
            }
            Some("Q")
        },
        'r' => {
            proof {
                reveal_strlit("R");
                assert("R"@ =~= seq![upper_char('r')]);
            }
            Some("R")
        },
        's' => {
            proof {
                reveal_strlit("S");
                assert("S"@ =~= seq![upper_char('s')]);
            }
            Some("S")
        },
        't' => {
            proof {
                reveal_strlit("T");
                assert("T"@ =~= seq![upper_char('t')]);
            }
            Some("T")
        },
        'u' => {
            proof {
                reveal_strlit("U");
                assert("U"@ =~= seq![upper_char('u')]);
            }
            Some("U")
        },
        'v' => {
            proof {
                reveal_strlit("V");
                assert("V"@ =~= seq![upper_char('v')]);
            }
            Some("V")
        },
        'w' => {
            proof {
                reveal_strlit("W");
                assert("W"@ =~= seq![upper_char('w')]);
            }
            Some("W")
        },
        'x' => {
            proof {
                reveal_strlit("X");
                assert("X"@ =~= seq![upper_char('x')]);
            }
            Some("X")
        },
        'y' => {
            proof {
                reveal_strlit("Y");
                assert("Y"@ =~= seq![upper_char('y')]);
            }
            Some("Y")
        },
        'z' => {
            proof {
                reveal_strlit("Z");
                assert("Z"@ =~= seq![upper_char('z')]);
            }
            Some("Z")
        },
        _ => None,
    }
}

/// Uppercase the first character of a word, ASCII-wise.
pub fn capitalize_word(w: &String) -> (r: String)
    ensures
        r@ == capitalize_spec(w@),
{
    let n = w.as_str().unicode_len();
    if n == 0 {
        return w.clone();
    }
    let c = w.as_str().get_char(0);
    match upper_str(c) {
        Some(u) => {
            let mut s = u.to_owned();
            let rest = w.as_str().substring_char(1, n);
            s.append(rest);
            proof {
                assert(s@ =~= capitalize_spec(w@));
            }
            s
        },
        None => {
            let r = w.clone();
            proof {
                assert(r@ =~= capitalize_spec(w@));
            }
            r
        },
    }
}



// ── ASCII lowering and substring search ─────────────────────────────

/// ASCII lowercase of one character; anything outside 'A'..'Z' is unchanged.
pub open spec fn lower_char(c: char) -> char {
    if 'A' <= c && c <= 'Z' {
        ((c as u32) + 32) as char
    } else {
        c
    }
}

/// The text lowercased, ASCII-wise.
pub open spec fn lower_seq(s: Seq<char>) -> Seq<char> {
    s.map_values(|c: char| lower_char(c))
}

pub fn lower_char_exec(c: char) -> (r: char)
    ensures
        r == lower_char(c),
{
    match c {
        'A' => 'a',
        'B' => 'b',
        'C' => 'c',
        'D' => 'd',
        'E' => 'e',
        'F' => 'f',
        'G' => 'g',
        'H' => 'h',
        'I' => 'i',
        'J' => 'j',
        'K' => 'k',
        'L' => 'l',
        'M' => 'm',
        'N' => 'n',
        'O' => 'o',
        'P' => 'p',
        'Q' => 'q',
        'R' => 'r',
        'S' => 's',
        'T' => 't',
        'U' => 'u',
        'V' => 'v',
        'W' => 'w',
        'X' => 'x',
        'Y' => 'y',
        'Z' => 'z',
        _ => c,
    }
}

/// The characters of a string, lowercased ASCII-wise.
pub fn to_lower_chars(s: &str) -> (v: Vec<char>)
    ensures
        v@ == lower_seq(s@),
{
    let n = s.unicode_len();
    let mut v: Vec<char> = Vec::new();
    let mut i: usize = 0;
    while i < n
        invariant
            n == s@.len(),
            i <= n,
            v@.len() == i,
            forall|j: int| 0 <= j < i ==> v@[j] == lower_char(s@[j]),
        decreases n - i,
    {
        v.push(lower_char_exec(s.get_char(i)));
        i = i + 1;
    }
    proof {
        assert(v@ =~= lower_seq(s@));
    }
    v
}

/// Whether `needle` occurs in `hay` as a contiguous run.
pub open spec fn spec_contains_sub(hay: Seq<char>, needle: Seq<char>) -> bool {
    exists|k: int|
        0 <= k <= hay.len() - needle.len() && #[trigger] hay.subrange(k, k + needle.len() as int)
            == needle
}

fn matches_at(hay: &Vec<char>, needle: &Vec<char>, k: usize) -> (r: bool)
    requires
        k + needle@.len() <= hay@.len(),
    ensures
        r == (hay@.subrange(k as int, k as int + needle@.len() as int) == needle@),
{
    let n = hay.len();
    let m = needle.len();
    let mut i: usize = 0;
    while i < m
        invariant
            n == hay@.len(),
            m == needle@.len(),
            k + m <= n,
            i <= m,
            forall|j: int| 0 <= j < i ==> hay@[k + j] == needle@[j],
        decreases m - i,
    {
        if hay[k + i] != needle[i] {
            proof {
                assert(hay@.subrange(k as int, k as int + m as int)[i as int] == hay@[k + i]);
            }
            return false;
        }
        i = i + 1;
    }
    proof {
        assert(hay@.subrange(k as int, k as int + m as int) =~= needle@);
    }
    true
}

/// Search for `needle` anywhere in `hay`.
pub fn contains_sub(hay: &Vec<char>, needle: &Vec<char>) -> (r: bool)
    ensures
        r == spec_contains_sub(hay@, needle@),
{
    let n = hay.len();
    let m = needle.len();
    if m > n {
        return false;
    }
    if m == 0 {
        proof {
            assert(hay@.subrange(0, 0 + needle@.len() as int) =~= needle@);
        }
        return true;
    }
    let mut k: usize = 0;
    while k <= n - m
        invariant
            n == hay@.len(),
            m == needle@.len(),
            1 <= m <= n,
            k <= n - m + 1,
            forall|j: int|
                0 <= j < k ==> #[trigger] hay@.subrange(j, j + needle@.len() as int) != needle@,
        decreases n - m - k + 1,
    {
        if matches_at(hay, needle, k) {
            return true;
        }
        k = k + 1;
    }
    false
}



/// A character vector, lowercased ASCII-wise.
pub fn lower_chars(s: &Vec<char>) -> (v: Vec<char>)
    ensures
        v@ == lower_seq(s@),
{
    let n = s.len();
    let mut v: Vec<char> = Vec::new();
    let mut i: usize = 0;
    while i < n
        invariant
            n == s@.len(),
            i <= n,
            v@.len() == i,
            forall|j: int| 0 <= j < i ==> v@[j] == lower_char(s@[j]),
        decreases n - i,
    {
        v.push(lower_char_exec(s[i]));
        i = i + 1;
    }
    proof {
        assert(v@ =~= lower_seq(s@));
    }
    v
}

} // verus!
