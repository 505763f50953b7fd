use vstd::prelude::*;
use vstd::string::*;
use crate::text::{digit_char, digits_of};

verus! {

/// The number of pattern demos the menu offers.
pub const DEMO_COUNT: u32 = 15;

/// What a line typed at the menu asks for.
#[derive(Debug, Clone, Copy, PartialEq, Eq, Structural)]
pub enum MenuChoice {
    /// Run the demo with this number, from 1 to [`DEMO_COUNT`].
    Demo(u32),
    /// Show the interview tips.
    Tips,
    /// Leave the menu.
    Exit,
    /// A number, but not one the menu offers.
    OutOfRange,
    /// Not a number.
    NotANumber,
}

/// The value of the decimal digit `c`.
pub open spec fn digit_value(c: char) -> nat {
    (c as u32 - '0' as u32) as nat
}

pub open spec fn is_digit(c: char) -> bool {
    '0' <= c && c <= '9'
}

/// The number the decimal digits `d` spell.
pub open spec fn digits_value(d: Seq<char>) -> nat
    decreases d.len(),
{
    if d.len() == 0 {
        0
    } else {
        digits_value(d.drop_last()) * 10 + digit_value(d.last())
    }
}

/// The digits after an optional leading `+`.
pub open spec fn unsigned_body(s: Seq<char>) -> Seq<char> {
    if s.len() > 0 && s[0] == '+' {
        s.subrange(1, s.len() as int)
    } else {
        s
    }
}

/// The `u32` that `s` spells in decimal, as `str::parse::<u32>` reads it:
/// an optional `+`, then one or more digits, of value at most `u32::MAX`.
pub open spec fn parsed_u32(s: Seq<char>) -> Option<u32> {
    let d = unsigned_body(s);
    if d.len() > 0 && (forall|i: int| 0 <= i < d.len() ==> is_digit(#[trigger] d[i]))
        && digits_value(d) <= u32::MAX {
        Some(digits_value(d) as u32)
    } else {
        None
    }
}

/// Reads `s` as a decimal `u32`; see [`parsed_u32`].
pub fn parse_u32(s: &str) -> (r: Option<u32>)
    ensures
        r == parsed_u32(s@),
{
    let n = s.unicode_len();
    let start: usize = if n > 0 && s.get_char(0) == '+' { 1 } else { 0 };
    let ghost d = unsigned_body(s@);
    assert(d =~= s@.subrange(start as int, n as int));
    if start == n {
        return None;
    }
    let mut acc: u64 = 0;
    let mut over = false;
    let mut i: usize = start;
    while i < n
        invariant
            n == s@.len(),
            start <= i <= n,
            d == s@.subrange(start as int, n as int),
            d == unsigned_body(s@),
            forall|j: int| 0 <= j < i - start ==> is_digit(#[trigger] d[j]),
            !over ==> acc == digits_value(d.subrange(0, i - start)) && acc <= u32::MAX,
            over ==> digits_value(d.subrange(0, i - start)) > u32::MAX,
        decreases n - i,
    {
        let c = s.get_char(i);
        let ghost pre = d.subrange(0, i - start);
        let ghost next = d.subrange(0, i - start + 1);
        assert(next.drop_last() =~= pre);
        assert(next.last() == c);
        if !('0' <= c && c <= '9') {
            assert(!is_digit(d[i - start]));
            assert(!(forall|j: int| 0 <= j < d.len() ==> is_digit(#[trigger] d[j])));
            return None;
        }
        if !over {
            acc = acc * 10 + (c as u64 - '0' as u64);
            if acc > 0xffff_ffffu64 {
                over = true;
            }
        }
        i = i + 1;
    }
    assert(d.subrange(0, n - start) =~= d);
    if over {
        None
    } else {
        Some(acc as u32)
    }
}

proof fn lemma_digit_char(d: nat)
    requires
        d < 10,
    ensures
        is_digit(digit_char(d)),
        digit_value(digit_char(d)) == d,
{
}

proof fn lemma_digits_read_back(n: nat)
    ensures
        digits_of(n).len() > 0,
        forall|i: int| 0 <= i < digits_of(n).len() ==> is_digit(#[trigger] digits_of(n)[i]),
        digits_value(digits_of(n)) == n,
    decreases n,
{
    if n < 10 {
        lemma_digit_char(n);
        assert(digits_of(n).drop_last() =~= Seq::<char>::empty());
        assert(digits_value(Seq::<char>::empty()) == 0);
        assert(digits_value(digits_of(n)) == digits_value(digits_of(n).drop_last()) * 10
            + digit_value(digits_of(n).last()));
    } else {
        lemma_digits_read_back(n / 10);
        lemma_digit_char(n % 10);
        assert(digits_of(n).drop_last() =~= digits_of(n / 10));
        assert(digits_of(n).last() == digit_char(n % 10));
        assert((n / 10) * 10 + n % 10 == n);
        assert(digits_value(digits_of(n)) == digits_value(digits_of(n).drop_last()) * 10
            + digit_value(digits_of(n).last()));
        assert forall|i: int| 0 <= i < digits_of(n).len() implies is_digit(
            #[trigger] digits_of(n)[i],
        ) by {
            if i < digits_of(n / 10).len() {
                assert(digits_of(n)[i] == digits_of(n / 10)[i]);
            }
        }
    }
}

/// Reading back a number written in decimal gives the number.
pub proof fn lemma_parse_of_decimal(n: u32)
    ensures
        parsed_u32(digits_of(n as nat)) == Some(n),
{
    lemma_digits_read_back(n as nat);
    let s = digits_of(n as nat);
    assert(is_digit(s[0]));
    assert(unsigned_body(s) == s);
}

/// What the trimmed line `s` asks for.
pub open spec fn choice_of(s: Seq<char>) -> MenuChoice {
    if s == "16"@ {
        MenuChoice::Tips
    } else if s == "17"@ {
        MenuChoice::Exit
    } else {
        match parsed_u32(s) {
            Some(n) => if 1 <= n <= DEMO_COUNT {
                MenuChoice::Demo(n)
            } else {
                MenuChoice::OutOfRange
            },
            None => MenuChoice::NotANumber,
        }
    }
}

fn same_text(a: &str, b: &str) -> (r: bool)
    ensures
        r == (a@ == b@),
{
    String::from_str(a) == String::from_str(b)
}

/// Typing the number of any demo selects exactly that demo.
pub proof fn lemma_demo_numbers_select_demos(n: u32)
    requires
        1 <= n <= DEMO_COUNT,
    ensures
        choice_of(digits_of(n as nat)) == MenuChoice::Demo(n),
{
    lemma_parse_of_decimal(n);
    lemma_digits_read_back(n as nat);
    lemma_parse_of_decimal(16);
    lemma_parse_of_decimal(17);
    reveal_strlit("16");
    reveal_strlit("17");
    assert(digits_of(1) == seq![digit_char(1)]);
    assert(digits_of(16) =~= "16"@);
    assert(digits_of(17) =~= "17"@);
}

/// What the already trimmed line `s` asks for.
pub fn classify_choice(s: &str) -> (r: MenuChoice)
    ensures
        r == choice_of(s@),
{
    if same_text(s, "16") {
        MenuChoice::Tips
    } else if same_text(s, "17") {
        MenuChoice::Exit
    } else {
        match parse_u32(s) {
            Some(n) => if 1 <= n && n <= DEMO_COUNT {
                MenuChoice::Demo(n)
            } else {
                MenuChoice::OutOfRange
            },
            None => MenuChoice::NotANumber,
        }
    }
}

/// Whether `c` has the Unicode White_Space property, which `str::trim`
/// goes by.
pub open spec fn is_white_space(c: char) -> bool {
    ('\u{9}' <= c && c <= '\u{d}') || c == ' ' || c == '\u{85}' || c == '\u{a0}' || c
        == '\u{1680}' || ('\u{2000}' <= c && c <= '\u{200a}') || c == '\u{2028}' || c
        == '\u{2029}' || c == '\u{202f}' || c == '\u{205f}' || c == '\u{3000}'
}

/// `s` without its leading white space.
pub open spec fn trim_start(s: Seq<char>) -> Seq<char>
    decreases s.len(),
{
    if s.len() > 0 && is_white_space(s[0]) {
        trim_start(s.drop_first())
    } else {
        s
    }
}

/// `s` without its trailing white space.
pub open spec fn trim_end(s: Seq<char>) -> Seq<char>
    decreases s.len(),
{
    if s.len() > 0 && is_white_space(s.last()) {
        trim_end(s.drop_last())
    } else {
        s
    }
}

/// `s` without leading and trailing white space, as `str::trim` gives it.
pub open spec fn trimmed(s: Seq<char>) -> Seq<char> {
    trim_end(trim_start(s))
}

fn white_space(c: char) -> (r: bool)
    ensures
        r == is_white_space(c),
{
    ('\u{9}' <= c && c <= '\u{d}') || c == ' ' || c == '\u{85}' || c == '\u{a0}' || c
        == '\u{1680}' || ('\u{2000}' <= c && c <= '\u{200a}') || c == '\u{2028}' || c
        == '\u{2029}' || c == '\u{202f}' || c == '\u{205f}' || c == '\u{3000}'
}

/// `s` without leading and trailing white space.
pub fn trim(s: &str) -> (r: &str)
    ensures
        r@ == trimmed(s@),
{
    let n = s.unicode_len();
    let mut i: usize = 0;
    assert(s@.subrange(0, n as int) =~= s@);
    while i < n && white_space(s.get_char(i))
        invariant
            n == s@.len(),
            i <= n,
            trim_start(s@) == trim_start(s@.subrange(i as int, n as int)),
        decreases n - i,
    {
        assert(s@.subrange(i as int, n as int).drop_first() =~= s@.subrange(i + 1, n as int));
        i = i + 1;
    }
    let mut j: usize = n;
    assert(trim_start(s@) == s@.subrange(i as int, n as int));
    while j > i && white_space(s.get_char(j - 1))
        invariant
            n == s@.len(),
            i <= j <= n,
            trimmed(s@) == trim_end(s@.subrange(i as int, j as int)),
        decreases j,
    {
        assert(s@.subrange(i as int, j as int).drop_last() =~= s@.subrange(i as int, j - 1));
        j = j - 1;
    }
    assert(trimmed(s@) == s@.subrange(i as int, j as int));
    s.substring_char(i, j)
}

/// `s` in lower case, as `str::to_lowercase` gives it.
pub uninterp spec fn lower_of(s: Seq<char>) -> Seq<char>;

/// Relies on str::to_lowercase: the result depends on the text alone.
#[verifier::external_body]
fn lowercase(s: &str) -> (r: String)
    ensures
        r@ == lower_of(s@),
{
    s.to_lowercase()
}

/// Whether the already trimmed, lower-case answer `s` is a yes.
pub open spec fn is_yes(s: Seq<char>) -> bool {
    s == "y"@ || s == "yes"@
}

/// Whether the already trimmed, lower-case answer `s` is a yes.
pub fn affirmative(s: &str) -> (r: bool)
    ensures
        r == is_yes(s@),
{
    same_text(s, "y") || same_text(s, "yes")
}

/// The text menu that dispatches to the pattern demos.
pub struct DesignPatternsMenu;

impl DesignPatternsMenu {
    pub fn new() -> (r: Self) {
        DesignPatternsMenu
    }

    /// What the line typed at the menu asks for, once trimmed.
    pub fn select(&self, line: &str) -> (r: MenuChoice)
        ensures
            r == choice_of(trimmed(line@)),
    {
        classify_choice(trim(line))
    }

    /// Whether the answer to "explore another pattern?" is a yes, in any case
    /// and with surrounding white space.
    pub fn wants_another(&self, line: &str) -> (r: bool)
        ensures
            r == is_yes(lower_of(trimmed(line@))),
    {
        let lowered = lowercase(trim(line));
        affirmative(lowered.as_str())
    }
}

} // verus!
