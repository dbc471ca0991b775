//! Multi-valued parameter encoding: joining values with `|`, or with the
//! unit separator when a free-form value holds a `|` itself.

use vstd::prelude::*;

verus! {

/// `values` joined with `sep` between neighbours.
pub open spec fn join(values: Seq<Seq<char>>, sep: Seq<char>) -> Seq<char>
    decreases values.len(),
{
    if values.len() == 0 {
        Seq::empty()
    } else if values.len() == 1 {
        values[0]
    } else {
        join(values.drop_last(), sep) + sep + values.last()
    }
}

/// The separator placed between values: the unit separator `U+001F`, or `|`.
pub open spec fn separator(unit: bool) -> Seq<char> {
    if unit {
        seq!['\u{1F}']
    } else {
        seq!['|']
    }
}

/// The wire form of a value list: `a|b`, or `\u{1F}a\u{1F}b` in unit-separator mode.
pub open spec fn multivalue(unit: bool, values: Seq<Seq<char>>) -> Seq<char> {
    if unit {
        seq!['\u{1F}'] + join(values, seq!['\u{1F}'])
    } else {
        join(values, seq!['|'])
    }
}

/// Whether any of the values holds a `|`.
pub open spec fn any_holds_bar(values: Seq<Seq<char>>) -> bool {
    exists|i: int, j: int| 0 <= i < values.len() && 0 <= j < values[i].len() && values[i][j] == '|'
}

/// The wire form chosen for a value list, after scanning all of it:
/// unit-separator mode exactly when one of the values holds a `|`.
pub open spec fn encoded_values(values: Seq<Seq<char>>) -> Seq<char> {
    multivalue(any_holds_bar(values), values)
}

/// Incremental builder of a multi-valued wire value.
pub struct MultiValueEncoder {
    s: String,
    unit: bool,
    empty: bool,
    values: Ghost<Seq<Seq<char>>>,
}

impl MultiValueEncoder {
    /// The values pushed so far.
    pub closed spec fn pushed(&self) -> Seq<Seq<char>> {
        self.values@
    }

    /// Whether the unit separator is in use.
    pub closed spec fn unit(&self) -> bool {
        self.unit
    }

    pub closed spec fn wf(&self) -> bool {
        &&& self.s@ == multivalue(self.unit, self.values@)
        &&& self.empty == (self.values@.len() == 0)
    }

    pub fn new(use_unicode_separator: bool) -> (r: Self)
        ensures
            r.wf(),
            r.unit() == use_unicode_separator,
            r.pushed() == Seq::<Seq<char>>::empty(),
    {
        let s = if use_unicode_separator {
            let us = "\u{1F}";
            proof {
                reveal_strlit("\u{1F}");
            }
            assert(us@ =~= seq!['\u{1F}']);
            String::from_str(us)
        } else {
            String::new()
        };
        let r = MultiValueEncoder { s, unit: use_unicode_separator, empty: true, values: Ghost(Seq::empty()) };
        assert(r.s@ =~= multivalue(r.unit, r.values@));
        r
    }

    pub fn push(&mut self, s: &str)
        requires
            old(self).wf(),
        ensures
            final(self).wf(),
            final(self).unit() == old(self).unit(),
            final(self).pushed() == old(self).pushed().push(s@),
    {
        let ghost before = self.values@;
        if self.empty {
            self.empty = false;
        } else {
            if self.unit {
                let us = "\u{1F}";
                proof {
                    reveal_strlit("\u{1F}");
                }
                self.s.append(us);
            } else {
                let bar = "|";
                proof {
                    reveal_strlit("|");
                }
                self.s.append(bar);
            }
        }
        self.s.append(s);
        self.values = Ghost(before.push(s@));
        proof {
            let after = before.push(s@);
            assert(after.drop_last() =~= before);
            if before.len() == 0 {
                assert(join(after, separator(self.unit)) =~= s@);
            }
            assert(self.s@ =~= multivalue(self.unit, after));
        }
    }

    pub fn build(self) -> (r: String)
        requires
            self.wf(),
        ensures
            r@ == multivalue(self.unit(), self.pushed()),
    {
        self.s
    }
}


/// Whether `s` holds a `|`.
pub open spec fn holds_bar(s: Seq<char>) -> bool {
    exists|j: int| 0 <= j < s.len() && s[j] == '|'
}

pub fn contains_bar(s: &str) -> (r: bool)
    ensures
        r == holds_bar(s@),
{
    let n = s.unicode_len();
    let mut i: usize = 0;
    while i < n
        invariant
            n == s@.len(),
            i <= n,
            forall|j: int| 0 <= j < i ==> s@[j] != '|',
        decreases n - i,
    {
        if s.get_char(i) == '|' {
            return true;
        }
        i += 1;
    }
    false
}

/// The decimal digit character of `d < 10`.
pub open spec fn digit_char(d: nat) -> char {
    if d == 0 { '0' } else if d == 1 { '1' } else if d == 2 { '2' } else if d == 3 { '3' }
    else if d == 4 { '4' } else if d == 5 { '5' } else if d == 6 { '6' } else if d == 7 { '7' }
    else if d == 8 { '8' } else { '9' }
}

/// The decimal form of `n`, without leading zeros.
pub open spec fn decimal(n: nat) -> Seq<char>
    decreases n,
{
    if n < 10 {
        seq![digit_char(n)]
    } else {
        decimal(n / 10).push(digit_char(n % 10))
    }
}

fn digit_str(d: u64) -> (r: &'static str)
    requires
        d < 10,
    ensures
        r@ == seq![digit_char(d as nat)],
{
    proof {
        reveal_strlit("0");
        reveal_strlit("1");
        reveal_strlit("2");
        reveal_strlit("3");
        reveal_strlit("4");
        reveal_strlit("5");
        reveal_strlit("6");
        reveal_strlit("7");
        reveal_strlit("8");
        reveal_strlit("9");
    }
    let r = if d == 0 { "0" } else if d == 1 { "1" } else if d == 2 { "2" } else if d == 3 { "3" }
    else if d == 4 { "4" } else if d == 5 { "5" } else if d == 6 { "6" } else if d == 7 { "7" }
    else if d == 8 { "8" } else { "9" };
    assert(r@ =~= seq![digit_char(d as nat)]);
    r
}

/// Formats `n` in decimal.
pub fn decimal_string(n: u64) -> (r: String)
    ensures
        r@ == decimal(n as nat),
    decreases n,
{
    if n < 10 {
        String::from_str(digit_str(n))
    } else {
        let mut s = decimal_string(n / 10);
        s.append(digit_str(n % 10));
        assert(s@ =~= decimal(n as nat));
        s
    }
}

/// A value that can stand in a multi-valued parameter.
pub trait HasValue {
    /// The wire text of this value.
    spec fn value_spec(&self) -> Seq<char>;

    fn value(&self) -> (r: String)
        ensures
            r@ == self.value_spec(),
    ;
}

impl HasValue for String {
    open spec fn value_spec(&self) -> Seq<char> {
        self@
    }

    fn value(&self) -> (r: String) {
        self.clone()
    }
}

impl HasValue for u32 {
    open spec fn value_spec(&self) -> Seq<char> {
        decimal(*self as nat)
    }

    fn value(&self) -> (r: String) {
        decimal_string(*self as u64)
    }
}

impl HasValue for u64 {
    open spec fn value_spec(&self) -> Seq<char> {
        decimal(*self as nat)
    }

    fn value(&self) -> (r: String) {
        decimal_string(*self)
    }
}

/// The decimal form of `n`, with a leading `-` when negative.
pub open spec fn signed_decimal(n: int) -> Seq<char> {
    if n < 0 {
        seq!['-'] + decimal((-n) as nat)
    } else {
        decimal(n as nat)
    }
}

/// Formats `n` in decimal, with a leading `-` when negative.
pub fn signed_decimal_string(n: i64) -> (r: String)
    ensures
        r@ == signed_decimal(n as int),
{
    if n < 0 {
        let magnitude: u64 = if n == i64::MIN {
            9223372036854775808u64
        } else {
            (-n) as u64
        };
        let mut s = String::from_str("-");
        proof {
            reveal_strlit("-");
        }
        let digits = decimal_string(magnitude);
        s.append(digits.as_str());
        assert(s@ =~= signed_decimal(n as int));
        s
    } else {
        decimal_string(n as u64)
    }
}

impl HasValue for i32 {
    open spec fn value_spec(&self) -> Seq<char> {
        signed_decimal(*self as int)
    }

    fn value(&self) -> (r: String) {
        signed_decimal_string(*self as i64)
    }
}

/// The wire texts of a list of values.
pub open spec fn value_texts<T: HasValue>(values: Seq<T>) -> Seq<Seq<char>> {
    values.map_values(|v: T| v.value_spec())
}

/// Whether any of the values' wire texts holds a `|`.
fn any_contains_bar<T: HasValue>(values: &Vec<T>) -> (r: bool)
    ensures
        r == any_holds_bar(value_texts(values@)),
{
    let ghost texts = value_texts(values@);
    let mut i: usize = 0;
    while i < values.len()
        invariant
            i <= values@.len(),
            texts == value_texts(values@),
            forall|k: int| 0 <= k < i ==> !holds_bar(#[trigger] texts[k]),
        decreases values@.len() - i,
    {
        let v = values[i].value();
        if contains_bar(v.as_str()) {
            proof {
                let j = choose|j: int| 0 <= j < v@.len() && v@[j] == '|';
                assert(texts[i as int][j] == '|');
            }
            return true;
        }
        i += 1;
    }
    proof {
        assert forall|a: int, b: int| 0 <= a < texts.len() && 0 <= b < texts[a].len() implies texts[a][b] != '|' by {
            assert(!holds_bar(texts[a]));
        }
    }
    false
}

/// Joins the values' wire texts into one parameter value.
#[must_use]
pub fn encode_multivalue<T: HasValue>(values: &Vec<T>) -> (r: String)
    ensures
        r@ == encoded_values(value_texts(values@)),
{
    let ghost texts = value_texts(values@);
    let use_unicode = any_contains_bar(values);
    let mut encoder = MultiValueEncoder::new(use_unicode);
    let mut i: usize = 0;
    while i < values.len()
        invariant
            i <= values@.len(),
            texts == value_texts(values@),
            encoder.wf(),
            encoder.unit() == use_unicode,
            encoder.pushed() =~= texts.take(i as int),
        decreases values@.len() - i,
    {
        let v = values[i].value();
        encoder.push(v.as_str());
        assert(texts.take(i as int + 1) =~= texts.take(i as int).push(texts[i as int]));
        i += 1;
    }
    assert(texts.take(i as int) =~= texts);
    encoder.build()
}

} // verus!
