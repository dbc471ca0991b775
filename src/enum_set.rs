//! An ordered, duplicate-free set of enum variants, kept with a bitmask.

use vstd::prelude::*;

use crate::encode::{MultiValueEncoder, any_holds_bar, contains_bar, encoded_values, holds_bar, multivalue};
use crate::url::{BufferedName, Params, UrlParamWriter, WriteUrlValue, one};

verus! {

/// A closed enum whose variants have wire names.
pub trait NamedEnum {
    spec fn name_spec(&self) -> Seq<char>;

    fn variant_name(&self) -> (r: &'static str)
        ensures
            r@ == self.name_spec(),
    ;
}

/// A closed enum whose variants each own one bit of a 64-bit mask.
pub trait BitflaggedEnum: NamedEnum {
    /// The bit position of this variant.
    spec fn bit_spec(&self) -> nat;

    /// A bit stands for one variant: values with the same bit have the same
    /// wire name.
    proof fn lemma_bit_names(a: &Self, b: &Self)
        ensures
            a.bit_spec() == b.bit_spec() ==> a.name_spec() == b.name_spec(),
    ;

    fn bit(&self) -> (r: u32)
        ensures
            r as nat == self.bit_spec(),
            r < 64,
    ;
}

/// Whether bit `b` of `m` is set.
pub open spec fn bit_set(m: u64, b: u64) -> bool {
    (m >> b) & 1u64 == 1u64
}

pub proof fn lemma_bit_test(m: u64, b: u64)
    requires
        b < 64,
    ensures
        ((m & (1u64 << b)) != 0u64) == bit_set(m, b),
{
    assert(((m & (1u64 << b)) != 0u64) == ((m >> b) & 1u64 == 1u64)) by (bit_vector)
        requires b < 64;
}

proof fn lemma_bit_or(m: u64, b: u64, c: u64)
    requires
        b < 64,
        c < 64,
    ensures
        bit_set(m | (1u64 << b), c) == (bit_set(m, c) || c == b),
{
    assert((((m | (1u64 << b)) >> c) & 1u64 == 1u64) == (((m >> c) & 1u64 == 1u64) || c == b)) by (bit_vector)
        requires b < 64, c < 64;
}

proof fn lemma_bit_zero(c: u64)
    requires
        c < 64,
    ensures
        !bit_set(0u64, c),
{
    assert(((0u64 >> c) & 1u64) != 1u64) by (bit_vector)
        requires c < 64;
}

/// Whether a variant with bit `b` is in `s`.
pub open spec fn has_bit<T: BitflaggedEnum>(s: Seq<T>, b: nat) -> bool {
    exists|i: int| 0 <= i < s.len() && (#[trigger] s[i]).bit_spec() == b
}

/// No two elements of `s` share a bit.
pub open spec fn distinct_bits<T: BitflaggedEnum>(s: Seq<T>) -> bool {
    forall|i: int, j: int| 0 <= i < j < s.len() ==> (#[trigger] s[i]).bit_spec() != (#[trigger] s[j]).bit_spec()
}

/// `s` after inserting `x`: unchanged when a variant with the same bit is
/// already there, else `x` at the end.
pub open spec fn set_inserted<T: BitflaggedEnum>(s: Seq<T>, x: T) -> Seq<T> {
    if has_bit(s, x.bit_spec()) {
        s
    } else {
        s.push(x)
    }
}

/// `s` after inserting each of `xs` in turn.
pub open spec fn set_inserted_all<T: BitflaggedEnum>(s: Seq<T>, xs: Seq<T>) -> Seq<T>
    decreases xs.len(),
{
    if xs.len() == 0 {
        s
    } else {
        set_inserted(set_inserted_all(s, xs.drop_last()), xs.last())
    }
}

/// How many elements of `s` have bit `b`.
pub open spec fn count_bit<T: BitflaggedEnum>(s: Seq<T>, b: nat) -> nat
    decreases s.len(),
{
    if s.len() == 0 {
        0
    } else {
        count_bit(s.drop_last(), b) + if s.last().bit_spec() == b { 1nat } else { 0nat }
    }
}

proof fn lemma_count_bit<T: BitflaggedEnum>(s: Seq<T>, b: nat)
    requires
        distinct_bits(s),
    ensures
        count_bit(s, b) == if has_bit(s, b) { 1nat } else { 0nat },
    decreases s.len(),
{
    if s.len() > 0 {
        let p = s.drop_last();
        assert(distinct_bits(p)) by {
            assert forall|i: int, j: int| 0 <= i < j < p.len() implies p[i].bit_spec() != p[j].bit_spec() by {
                assert(p[i] == s[i] && p[j] == s[j]);
            }
        }
        lemma_count_bit(p, b);
        if has_bit(p, b) {
            let i = choose|i: int| 0 <= i < p.len() && p[i].bit_spec() == b;
            assert(s[i] == p[i]);
            assert(s.last() == s[s.len() - 1]);
            assert(has_bit(s, b));
        } else if s.last().bit_spec() == b {
            assert(s[s.len() - 1].bit_spec() == b);
        } else {
            assert forall|i: int| 0 <= i < s.len() implies s[i].bit_spec() != b by {
                if i < s.len() - 1 {
                    assert(s[i] == p[i]);
                }
            }
        }
    }
}

/// Inserting a variant twice is the same as inserting it once: it stands in
/// the set, and so on the wire, exactly once, at the place of its first
/// insertion, and the elements before it keep their order.
pub proof fn lemma_insert_twice<T: BitflaggedEnum>(s: Seq<T>, x: T)
    requires
        distinct_bits(s),
    ensures
        set_inserted(set_inserted(s, x), x) == set_inserted(s, x),
        distinct_bits(set_inserted(s, x)),
        count_bit(set_inserted(s, x), x.bit_spec()) == 1,
        set_inserted(s, x).take(s.len() as int) == s,
{
    let t = set_inserted(s, x);
    if !has_bit(s, x.bit_spec()) {
        assert(t[s.len() as int] == x);
        assert(has_bit(t, x.bit_spec()));
        assert forall|i: int, j: int| 0 <= i < j < t.len() implies t[i].bit_spec() != t[j].bit_spec() by {
            if j == s.len() {
                assert(t[i] == s[i]);
            } else {
                assert(t[i] == s[i] && t[j] == s[j]);
            }
        }
    }
    assert(t.take(s.len() as int) =~= s);
    lemma_count_bit(t, x.bit_spec());
}

/// Re-inserting a variant that is already present leaves the set as it was.
pub proof fn lemma_insert_present<T: BitflaggedEnum>(s: Seq<T>, i: int, y: T)
    requires
        0 <= i < s.len(),
        s[i].bit_spec() == y.bit_spec(),
    ensures
        set_inserted(s, y) == s,
{
}

/// An ordered set of enum variants, no two with the same bit.
#[derive(Clone, Debug)]
pub struct EnumSet<T> {
    flag: u64,
    values: Vec<T>,
}

impl<T> View for EnumSet<T> {
    type V = Seq<T>;

    closed spec fn view(&self) -> Seq<T> {
        self.values@
    }
}

impl<T: BitflaggedEnum> EnumSet<T> {
    pub closed spec fn wf(&self) -> bool {
        &&& distinct_bits(self.values@)
        &&& forall|i: int| 0 <= i < self.values@.len() ==> (#[trigger] self.values@[i]).bit_spec() < 64
        &&& forall|b: u64| b < 64 ==> (bit_set(self.flag, b) == has_bit(self.values@, b as nat))
    }

    pub fn new() -> (r: Self)
        ensures
            r.wf(),
            r@ == Seq::<T>::empty(),
    {
        let r = EnumSet { flag: 0, values: Vec::new() };
        assert forall|b: u64| b < 64 implies (bit_set(r.flag, b) == has_bit(r.values@, b as nat)) by {
            lemma_bit_zero(b);
        }
        r
    }

    pub fn new_one(x: T) -> (r: Self)
        ensures
            r.wf(),
            r@ == seq![x],
    {
        let mut r = Self::new();
        r.insert(x);
        assert(r@ =~= seq![x]);
        r
    }

    /// The set of `values`, in order of first occurrence, each variant once.
    pub fn from_vec(values: Vec<T>) -> (r: Self)
        ensures
            r.wf(),
            r@ == set_inserted_all(Seq::empty(), values@),
    {
        let ghost all = values@;
        let n = values.len();
        let mut rest = values;
        let mut r = Self::new();
        let mut k: usize = 0;
        while rest.len() > 0
            invariant
                r.wf(),
                k <= all.len(),
                all.len() == n,
                rest@ == all.skip(k as int),
                r@ == set_inserted_all(Seq::empty(), all.take(k as int)),
            decreases rest@.len(),
        {
            let x = rest.remove(0);
            assert(x == all[k as int]);
            r.insert(x);
            assert(all.take(k as int + 1).drop_last() =~= all.take(k as int));
            assert(rest@ =~= all.skip(k as int + 1));
            k += 1;
        }
        assert(all.take(k as int) =~= all);
        r
    }

    /// Adds `x` at the end unless a variant with its bit is present; says
    /// whether it was added.
    pub fn insert(&mut self, x: T) -> (r: bool)
        requires
            old(self).wf(),
        ensures
            final(self).wf(),
            r == !has_bit(old(self)@, x.bit_spec()),
            final(self)@ == set_inserted(old(self)@, x),
    {
        let b = x.bit();
        let mask = 1u64 << b;
        proof {
            lemma_bit_test(self.flag, b as u64);
        }
        if self.flag & mask != 0 {
            return false;
        }
        let ghost old_flag = self.flag;
        let ghost old_values = self.values@;
        self.flag = self.flag | mask;
        self.values.push(x);
        proof {
            assert(self.values@[old_values.len() as int] == x);
            assert forall|c: u64| c < 64 implies (bit_set(self.flag, c) == has_bit(self.values@, c as nat)) by {
                lemma_bit_or(old_flag, b as u64, c);
                if has_bit(old_values, c as nat) {
                    let i = choose|i: int| 0 <= i < old_values.len() && old_values[i].bit_spec() == c as nat;
                    assert(self.values@[i] == old_values[i]);
                }
                if has_bit(self.values@, c as nat) && c != b as u64 {
                    let i = choose|i: int| 0 <= i < self.values@.len() && self.values@[i].bit_spec() == c as nat;
                    assert(old_values[i] == self.values@[i]);
                }
            }
            assert forall|i: int, j: int| 0 <= i < j < self.values@.len() implies
                (#[trigger] self.values@[i]).bit_spec() != (#[trigger] self.values@[j]).bit_spec() by {
                assert(self.values@[i] == old_values[i]);
                if j < old_values.len() {
                    assert(self.values@[j] == old_values[j]);
                } else {
                    assert(old_values[i].bit_spec() < 64);
                    assert(!bit_set(old_flag, b as u64));
                }
            }
        }
        true
    }
}

/// The wire names of the variants, in order.
pub open spec fn names_of<T: NamedEnum>(s: Seq<T>) -> Seq<Seq<char>> {
    s.map_values(|v: T| v.name_spec())
}

impl<T: NamedEnum> EnumSet<T> {
    /// Whether the name of a variant in the set holds a `|`.
    fn names_hold_bar(&self) -> (r: bool)
        ensures
            r == any_holds_bar(names_of(self@)),
    {
        let ghost names = names_of(self@);
        let mut i: usize = 0;
        while i < self.values.len()
            invariant
                i <= self.values@.len(),
                names == names_of(self@),
                forall|k: int| 0 <= k < i ==> !holds_bar(#[trigger] names[k]),
            decreases self.values@.len() - i,
        {
            let v = self.values[i].variant_name();
            if contains_bar(v) {
                proof {
                    let j = choose|j: int| 0 <= j < v@.len() && v@[j] == '|';
                    assert(names[i as int][j] == '|');
                }
                return true;
            }
            i += 1;
        }
        proof {
            assert forall|a: int, b: int| 0 <= a < names.len() && 0 <= b < names[a].len() implies names[a][b]
                != '|' by {
                assert(!holds_bar(names[a]));
            }
        }
        false
    }
}

/// The extra parameters of the variants, one after another.
pub open spec fn extras_of<T: WriteUrlValue>(s: Seq<T>) -> Params
    decreases s.len(),
{
    if s.len() == 0 {
        Params::empty()
    } else {
        extras_of(s.drop_last()) + s.last().extra_params()
    }
}

/// The parameters a set with elements `s` writes under `name`: none when
/// empty; otherwise the variant names joined with `|`, or in unit-separator
/// form when a name holds a `|`, then each variant's own extra parameters.
pub open spec fn set_params<T: NamedEnum + WriteUrlValue>(s: Seq<T>, name: Seq<char>) -> Params {
    if s.len() == 0 {
        Params::empty()
    } else {
        one(name, encoded_values(names_of(s))) + extras_of(s)
    }
}

/// On the wire, inserting a variant twice is the same as inserting it once.
pub proof fn lemma_insert_twice_on_wire<T: BitflaggedEnum + WriteUrlValue>(s: Seq<T>, x: T, name: Seq<char>)
    requires
        distinct_bits(s),
    ensures
        set_params(set_inserted(set_inserted(s, x), x), name) == set_params(set_inserted(s, x), name),
{
    lemma_insert_twice(s, x);
}

impl<T: BitflaggedEnum + NamedEnum + WriteUrlValue> WriteUrlValue for EnumSet<T> {
    open spec fn value_params(&self, name: Seq<char>) -> Params {
        set_params(self@, name)
    }

    open spec fn extra_params(&self) -> Params {
        extras_of(self@)
    }

    fn ser<W: UrlParamWriter>(&self, n: BufferedName, w: &mut W) {
        if self.values.len() == 0 {
            assert(w.written() =~= w.written() + Params::empty());
            return;
        }
        let ghost names = names_of(self@);
        let unit = self.names_hold_bar();
        let mut encoder = MultiValueEncoder::new(unit);
        let mut i: usize = 0;
        while i < self.values.len()
            invariant
                i <= self.values@.len(),
                names == names_of(self@),
                encoder.wf(),
                encoder.unit() == unit,
                unit == any_holds_bar(names),
                encoder.pushed() =~= names.take(i as int),
            decreases self.values@.len() - i,
        {
            let v = self.values[i].variant_name();
            encoder.push(v);
            assert(names.take(i as int + 1) =~= names.take(i as int).push(names[i as int]));
            i += 1;
        }
        assert(names.take(i as int) =~= names);
        let s = encoder.build();
        let ghost mid = w.written();
        n.write(w, s.as_str());
        assert(s@ == multivalue(unit, names));
        self.ser_additional_only(w);
        assert(final(w).written() =~= mid + self.value_params(n.name()));
    }

    fn ser_additional_only<W: UrlParamWriter>(&self, w: &mut W) {
        let ghost start = w.written();
        let ghost setup = w.setup();
        let mut i: usize = 0;
        while i < self.values.len()
            invariant
                i <= self.values@.len(),
                w.inv(),
                w.setup() == setup,
                w.written() =~= start + extras_of(self@.take(i as int)),
            decreases self.values@.len() - i,
        {
            self.values[i].ser_additional_only(w);
            assert(self@.take(i as int + 1).drop_last() =~= self@.take(i as int));
            i += 1;
        }
        assert(self@.take(i as int) =~= self@);
    }
}

} // verus!
