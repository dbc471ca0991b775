//! Bit-flag sets whose set members are written as their names joined with `|`.

use vstd::prelude::*;

use crate::encode::{MultiValueEncoder, join, multivalue};
use crate::enum_set::{bit_set, lemma_bit_test};
use crate::url::{BufferedName, Params, UrlParamWriter, one};

verus! {

/// The views of a list of string slices.
pub open spec fn strs_view(v: Seq<&'static str>) -> Seq<Seq<char>> {
    v.map_values(|s: &'static str| s@)
}

/// The names among the first `n` whose bit is set in `bits`, in order.
pub open spec fn selected_names(bits: u64, names: Seq<Seq<char>>, n: nat) -> Seq<Seq<char>>
    decreases n,
{
    if n == 0 {
        Seq::empty()
    } else {
        let p = selected_names(bits, names, (n - 1) as nat);
        if bit_set(bits, (n - 1) as u64) {
            p.push(names[n - 1])
        } else {
            p
        }
    }
}

/// The names of the set flags, in declaration order.
pub open spec fn flag_names(bits: u64, names: Seq<Seq<char>>) -> Seq<Seq<char>> {
    selected_names(bits, names, names.len())
}

/// A flag set is left out when empty, else written as its names joined with `|`.
pub open spec fn flag_params(bits: u64, names: Seq<Seq<char>>, name: Seq<char>) -> Params {
    if flag_names(bits, names).len() == 0 {
        Params::empty()
    } else {
        one(name, join(flag_names(bits, names), seq!['|']))
    }
}

/// Writes the flag set `bits`, whose flag `i` is named `names[i]`, under `n`.
pub fn write_flags<W: UrlParamWriter>(bits: u64, names: &Vec<&'static str>, n: BufferedName, w: &mut W)
    requires
        old(w).inv(),
        names@.len() <= 64,
    ensures
        final(w).inv(),
        final(w).written() == old(w).written() + flag_params(bits, strs_view(names@), n.name()),
        final(w).setup() == old(w).setup(),
{
    let ghost all = strs_view(names@);
    let mut encoder = MultiValueEncoder::new(false);
    let mut any = false;
    let mut i: usize = 0;
    while i < names.len()
        invariant
            i <= names@.len() <= 64,
            all == strs_view(names@),
            encoder.wf(),
            !encoder.unit(),
            encoder.pushed() == selected_names(bits, all, i as nat),
            any == (encoder.pushed().len() > 0),
        decreases names@.len() - i,
    {
        proof {
            lemma_bit_test(bits, i as u64);
        }
        if bits & (1u64 << i as u64) != 0 {
            encoder.push(names[i]);
            any = true;
        }
        i += 1;
    }
    if any {
        let s = encoder.build();
        n.write(w, s.as_str());
        assert(final(w).written() =~= old(w).written() + flag_params(bits, all, n.name()));
    } else {
        assert(w.written() =~= w.written() + Params::empty());
    }
}

} // verus!
