use crate::arith::{isqrt_spec, isqrt_u128};
use crate::data::languages::get_language;
use crate::text::{capitalize_spec, capitalize_word, dec_seq, lemma_dec_seq_nonempty, u64_to_string};
use crate::types::GeneratorConfig;
use vstd::prelude::*;
use vstd::string::*;

verus! {

// ── Randomness ──────────────────────────────────────────────────────

/// Relies on rand's `random_range` over `0..n`: a uniform draw that is
/// always below `n`; nothing more can be promised of a random value.
#[verifier::external_body]
fn rand_below(n: u64) -> (r: u64)
    requires
        n >= 1,
    ensures
        r < n,
{
    rand::RngExt::random_range(&mut rand::rng(), 0..n)
}

// ── The power-law draw ──────────────────────────────────────────────

/// The index the power-law draw picks: with `x` uniform below 2^21 standing
/// for `r = x / 2^21` in the unit interval, this is `floor(r^1.5 * len)` —
/// the square root of `x^3 * len^2 / 2^63` — clamped into range. Front-loaded
/// lists thus favour their frequent early words.
pub open spec fn spec_power_index(x: nat, len: nat) -> nat {
    let raw = isqrt_spec((x * x * x * (len * len)) / 0x8000_0000_0000_0000);
    if raw >= len - 1 {
        (len - 1) as nat
    } else {
        raw
    }
}

fn power_law_index(x: u64, len: usize) -> (i: usize)
    requires
        x < 0x20_0000,
        1 <= len <= 0xffff_ffff,
    ensures
        i == spec_power_index(x as nat, len as nat),
        i < len,
{
    let xx = x as u128;
    let ll = len as u128;
    proof {
        assert(xx * xx <= 0x4_0000_0000_0000 && xx * xx * xx <= 0x8000_0000_0000_0000 && ll * ll
            <= 0x1_0000_0000_0000_0000) by (nonlinear_arith)
            requires
                0 <= xx < 0x20_0000,
                0 <= ll <= 0xffff_ffff,
        ;
        assert((xx * xx * xx) * (ll * ll) <= 0x8000_0000_0000_0000 * 0x1_0000_0000_0000_0000)
            by (nonlinear_arith)
            requires
                0 <= xx * xx * xx <= 0x8000_0000_0000_0000,
                0 <= ll * ll <= 0x1_0000_0000_0000_0000,
        ;
    }
    let cube = xx * xx * xx;
    let q = (cube * (ll * ll)) / 0x8000_0000_0000_0000u128;
    let raw = isqrt_u128(q);
    if raw >= ll - 1 {
        len - 1
    } else {
        raw as usize
    }
}

// ── Generating a session's words ────────────────────────────────────

/// Whether `w` is the text of some word of `list`.
pub open spec fn in_list(w: Seq<char>, list: Seq<String>) -> bool {
    exists|j: int| 0 <= j < list.len() && w == (#[trigger] list[j])@
}

/// Whether `w` spells a decimal number of up to four digits, as the digits
/// mode writes one.
pub open spec fn is_small_decimal(w: Seq<char>) -> bool {
    exists|v: nat| v <= 9999 && w == dec_seq(v)
}

/// Whether `w` could be one slot of the generated sequence: a list word or —
/// in digits mode — a small decimal, then possibly reshaped by the
/// punctuation pass.
pub open spec fn is_generated_word(
    w: Seq<char>,
    list: Seq<String>,
    punctuation: bool,
    numbers: bool,
) -> bool {
    exists|base: Seq<char>|
        {
            &&& (in_list(base, list) || (numbers && is_small_decimal(base)))
            &&& (#[trigger] is_punct_variant(base, w))
            &&& (!punctuation ==> w == base)
        }
}

/// Whether `new` is `orig` after the punctuation pass touched it: possibly
/// capitalized, possibly with a period or comma appended.
pub open spec fn is_punct_variant(orig: Seq<char>, new: Seq<char>) -> bool {
    ||| new == orig
    ||| new == capitalize_spec(orig)
    ||| new == orig.push('.')
    ||| new == capitalize_spec(orig).push('.')
    ||| new == orig.push(',')
    ||| new == capitalize_spec(orig).push(',')
}

/// The punctuation pass: the first word starts a sentence and is
/// capitalized; from the second word on, a period ends a sentence with
/// ~12% probability (the next word then starts one), and otherwise a word
/// mid-sentence draws a comma with ~6% probability.
fn apply_punctuation(words: &mut Vec<String>)
    ensures
        final(words)@.len() == old(words)@.len(),
        forall|i: int|
            0 <= i < old(words)@.len() ==> is_punct_variant(
                (#[trigger] old(words)@[i])@,
                final(words)@[i]@,
            ),
        old(words)@.len() > 0 ==> (final(words)@[0]@ == capitalize_spec(old(words)@[0]@)
            || final(words)@[0]@ == capitalize_spec(old(words)@[0]@).push(',')),
{
    let ghost orig = words@;
    let n = words.len();
    let mut sentence_start = true;
    let mut i: usize = 0;
    while i < n
        invariant
            n == words@.len(),
            n == orig.len(),
            i <= n,
            i == 0 ==> sentence_start,
            forall|j: int| i <= j < n ==> words@[j] == orig[j],
            forall|j: int|
                0 <= j < i ==> is_punct_variant((#[trigger] orig[j])@, words@[j]@),
            orig.len() > 0 && i > 0 ==> (words@[0]@ == capitalize_spec(orig[0]@) || words@[0]@
                == capitalize_spec(orig[0]@).push(',')),
        decreases n - i,
    {
        let ghost before = words@[i as int]@;
        let mut capitalized = false;
        if sentence_start {
            let cap = capitalize_word(&words[i]);
            words.set(i, cap);
            sentence_start = false;
            capitalized = true;
            proof {
                assert(words@[i as int]@ == capitalize_spec(before));
            }
        }
        proof {
            reveal_strlit(".");
            reveal_strlit(",");
            assert("."@ =~= seq!['.']);
            assert(","@ =~= seq![',']);
        }
        if i > 0 && rand_below(100) < 12 {
            let w = &mut words[i];
            w.append(".");
            sentence_start = true;
            proof {
                assert(words@[i as int]@ =~= (if capitalized {
                    capitalize_spec(before)
                } else {
                    before
                }).push('.'));
            }
        } else if !sentence_start && rand_below(100) < 6 {
            let w = &mut words[i];
            w.append(",");
            proof {
                assert(words@[i as int]@ =~= (if capitalized {
                    capitalize_spec(before)
                } else {
                    before
                }).push(','));
            }
        }
        proof {
            if i == 0 && n > 0 {
                assert(words@[0]@ == capitalize_spec(orig[0]@) || words@[0]@ == capitalize_spec(
                    orig[0]@,
                ).push(','));
            }
        }
        i = i + 1;
    }
}

/// Generate `count` words for a session out of `list`. Each slot draws a
/// list word by the power-law bias; with digits on, about 8% of slots hold a
/// random decimal of one to four digits instead; with punctuation on, the
/// sentence pass then capitalizes and punctuates. Exactly `count` words come
/// back, none empty, and with both extras off every one is drawn from the
/// list as it stands.
pub fn generate_from_list(list: &Vec<String>, count: usize, punctuation: bool, numbers: bool) -> (
    words: Vec<String>)
    requires
        1 <= list@.len() <= 0xffff_ffff,
        forall|i: int| 0 <= i < list@.len() ==> (#[trigger] list@[i])@.len() > 0,
    ensures
        words@.len() == count,
        forall|i: int| 0 <= i < words@.len() ==> (#[trigger] words@[i])@.len() > 0,
        forall|i: int|
            0 <= i < words@.len() ==> is_generated_word(
                (#[trigger] words@[i])@,
                list@,
                punctuation,
                numbers,
            ),
        !numbers && !punctuation ==> forall|i: int|
            0 <= i < words@.len() ==> in_list((#[trigger] words@[i])@, list@),
{
    let mut words: Vec<String> = Vec::new();
    let mut k: usize = 0;
    while k < count
        invariant
            1 <= list@.len() <= 0xffff_ffff,
            forall|i: int| 0 <= i < list@.len() ==> (#[trigger] list@[i])@.len() > 0,
            k <= count,
            words@.len() == k,
            forall|i: int| 0 <= i < words@.len() ==> (#[trigger] words@[i])@.len() > 0,
            forall|i: int|
                0 <= i < words@.len() ==> in_list((#[trigger] words@[i])@, list@) || (numbers
                    && is_small_decimal(words@[i]@)),
        decreases count - k,
    {
        let x = rand_below(0x20_0000);
        let idx = power_law_index(x, list.len());
        let mut word = list[idx].clone();
        proof {
            assert(in_list(word@, list@));
        }
        if numbers && rand_below(100) < 8 {
            let digits = rand_below(4) + 1;
            let max: u64 = if digits == 1 {
                10
            } else if digits == 2 {
                100
            } else if digits == 3 {
                1000
            } else {
                10000
            };
            let value = rand_below(max);
            word = u64_to_string(value);
            proof {
                lemma_dec_seq_nonempty(value as nat);
                assert(is_small_decimal(word@));
            }
        }
        words.push(word);
        k = k + 1;
    }
    let ghost pre = words@;
    if punctuation {
        apply_punctuation(&mut words);
        proof {
            assert forall|i: int| 0 <= i < words@.len() implies (#[trigger] words@[i])@.len() > 0
                && is_generated_word(words@[i]@, list@, true, numbers) by {
                assert(is_punct_variant(pre[i]@, words@[i]@));
                assert(pre[i]@.len() > 0);
                assert(capitalize_spec(pre[i]@).len() == pre[i]@.len());
            }
        }
    } else {
        proof {
            assert forall|i: int| 0 <= i < words@.len() implies is_generated_word(
                words@[i]@,
                list@,
                false,
                numbers,
            ) by {
                assert(is_punct_variant(words@[i]@, words@[i]@));
            }
        }
    }
    words
}

/// Generate the word sequence for a session. The language must be
/// registered: an unknown identifier is a fatal configuration defect, which
/// callers screen for with `is_known_language` and report loudly.
pub fn generate_words(config: &GeneratorConfig) -> (words: Vec<String>)
    requires
        crate::data::languages::spec_is_known_language(config.language@),
        config.count <= 0xffff_ffff,
    ensures
        words@.len() == config.count,
        forall|i: int| 0 <= i < words@.len() ==> (#[trigger] words@[i])@.len() > 0,
{
    let language = get_language(config.language.as_str());
    generate_from_list(&language.words, config.count, config.punctuation, config.numbers)
}

} // verus!
