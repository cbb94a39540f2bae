//! The generation tracker.
//!
//! Some platforms' dynamic loaders cache a loaded image by its filesystem
//! path and keep serving the old image after the file is rebuilt in place.
//! The tracker defeats this by giving every rebuild of the same function a
//! fresh, never-before-used artifact path: the working directory is scanned
//! for names of the shape `<prefix>_<N><suffix>`, the next build uses the
//! largest `N` found plus one, and an evaluate-time load uses the largest
//! `N` found. The scan is the single source of truth; no counter is kept
//! anywhere else, so the scheme survives crashes unchanged.

use vstd::prelude::*;
use vstd::string::*;

use crate::names::{
    dec_rep, digit_val, digits_val, generation_name_spec, is_dec_digit, lemma_dec_rep_digits,
};

verus! {

/// The slice of `name` between the `_` after the prefix and the suffix.
pub open spec fn gen_mid(name: Seq<char>, prefix: Seq<char>, suffix: Seq<char>) -> Seq<char> {
    name.subrange(prefix.len() + 1 as int, name.len() - suffix.len())
}

/// Whether `name` has the shape `<prefix>_<digits><suffix>` with a digit
/// string whose value fits the generation counter.
pub open spec fn name_matches(name: Seq<char>, prefix: Seq<char>, suffix: Seq<char>) -> bool {
    &&& name.len() >= prefix.len() + suffix.len() + 2
    &&& name.subrange(0, prefix.len() as int) == prefix
    &&& name[prefix.len() as int] == '_'
    &&& name.subrange(name.len() - suffix.len(), name.len() as int) == suffix
    &&& forall|i: int|
        prefix.len() + 1 <= i < name.len() - suffix.len() ==> is_dec_digit(#[trigger] name[i])
    &&& digits_val(gen_mid(name, prefix, suffix)) <= u64::MAX as nat
}

/// The generation encoded in `name`, if it has the matching shape.
pub open spec fn gen_of_name(name: Seq<char>, prefix: Seq<char>, suffix: Seq<char>) -> Option<
    nat,
> {
    if name_matches(name, prefix, suffix) {
        Some(digits_val(gen_mid(name, prefix, suffix)))
    } else {
        None
    }
}

/// The views of a list of file names.
pub open spec fn name_views(listing: Seq<String>) -> Seq<Seq<char>> {
    listing.map_values(|s: String| s@)
}

/// The largest generation named in `listing`, if any name matches.
pub open spec fn spec_latest_generation(
    listing: Seq<Seq<char>>,
    prefix: Seq<char>,
    suffix: Seq<char>,
) -> Option<nat>
    decreases listing.len(),
{
    if listing.len() == 0 {
        None
    } else {
        let rest = spec_latest_generation(listing.drop_last(), prefix, suffix);
        match gen_of_name(listing.last(), prefix, suffix) {
            None => rest,
            Some(g) => match rest {
                None => Some(g),
                Some(m) => Some(if m >= g { m } else { g }),
            },
        }
    }
}

/// The generation the next build must use: one past the largest on disk, or
/// the first generation when nothing is on disk. `None` only when the
/// counter is exhausted.
pub open spec fn spec_next_generation(
    listing: Seq<Seq<char>>,
    prefix: Seq<char>,
    suffix: Seq<char>,
) -> Option<nat> {
    match spec_latest_generation(listing, prefix, suffix) {
        None => Some(0),
        Some(l) => if l + 1 <= u64::MAX as nat {
            Some(l + 1)
        } else {
            None
        },
    }
}

/// The value of a digit string bounds the value of each of its prefixes.
proof fn lemma_digits_val_take(s: Seq<char>, j: int)
    requires
        0 <= j <= s.len(),
    ensures
        digits_val(s.take(j)) <= digits_val(s),
    decreases s.len(),
{
    if j == s.len() {
        assert(s.take(j) =~= s);
    } else {
        assert(s.len() >= 1);
        lemma_digits_val_take(s.drop_last(), j);
        assert(s.drop_last().take(j) =~= s.take(j));
        assert(digits_val(s) == digits_val(s.drop_last()) * 10 + digit_val(s.last()));
    }
}

/// The digit of a digit character, or `None` for any other character.
fn char_digit(c: char) -> (r: Option<u64>)
    ensures
        match r {
            Some(d) => is_dec_digit(c) && d as nat == digit_val(c) && d < 10,
            None => !is_dec_digit(c),
        },
{
    if c == '0' {
        Some(0)
    } else if c == '1' {
        Some(1)
    } else if c == '2' {
        Some(2)
    } else if c == '3' {
        Some(3)
    } else if c == '4' {
        Some(4)
    } else if c == '5' {
        Some(5)
    } else if c == '6' {
        Some(6)
    } else if c == '7' {
        Some(7)
    } else if c == '8' {
        Some(8)
    } else if c == '9' {
        Some(9)
    } else {
        None
    }
}

/// Reads the generation out of one file name, if the name has the shape
/// `<prefix>_<digits><suffix>` and the digits fit the counter.
pub fn parse_generation(name: &str, prefix: &str, suffix: &str) -> (r: Option<u64>)
    ensures
        match r {
            Some(g) => gen_of_name(name@, prefix@, suffix@) == Some(g as nat),
            None => gen_of_name(name@, prefix@, suffix@) is None,
        },
{
    let n = name.unicode_len();
    let p = prefix.unicode_len();
    let s = suffix.unicode_len();
    let ps = match p.checked_add(s) {
        Some(ps) => ps,
        None => {
            return None;
        },
    };
    if n < ps {
        return None;
    }
    if n - ps < 2 {
        return None;
    }
    // name@ is long enough; check the prefix characters.
    let mut i: usize = 0;
    while i < p
        invariant
            0 <= i <= p,
            n == name@.len(),
            p == prefix@.len(),
            s == suffix@.len(),
            n >= p + s + 2,
            forall|k: int| 0 <= k < i ==> name@[k] == prefix@[k],
        decreases p - i,
    {
        if name.get_char(i) != prefix.get_char(i) {
            proof {
                assert(name@.subrange(0, p as int) != prefix@) by {
                    if name@.subrange(0, p as int) == prefix@ {
                        assert(name@.subrange(0, p as int)[i as int] == name@[i as int]);
                    }
                }
            }
            return None;
        }
        i += 1;
    }
    proof {
        assert(name@.subrange(0, p as int) =~= prefix@);
    }
    // The separator.
    if name.get_char(p) != '_' {
        return None;
    }
    // The suffix characters.
    let base = n - s;
    let mut i: usize = 0;
    while i < s
        invariant
            0 <= i <= s,
            n == name@.len(),
            p == prefix@.len(),
            s == suffix@.len(),
            n >= p + s + 2,
            base == n - s,
            forall|k: int| 0 <= k < i ==> name@[base + k] == suffix@[k],
        decreases s - i,
    {
        if name.get_char(base + i) != suffix.get_char(i) {
            proof {
                assert(name@.subrange((n - s) as int, n as int) != suffix@) by {
                    if name@.subrange((n - s) as int, n as int) == suffix@ {
                        assert(name@.subrange((n - s) as int, n as int)[i as int] == name@[base
                            + i]);
                    }
                }
            }
            return None;
        }
        i += 1;
    }
    proof {
        assert(name@.subrange((n - s) as int, n as int) =~= suffix@);
    }
    // The digits between separator and suffix, read most significant first.
    let ghost mid = gen_mid(name@, prefix@, suffix@);
    let mut acc: u64 = 0;
    let mut i: usize = p + 1;
    while i < base
        invariant
            p + 1 <= i <= base,
            n == name@.len(),
            p == prefix@.len(),
            s == suffix@.len(),
            n >= p + s + 2,
            base == n - s,
            mid == gen_mid(name@, prefix@, suffix@),
            forall|k: int| p + 1 <= k < i ==> is_dec_digit(#[trigger] name@[k]),
            acc as nat == digits_val(mid.take(i - (p + 1))),
        decreases base - i,
    {
        let c = name.get_char(i);
        let d = match char_digit(c) {
            Some(d) => d,
            None => {
                return None;
            },
        };
        proof {
            assert(mid.take(i + 1 - (p + 1)).drop_last() =~= mid.take(i - (p + 1)));
            assert(mid.take(i + 1 - (p + 1)).last() == name@[i as int]);
        }
        let stepped = match acc.checked_mul(10) {
            Some(m) => m.checked_add(d),
            None => None,
        };
        match stepped {
            Some(v) => {
                acc = v;
            },
            None => {
                // The value read so far already exceeds the counter, so the
                // whole digit string does too and the name does not match.
                proof {
                    assert(digits_val(mid.take(i + 1 - (p + 1))) > u64::MAX as nat);
                    lemma_digits_val_take(mid, i + 1 - (p + 1));
                    assert(digits_val(mid) > u64::MAX as nat);
                }
                return None;
            },
        }
        i += 1;
    }
    proof {
        assert(mid.take(base - (p + 1)) =~= mid);
        assert(name_matches(name@, prefix@, suffix@));
    }
    Some(acc)
}

/// Scans a directory listing for the largest generation of `prefix`/`suffix`.
pub fn latest_generation(listing: &Vec<String>, prefix: &str, suffix: &str) -> (r: Option<u64>)
    ensures
        match r {
            Some(g) => spec_latest_generation(name_views(listing@), prefix@, suffix@) == Some(
                g as nat,
            ),
            None => spec_latest_generation(name_views(listing@), prefix@, suffix@) is None,
        },
{
    let mut best: Option<u64> = None;
    let mut i: usize = 0;
    while i < listing.len()
        invariant
            0 <= i <= listing@.len(),
            match best {
                Some(g) => spec_latest_generation(
                    name_views(listing@.take(i as int)),
                    prefix@,
                    suffix@,
                ) == Some(g as nat),
                None => spec_latest_generation(
                    name_views(listing@.take(i as int)),
                    prefix@,
                    suffix@,
                ) is None,
            },
        decreases listing@.len() - i,
    {
        let cur = parse_generation(listing[i].as_str(), prefix, suffix);
        proof {
            assert(name_views(listing@.take(i + 1)).drop_last() =~= name_views(
                listing@.take(i as int),
            ));
            assert(name_views(listing@.take(i + 1)).last() == listing@[i as int]@);
        }
        best = match (best, cur) {
            (None, c) => c,
            (Some(b), None) => Some(b),
            (Some(b), Some(c)) => if b >= c {
                Some(b)
            } else {
                Some(c)
            },
        };
        i += 1;
    }
    proof {
        assert(listing@.take(listing@.len() as int) =~= listing@);
    }
    best
}

/// The generation the next build must use for `prefix`/`suffix`, given the
/// current directory listing. `None` only when the counter is exhausted.
pub fn next_generation(listing: &Vec<String>, prefix: &str, suffix: &str) -> (r: Option<u64>)
    ensures
        match r {
            Some(g) => spec_next_generation(name_views(listing@), prefix@, suffix@) == Some(
                g as nat,
            ),
            None => spec_next_generation(name_views(listing@), prefix@, suffix@) is None,
        },
{
    match latest_generation(listing, prefix, suffix) {
        None => Some(0),
        Some(l) => l.checked_add(1),
    }
}

/// Rendering a generation into a file name and reading it back round-trips.
pub proof fn lemma_generation_roundtrip(prefix: Seq<char>, g: nat, suffix: Seq<char>)
    requires
        g <= u64::MAX as nat,
    ensures
        gen_of_name(generation_name_spec(prefix, g, suffix), prefix, suffix) == Some(g),
{
    lemma_dec_rep_digits(g);
    let name = generation_name_spec(prefix, g, suffix);
    let d = dec_rep(g);
    assert(name.len() == prefix.len() + 1 + d.len() + suffix.len());
    assert(name.subrange(0, prefix.len() as int) =~= prefix);
    assert(name[prefix.len() as int] == '_');
    assert(name.subrange(name.len() - suffix.len(), name.len() as int) =~= suffix);
    assert(gen_mid(name, prefix, suffix) =~= d);
    assert forall|i: int|
        prefix.len() + 1 <= i < name.len() - suffix.len() implies is_dec_digit(
        #[trigger] name[i],
    ) by {
        assert(name[i] == d[i - (prefix.len() + 1)]);
    }
    assert(name_matches(name, prefix, suffix));
}

/// The law the caching workaround rests on: after a build at the freshly
/// scanned next generation `g` lands in the directory, a scan returns `g`
/// (so an evaluate-time load picks the new artifact), the following build
/// uses `g + 1` (so its path is again fresh), and the two builds' artifact
/// names are distinct.
pub proof fn lemma_generation_advances(
    listing: Seq<Seq<char>>,
    prefix: Seq<char>,
    suffix: Seq<char>,
    g: nat,
)
    requires
        spec_next_generation(listing, prefix, suffix) == Some(g),
    ensures
        spec_latest_generation(
            listing.push(generation_name_spec(prefix, g, suffix)),
            prefix,
            suffix,
        ) == Some(g),
        g + 1 <= u64::MAX as nat ==> spec_next_generation(
            listing.push(generation_name_spec(prefix, g, suffix)),
            prefix,
            suffix,
        ) == Some(g + 1),
        generation_name_spec(prefix, g, suffix) != generation_name_spec(prefix, g + 1, suffix),
{
    let name = generation_name_spec(prefix, g, suffix);
    let pushed = listing.push(name);
    assert(g <= u64::MAX as nat);
    lemma_generation_roundtrip(prefix, g, suffix);
    assert(pushed.drop_last() =~= listing);
    assert(pushed.last() == name);
    assert(spec_latest_generation(pushed, prefix, suffix) == Some(g));
    assert(generation_name_spec(prefix, g, suffix) != generation_name_spec(
        prefix,
        g + 1,
        suffix,
    )) by {
        if generation_name_spec(prefix, g, suffix) == generation_name_spec(
            prefix,
            g + 1,
            suffix,
        ) {
            lemma_dec_rep_digits(g + 1);
            let other = generation_name_spec(prefix, g + 1, suffix);
            assert(gen_mid(other, prefix, suffix) =~= dec_rep(g + 1));
            assert(gen_mid(name, prefix, suffix) =~= dec_rep(g));
            assert(digits_val(dec_rep(g)) == digits_val(dec_rep(g + 1)));
        }
    }
}

} // verus!
