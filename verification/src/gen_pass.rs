//! Random password generation.
//!
//! A password is drawn from four character classes — upper case (without the
//! easily confused `I`), lower case (without `l` and `o`), digits (without
//! `0`) and symbols — each of which can be switched off.  One character of
//! every enabled class is always present; the rest are drawn from the union
//! of the enabled classes, and the whole password is shuffled.

use crate::errors::CryptError;
use vstd::prelude::*;

verus! {

/// Upper-case password characters: `A`–`Z` without `I`.
pub open spec fn is_upper_pw(b: u8) -> bool {
    65 <= b && b <= 90 && b != 73
}

/// Lower-case password characters: `a`–`z` without `l` and `o`.
pub open spec fn is_lower_pw(b: u8) -> bool {
    97 <= b && b <= 122 && b != 108 && b != 111
}

/// Digit password characters: `1`–`9`.
pub open spec fn is_number_pw(b: u8) -> bool {
    49 <= b && b <= 57
}

/// Symbol password characters: one of `!@#$%^&*-_=+`.
pub open spec fn is_symbol_pw(b: u8) -> bool {
    b == 33 || b == 64 || b == 35 || b == 36 || b == 37 || b == 94 || b == 38 || b == 42 || b == 45
        || b == 95 || b == 61 || b == 43
}

/// Whether a byte belongs to one of the enabled classes.
pub open spec fn pw_allowed(b: u8, upper: bool, lower: bool, number: bool, symbol: bool) -> bool {
    ||| upper && is_upper_pw(b)
    ||| lower && is_lower_pw(b)
    ||| number && is_number_pw(b)
    ||| symbol && is_symbol_pw(b)
}

/// The number of enabled classes.
pub open spec fn enabled_classes(upper: bool, lower: bool, number: bool, symbol: bool) -> int {
    (if upper {
        1int
    } else {
        0int
    }) + (if lower {
        1int
    } else {
        0int
    }) + (if number {
        1int
    } else {
        0int
    }) + (if symbol {
        1int
    } else {
        0int
    })
}


/// Whether some character of the password comes from the upper-case class.
pub open spec fn has_upper_pw(p: Seq<char>) -> bool {
    exists|i: int| 0 <= i < p.len() && is_upper_pw(p[i] as u8)
}

/// Whether some character of the password comes from the lower-case class.
pub open spec fn has_lower_pw(p: Seq<char>) -> bool {
    exists|i: int| 0 <= i < p.len() && is_lower_pw(p[i] as u8)
}

/// Whether some character of the password comes from the digit class.
pub open spec fn has_number_pw(p: Seq<char>) -> bool {
    exists|i: int| 0 <= i < p.len() && is_number_pw(p[i] as u8)
}

/// Whether some character of the password comes from the symbol class.
pub open spec fn has_symbol_pw(p: Seq<char>) -> bool {
    exists|i: int| 0 <= i < p.len() && is_symbol_pw(p[i] as u8)
}

fn upper_chars() -> (r: Vec<u8>)
    ensures
        r@.len() > 0,
        forall|k: int| 0 <= k < r@.len() ==> is_upper_pw(r@[k]),
{
    let mut v: Vec<u8> = Vec::new();
    let mut b: u8 = 65;
    while b <= 90
        invariant
            65 <= b <= 91,
            forall|k: int| 0 <= k < v@.len() ==> is_upper_pw(v@[k]),
            b > 65 ==> v@.len() > 0,
        decreases 91 - b,
    {
        if b != 73 {
            v.push(b);
        }
        b += 1;
    }
    v
}

fn lower_chars() -> (r: Vec<u8>)
    ensures
        r@.len() > 0,
        forall|k: int| 0 <= k < r@.len() ==> is_lower_pw(r@[k]),
{
    let mut v: Vec<u8> = Vec::new();
    let mut b: u8 = 97;
    while b <= 122
        invariant
            97 <= b <= 123,
            forall|k: int| 0 <= k < v@.len() ==> is_lower_pw(v@[k]),
            b > 97 ==> v@.len() > 0,
        decreases 123 - b,
    {
        if b != 108 && b != 111 {
            v.push(b);
        }
        b += 1;
    }
    v
}

fn number_chars() -> (r: Vec<u8>)
    ensures
        r@.len() > 0,
        forall|k: int| 0 <= k < r@.len() ==> is_number_pw(r@[k]),
{
    let mut v: Vec<u8> = Vec::new();
    let mut b: u8 = 49;
    while b <= 57
        invariant
            49 <= b <= 58,
            forall|k: int| 0 <= k < v@.len() ==> is_number_pw(v@[k]),
            b > 49 ==> v@.len() > 0,
        decreases 58 - b,
    {
        v.push(b);
        b += 1;
    }
    v
}

fn symbol_chars() -> (r: Vec<u8>)
    ensures
        r@.len() > 0,
        forall|k: int| 0 <= k < r@.len() ==> is_symbol_pw(r@[k]),
{
    let v: Vec<u8> = vec![33u8, 64u8, 35u8, 36u8, 37u8, 94u8, 38u8, 42u8, 45u8, 95u8, 61u8, 43u8];
    assert(forall|k: int| 0 <= k < v@.len() ==> is_symbol_pw(v@[k]));
    v
}

/// Relies on `rand::Rng::gen_range` over the thread's generator: a uniformly
/// random index below the bound.
#[verifier::external_body]
fn rand_below(bound: usize) -> (r: usize)
    requires
        bound > 0,
    ensures
        r < bound,
{
    rand::Rng::gen_range(&mut rand::thread_rng(), 0..bound)
}

/// Relies on `rand::seq::SliceRandom::shuffle`: a random permutation holding
/// exactly the elements it started with.
#[verifier::external_body]
fn shuffle_bytes(v: &mut Vec<u8>)
    ensures
        final(v)@.to_multiset() == old(v)@.to_multiset(),
{
    rand::seq::SliceRandom::shuffle(v.as_mut_slice(), &mut rand::thread_rng());
}

/// Relies on `String::from_utf8`: bytes below 128 become the characters with
/// the same codes.
#[verifier::external_body]
fn bytes_to_string(bytes: Vec<u8>) -> (r: String)
    requires
        forall|k: int| 0 <= k < bytes@.len() ==> bytes@[k] < 128,
    ensures
        r@ == bytes@.map_values(|b: u8| b as char),
{
    String::from_utf8(bytes).unwrap()
}

/// Generates a random password of the requested length.
///
/// At least one class must be enabled and the length must leave room for one
/// character of each enabled class.  Every character of the result is ASCII
/// and comes from an enabled class, and each enabled class contributes at
/// least one character.
#[verifier::rlimit(60)]
pub fn gen_pass(length: u8, upper: bool, lower: bool, number: bool, symbol: bool) -> (r: Result<
    String,
    CryptError,
>)
    requires
        upper || lower || number || symbol,
        enabled_classes(upper, lower, number, symbol) <= length as int,
    ensures
        r is Ok,
        r matches Ok(p) ==> p@.len() == length as nat,
        r matches Ok(p) ==> forall|i: int| 0 <= i < p@.len() ==> (p@[i] as int) < 128,
        r matches Ok(p) ==> forall|i: int|
            0 <= i < p@.len() ==> pw_allowed(p@[i] as u8, upper, lower, number, symbol),
        upper ==> (r matches Ok(p) && has_upper_pw(p@)),
        lower ==> (r matches Ok(p) && has_lower_pw(p@)),
        number ==> (r matches Ok(p) && has_number_pw(p@)),
        symbol ==> (r matches Ok(p) && has_symbol_pw(p@)),
{
    let mut pass: Vec<u8> = Vec::new();
    let mut pool: Vec<u8> = Vec::new();
    let ghost mut iu: int = 0;
    let ghost mut il: int = 0;
    let ghost mut inum: int = 0;
    let ghost mut isym: int = 0;
    if upper {
        let mut cs = upper_chars();
        let i = rand_below(cs.len());
        pass.push(cs[i]);
        proof {
            iu = pass@.len() - 1;
        }
        pool.append(&mut cs);
    }
    if lower {
        let mut cs = lower_chars();
        let i = rand_below(cs.len());
        pass.push(cs[i]);
        proof {
            il = pass@.len() - 1;
        }
        pool.append(&mut cs);
    }
    if number {
        let mut cs = number_chars();
        let i = rand_below(cs.len());
        pass.push(cs[i]);
        proof {
            inum = pass@.len() - 1;
        }
        pool.append(&mut cs);
    }
    if symbol {
        let mut cs = symbol_chars();
        let i = rand_below(cs.len());
        pass.push(cs[i]);
        proof {
            isym = pass@.len() - 1;
        }
        pool.append(&mut cs);
    }
    while pass.len() < length as usize
        invariant
            pool@.len() > 0,
            pass@.len() <= length as nat,
            forall|k: int| 0 <= k < pool@.len() ==> pw_allowed(pool@[k], upper, lower, number, symbol),
            forall|k: int| 0 <= k < pass@.len() ==> pw_allowed(pass@[k], upper, lower, number, symbol),
            upper ==> 0 <= iu < pass@.len() && is_upper_pw(pass@[iu]),
            lower ==> 0 <= il < pass@.len() && is_lower_pw(pass@[il]),
            number ==> 0 <= inum < pass@.len() && is_number_pw(pass@[inum]),
            symbol ==> 0 <= isym < pass@.len() && is_symbol_pw(pass@[isym]),
        decreases length as int - pass@.len(),
    {
        let i = rand_below(pool.len());
        pass.push(pool[i]);
    }
    let ghost before = pass@;
    shuffle_bytes(&mut pass);
    proof {
        broadcast use vstd::seq_lib::group_to_multiset_ensures;

        assert(before.len() == length as nat);
        assert(pass@.to_multiset().len() == pass@.len());
        assert(before.to_multiset().len() == before.len());

        assert forall|k: int| 0 <= k < pass@.len() implies pw_allowed(
            pass@[k],
            upper,
            lower,
            number,
            symbol,
        ) by {
            let x = pass@[k];
            assert(pass@.contains(x));
            assert(pass@.to_multiset().count(x) > 0);
            assert(before.contains(x));
        }
        if upper {
            let x = before[iu];
            assert(before.contains(x));
            assert(pass@.to_multiset().count(x) > 0);
            assert(pass@.contains(x));
        }
        if lower {
            let x = before[il];
            assert(before.contains(x));
            assert(pass@.to_multiset().count(x) > 0);
            assert(pass@.contains(x));
        }
        if number {
            let x = before[inum];
            assert(before.contains(x));
            assert(pass@.to_multiset().count(x) > 0);
            assert(pass@.contains(x));
        }
        if symbol {
            let x = before[isym];
            assert(before.contains(x));
            assert(pass@.to_multiset().count(x) > 0);
            assert(pass@.contains(x));
        }
        assert forall|k: int| 0 <= k < pass@.len() implies pass@[k] < 128 by {
            assert(pw_allowed(pass@[k], upper, lower, number, symbol));
        }
        assert(pass@.len() == length as nat);
    }
    let ghost fin = pass@;
    let s = bytes_to_string(pass);
    proof {
        assert(s@.len() == fin.len());
        assert(s@.len() == length as nat);
        assert forall|i: int|
            0 <= i < s@.len() implies pw_allowed(
            s@[i] as u8,
            upper,
            lower,
            number,
            symbol,
        ) by {
            assert(s@[i] == fin[i] as char);
            assert(s@[i] as u8 == fin[i]);
        }
        if upper {
            let x = before[iu];
            assert(fin.contains(x));
            let j = choose|j: int| 0 <= j < fin.len() && fin[j] == x;
            assert(s@[j] == fin[j] as char);
            assert(0 <= j < s@.len() && is_upper_pw(s@[j] as u8));
            assert(has_upper_pw(s@));
        }
        if lower {
            let x = before[il];
            assert(fin.contains(x));
            let j = choose|j: int| 0 <= j < fin.len() && fin[j] == x;
            assert(s@[j] == fin[j] as char);
            assert(0 <= j < s@.len() && is_lower_pw(s@[j] as u8));
            assert(has_lower_pw(s@));
        }
        if number {
            let x = before[inum];
            assert(fin.contains(x));
            let j = choose|j: int| 0 <= j < fin.len() && fin[j] == x;
            assert(s@[j] == fin[j] as char);
            assert(0 <= j < s@.len() && is_number_pw(s@[j] as u8));
            assert(has_number_pw(s@));
        }
        if symbol {
            let x = before[isym];
            assert(fin.contains(x));
            let j = choose|j: int| 0 <= j < fin.len() && fin[j] == x;
            assert(s@[j] == fin[j] as char);
            assert(0 <= j < s@.len() && is_symbol_pw(s@[j] as u8));
            assert(has_symbol_pw(s@));
        }
    }
    Ok(s)
}

} // verus!
