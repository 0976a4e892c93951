//! Random password generation.
//!
//! A password draws from up to four character classes. Each selected class
//! contributes at least one character; the rest are drawn from the union of
//! the selected classes, and the whole is shuffled. Confusable characters
//! (capital I and O, small l, the digit 0) are left out of the classes.

use vstd::prelude::*;
use vstd::seq_lib::group_to_multiset_ensures;

use crate::error::Error;
use crate::rng;
use crate::strutil;

verus! {

/// Capital letters used in passwords: `A`-`Z` without `I` and `O`.
pub open spec fn is_upper_class(c: char) -> bool {
    let u = c as u32;
    65 <= u <= 90 && u != 73 && u != 79
}

/// Small letters used in passwords: `a`-`z` without `l`.
pub open spec fn is_lower_class(c: char) -> bool {
    let u = c as u32;
    97 <= u <= 122 && u != 108
}

/// Digits used in passwords: `1`-`9`.
pub open spec fn is_number_class(c: char) -> bool {
    let u = c as u32;
    49 <= u <= 57
}

/// Punctuation used in passwords.
pub open spec fn is_special_class(c: char) -> bool {
    c == '!' || c == '@' || c == '#' || c == '$' || c == '%' || c == '^' || c == '&' || c == '*'
        || c == '_'
}

/// Whether `c` belongs to one of the selected classes.
pub open spec fn in_classes(
    upper: bool,
    lower: bool,
    number: bool,
    special: bool,
    c: char,
) -> bool {
    ||| upper && is_upper_class(c)
    ||| lower && is_lower_class(c)
    ||| number && is_number_class(c)
    ||| special && is_special_class(c)
}

/// Whether a byte is the ASCII code of a character of one of the selected
/// classes; how a generated key published as raw bytes is tied back to the
/// password characters it came from.
pub open spec fn in_classes_byte(
    upper: bool,
    lower: bool,
    number: bool,
    special: bool,
    b: u8,
) -> bool {
    in_classes(upper, lower, number, special, b as char)
}

/// How many character classes are selected.
pub open spec fn classes_selected(upper: bool, lower: bool, number: bool, special: bool) -> int {
    (if upper {
        1int
    } else {
        0int
    }) + (if lower {
        1int
    } else {
        0int
    }) + (if number {
        1int
    } else {
        0int
    }) + (if special {
        1int
    } else {
        0int
    })
}

fn upper_chars() -> (v: Vec<char>)
    ensures
        v@.len() == 24,
        forall|i: int| 0 <= i < v@.len() ==> is_upper_class(#[trigger] v@[i]),
{
    let mut v: Vec<char> = Vec::new();
    v.push('A');
    v.push('B');
    v.push('C');
    v.push('D');
    v.push('E');
    v.push('F');
    v.push('G');
    v.push('H');
    v.push('J');
    v.push('K');
    v.push('L');
    v.push('M');
    v.push('N');
    v.push('P');
    v.push('Q');
    v.push('R');
    v.push('S');
    v.push('T');
    v.push('U');
    v.push('V');
    v.push('W');
    v.push('X');
    v.push('Y');
    v.push('Z');
    v
}

fn lower_chars() -> (v: Vec<char>)
    ensures
        v@.len() == 25,
        forall|i: int| 0 <= i < v@.len() ==> is_lower_class(#[trigger] v@[i]),
{
    let mut v: Vec<char> = Vec::new();
    v.push('a');
    v.push('b');
    v.push('c');
    v.push('d');
    v.push('e');
    v.push('f');
    v.push('g');
    v.push('h');
    v.push('i');
    v.push('j');
    v.push('k');
    v.push('m');
    v.push('n');
    v.push('o');
    v.push('p');
    v.push('q');
    v.push('r');
    v.push('s');
    v.push('t');
    v.push('u');
    v.push('v');
    v.push('w');
    v.push('x');
    v.push('y');
    v.push('z');
    v
}

fn number_chars() -> (v: Vec<char>)
    ensures
        v@.len() == 9,
        forall|i: int| 0 <= i < v@.len() ==> is_number_class(#[trigger] v@[i]),
{
    let mut v: Vec<char> = Vec::new();
    v.push('1');
    v.push('2');
    v.push('3');
    v.push('4');
    v.push('5');
    v.push('6');
    v.push('7');
    v.push('8');
    v.push('9');
    v
}

fn special_chars() -> (v: Vec<char>)
    ensures
        v@.len() == 9,
        forall|i: int| 0 <= i < v@.len() ==> is_special_class(#[trigger] v@[i]),
{
    let mut v: Vec<char> = Vec::new();
    v.push('!');
    v.push('@');
    v.push('#');
    v.push('$');
    v.push('%');
    v.push('^');
    v.push('&');
    v.push('*');
    v.push('_');
    v
}

/// A permutation keeps every character inside the selected classes and
/// keeps at least one member of each class that was present.
proof fn lemma_permutation_keeps_classes(
    before: Seq<char>,
    after: Seq<char>,
    upper: bool,
    lower: bool,
    number: bool,
    special: bool,
    upper_at: int,
    lower_at: int,
    number_at: int,
    special_at: int,
)
    requires
        after.to_multiset() == before.to_multiset(),
        forall|i: int|
            0 <= i < before.len() ==> in_classes(
                upper,
                lower,
                number,
                special,
                #[trigger] before[i],
            ),
        upper ==> 0 <= upper_at < before.len() && is_upper_class(before[upper_at]),
        lower ==> 0 <= lower_at < before.len() && is_lower_class(before[lower_at]),
        number ==> 0 <= number_at < before.len() && is_number_class(before[number_at]),
        special ==> 0 <= special_at < before.len() && is_special_class(before[special_at]),
    ensures
        forall|i: int|
            0 <= i < after.len() ==> in_classes(upper, lower, number, special, #[trigger] after[i]),
        upper ==> exists|i: int| 0 <= i < after.len() && is_upper_class(#[trigger] after[i]),
        lower ==> exists|i: int| 0 <= i < after.len() && is_lower_class(#[trigger] after[i]),
        number ==> exists|i: int| 0 <= i < after.len() && is_number_class(#[trigger] after[i]),
        special ==> exists|i: int| 0 <= i < after.len() && is_special_class(#[trigger] after[i]),
{
    broadcast use group_to_multiset_ensures;

    assert forall|i: int|
        0 <= i < after.len() implies in_classes(
        upper,
        lower,
        number,
        special,
        #[trigger] after[i],
    ) by {
        let c = after[i];
        assert(after.contains(c));
        assert(after.to_multiset().count(c) > 0);
        assert(before.contains(c));
        let j = choose|j: int| 0 <= j < before.len() && before[j] == c;
        assert(in_classes(upper, lower, number, special, before[j]));
    }
    if upper {
        let c = before[upper_at];
        assert(before.contains(c));
        assert(after.to_multiset().count(c) > 0);
        assert(after.contains(c));
        let j = choose|j: int| 0 <= j < after.len() && after[j] == c;
        assert(0 <= j < after.len() && is_upper_class(after[j]));
    }
    if lower {
        let c = before[lower_at];
        assert(before.contains(c));
        assert(after.to_multiset().count(c) > 0);
        assert(after.contains(c));
        let j = choose|j: int| 0 <= j < after.len() && after[j] == c;
        assert(0 <= j < after.len() && is_lower_class(after[j]));
    }
    if number {
        let c = before[number_at];
        assert(before.contains(c));
        assert(after.to_multiset().count(c) > 0);
        assert(after.contains(c));
        let j = choose|j: int| 0 <= j < after.len() && after[j] == c;
        assert(0 <= j < after.len() && is_number_class(after[j]));
    }
    if special {
        let c = before[special_at];
        assert(before.contains(c));
        assert(after.to_multiset().count(c) > 0);
        assert(after.contains(c));
        let j = choose|j: int| 0 <= j < after.len() && after[j] == c;
        assert(0 <= j < after.len() && is_special_class(after[j]));
    }
}

/// A random password of exactly `length` characters over the selected
/// classes, with at least one character of each selected class. Asking for
/// fewer characters than selected classes fails. At least one class must be
/// selected unless the length is zero, since an empty union leaves nothing
/// to draw from.
#[verifier::loop_isolation(false)]
#[verifier::rlimit(100)]
pub fn process_genpass(
    length: u8,
    uppercase: bool,
    lowercase: bool,
    number: bool,
    special: bool,
) -> (r: Result<String, Error>)
    requires
        uppercase || lowercase || number || special || length == 0,
    ensures
        match r {
            Ok(p) => {
                &&& classes_selected(uppercase, lowercase, number, special) <= length as int
                &&& p@.len() == length as int
                &&& forall|i: int|
                    0 <= i < p@.len() ==> in_classes(
                        uppercase,
                        lowercase,
                        number,
                        special,
                        #[trigger] p@[i],
                    )
                &&& uppercase ==> exists|i: int|
                    0 <= i < p@.len() && is_upper_class(#[trigger] p@[i])
                &&& lowercase ==> exists|i: int|
                    0 <= i < p@.len() && is_lower_class(#[trigger] p@[i])
                &&& number ==> exists|i: int|
                    0 <= i < p@.len() && is_number_class(#[trigger] p@[i])
                &&& special ==> exists|i: int|
                    0 <= i < p@.len() && is_special_class(#[trigger] p@[i])
            },
            Err(e) => {
                &&& classes_selected(uppercase, lowercase, number, special) > length as int
                &&& e == Error::InvalidKeyLength
            },
        },
{
    let mut password: Vec<char> = Vec::new();
    let mut charset: Vec<char> = Vec::new();
    let ghost mut upper_at: int = 0;
    let ghost mut lower_at: int = 0;
    let ghost mut number_at: int = 0;
    let ghost mut special_at: int = 0;
    if uppercase {
        let mut class = upper_chars();
        let idx = rng::random_below(class.len());
        proof {
            upper_at = password@.len() as int;
        }
        password.push(class[idx]);
        charset.append(&mut class);
    }
    if lowercase {
        let mut class = lower_chars();
        let idx = rng::random_below(class.len());
        proof {
            lower_at = password@.len() as int;
        }
        password.push(class[idx]);
        charset.append(&mut class);
    }
    if number {
        let mut class = number_chars();
        let idx = rng::random_below(class.len());
        proof {
            number_at = password@.len() as int;
        }
        password.push(class[idx]);
        charset.append(&mut class);
    }
    if special {
        let mut class = special_chars();
        let idx = rng::random_below(class.len());
        proof {
            special_at = password@.len() as int;
        }
        password.push(class[idx]);
        charset.append(&mut class);
    }
    let target = length as usize;
    if password.len() > target {
        return Err(Error::InvalidKeyLength);
    }
    while password.len() < target
        invariant
            password@.len() <= target,
            target <= 255,
            password@.len() < target ==> charset@.len() > 0,
            forall|i: int|
                0 <= i < charset@.len() ==> in_classes(
                    uppercase,
                    lowercase,
                    number,
                    special,
                    #[trigger] charset@[i],
                ),
            forall|i: int|
                0 <= i < password@.len() ==> in_classes(
                    uppercase,
                    lowercase,
                    number,
                    special,
                    #[trigger] password@[i],
                ),
            uppercase ==> 0 <= upper_at < password@.len() && is_upper_class(password@[upper_at]),
            lowercase ==> 0 <= lower_at < password@.len() && is_lower_class(password@[lower_at]),
            number ==> 0 <= number_at < password@.len() && is_number_class(
                password@[number_at],
            ),
            special ==> 0 <= special_at < password@.len() && is_special_class(
                password@[special_at],
            ),
        decreases target - password@.len(),
    {
        let idx = rng::random_below(charset.len());
        password.push(charset[idx]);
    }
    let ghost before = password@;
    rng::shuffle_chars(&mut password);
    proof {
        lemma_permutation_keeps_classes(
            before,
            password@,
            uppercase,
            lowercase,
            number,
            special,
            upper_at,
            lower_at,
            number_at,
            special_at,
        );
    }
    let n = password.len();
    let mut out = String::new();
    let mut i: usize = 0;
    while i < n
        invariant
            n == password@.len(),
            i <= n,
            out@ == password@.take(i as int),
        decreases n - i,
    {
        strutil::push_char(&mut out, password[i]);
        proof {
            assert(password@.take(i + 1) =~= password@.take(i as int).push(password@[i as int]));
        }
        i = i + 1;
    }
    proof {
        assert(password@.take(n as int) =~= password@);
    }
    Ok(out)
}

} // verus!
