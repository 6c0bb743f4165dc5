//! Session claims, and the decimal rendering their subject field uses.

use vstd::prelude::*;
use vstd::string::StringExecFns;

verus! {

/// The claims carried by a session token: the subject (a user or admin
/// id, rendered in decimal), issue and expiry times in epoch seconds, and
/// the role the token grants.
pub struct Claims {
    pub sub: String,
    pub exp: usize,
    pub iat: usize,
    pub role: String,
}

/// The character of one decimal digit.
pub open spec fn digit_char(d: int) -> char {
    if d == 0 {
        '0'
    } else if d == 1 {
        '1'
    } else if d == 2 {
        '2'
    } else if d == 3 {
        '3'
    } else if d == 4 {
        '4'
    } else if d == 5 {
        '5'
    } else if d == 6 {
        '6'
    } else if d == 7 {
        '7'
    } else if d == 8 {
        '8'
    } else {
        '9'
    }
}

/// The decimal digits of `n`, most significant first; empty at zero and
/// below.
pub open spec fn nat_digits(n: int) -> Seq<char>
    decreases n,
{
    if n <= 0 {
        Seq::empty()
    } else {
        nat_digits(n / 10).push(digit_char(n % 10))
    }
}

/// The decimal rendering of an integer, as `to_string` writes it.
pub open spec fn decimal_string(n: int) -> Seq<char> {
    if n == 0 {
        seq!['0']
    } else if n > 0 {
        nat_digits(n)
    } else {
        seq!['-'] + nat_digits(-n)
    }
}

fn digit_of(d: u64) -> (c: char)
    requires
        d < 10,
    ensures
        c == digit_char(d as int),
{
    match d {
        0 => '0',
        1 => '1',
        2 => '2',
        3 => '3',
        4 => '4',
        5 => '5',
        6 => '6',
        7 => '7',
        8 => '8',
        _ => '9',
    }
}

/// Relies on `String::push`: appends exactly the given character.
#[verifier::external_body]
fn push_char(s: &mut String, c: char)
    ensures
        final(s)@ == old(s)@.push(c),
{
    s.push(c);
}

/// Render an integer in decimal.
pub fn i64_to_string(n: i64) -> (s: String)
    ensures
        s@ == decimal_string(n as int),
{
    if n == 0 {
        let s = String::from_str("0");
        proof {
            reveal_strlit("0");
            assert(s@ =~= seq!['0']);
        }
        return s;
    }
    let negative = n < 0;
    let mut m: u64 = if n < 0 {
        (-(n as i128)) as u64
    } else {
        n as u64
    };
    let ghost m0 = m as int;
    proof {
        assert(nat_digits(m0) =~= nat_digits(m as int) + Seq::<char>::empty().reverse());
    }
    let mut digits: Vec<char> = Vec::new();
    while m > 0
        invariant
            nat_digits(m0) == nat_digits(m as int) + digits@.reverse(),
        decreases m,
    {
        let d = digit_of(m % 10);
        proof {
            assert(digits@.push(d).reverse() =~= seq![d] + digits@.reverse());
            assert(nat_digits(m as int) == nat_digits(m as int / 10).push(
                digit_char(m as int % 10),
            ));
            assert(nat_digits(m as int / 10).push(d) + digits@.reverse() =~= nat_digits(
                m as int / 10,
            ) + (seq![d] + digits@.reverse()));
        }
        digits.push(d);
        m = m / 10;
    }
    proof {
        assert(nat_digits(m0) =~= digits@.reverse());
    }
    let ghost prefix: Seq<char> = if negative {
        seq!['-']
    } else {
        Seq::empty()
    };
    let mut s = String::new();
    if negative {
        push_char(&mut s, '-');
    }
    proof {
        assert(s@ =~= prefix + digits@.subrange(
            digits@.len() as int,
            digits@.len() as int,
        ).reverse());
    }
    let mut idx = digits.len();
    while idx > 0
        invariant
            idx <= digits.len(),
            s@ == prefix + digits@.subrange(idx as int, digits@.len() as int).reverse(),
        decreases idx,
    {
        idx = idx - 1;
        let c = digits[idx];
        push_char(&mut s, c);
        proof {
            assert(digits@.subrange(idx as int, digits@.len() as int).reverse() =~= digits@
                .subrange(idx + 1, digits@.len() as int).reverse().push(digits@[idx as int]));
        }
    }
    proof {
        assert(digits@.subrange(0, digits@.len() as int) =~= digits@);
        if negative {
            assert(s@ =~= seq!['-'] + nat_digits(-(n as int)));
        } else {
            assert(s@ =~= nat_digits(n as int));
        }
    }
    s
}

impl Claims {
    /// Claims for a user session issued at `now` (epoch seconds), good
    /// for `expiration` further seconds.
    pub fn new_user(user_id: i64, now: usize, expiration: usize) -> (c: Claims)
        requires
            now + expiration <= usize::MAX,
        ensures
            c.sub@ == decimal_string(user_id as int),
            c.iat == now,
            c.exp == now + expiration,
            c.role@ == "user"@,
    {
        Claims {
            sub: i64_to_string(user_id),
            exp: now + expiration,
            iat: now,
            role: String::from_str("user"),
        }
    }

    /// Claims for an admin session issued at `now` (epoch seconds), good
    /// for `expiration` further seconds.
    pub fn new_admin(admin_id: i64, now: usize, expiration: usize) -> (c: Claims)
        requires
            now + expiration <= usize::MAX,
        ensures
            c.sub@ == decimal_string(admin_id as int),
            c.iat == now,
            c.exp == now + expiration,
            c.role@ == "admin"@,
    {
        Claims {
            sub: i64_to_string(admin_id),
            exp: now + expiration,
            iat: now,
            role: String::from_str("admin"),
        }
    }
}

} // verus!
