//! The status text shown over the game: engine level and velocity, the
//! velocity with exactly three decimal places.

use vstd::prelude::*;

use crate::lander::Lander;

verus! {

/// The decimal digit character for `d` in `[0, 9]`.
pub open spec fn digit_char(d: int) -> char {
    if d == 0 {
        '0'
    } else if d == 1 {
        '1'
    } else if d == 2 {
        '2'
    } else if d == 3 {
        '3'
    } else if d == 4 {
        '4'
    } else if d == 5 {
        '5'
    } else if d == 6 {
        '6'
    } else if d == 7 {
        '7'
    } else if d == 8 {
        '8'
    } else {
        '9'
    }
}

/// The decimal digits of `n`, most significant first, with no leading zeros
/// (a lone `0` for zero).
pub open spec fn dec_digits(n: nat) -> Seq<char>
    decreases n,
{
    if n < 10 {
        seq![digit_char(n as int)]
    } else {
        dec_digits(n / 10).push(digit_char((n % 10) as int))
    }
}

/// The one-character string holding the digit character for `d`.
fn digit_str(d: u64) -> (r: &'static str)
    requires
        d < 10,
    ensures
        r@ == seq![digit_char(d as int)],
{
    let r: &'static str = if d == 0 {
        "0"
    } else if d == 1 {
        "1"
    } else if d == 2 {
        "2"
    } else if d == 3 {
        "3"
    } else if d == 4 {
        "4"
    } else if d == 5 {
        "5"
    } else if d == 6 {
        "6"
    } else if d == 7 {
        "7"
    } else if d == 8 {
        "8"
    } else {
        "9"
    };
    proof {
        reveal_strlit("0");
        reveal_strlit("1");
        reveal_strlit("2");
        reveal_strlit("3");
        reveal_strlit("4");
        reveal_strlit("5");
        reveal_strlit("6");
        reveal_strlit("7");
        reveal_strlit("8");
        reveal_strlit("9");
        assert(r@ =~= seq![digit_char(d as int)]);
    }
    r
}

/// `n` written in decimal, most significant digit first.
pub fn dec_str(n: u64) -> (r: String)
    ensures
        r@ == dec_digits(n as nat),
    decreases n,
{
    if n < 10 {
        let d = digit_str(n);
        d.to_owned()
    } else {
        let high = dec_str(n / 10);
        let low = digit_str(n % 10);
        high.concat(low)
    }
}

/// A non-negative count of thousandths written with exactly three decimal
/// places: the whole part without leading zeros, a point, then the
/// zero-padded fraction.
pub open spec fn fixed3_of_nat(m: nat) -> Seq<char> {
    dec_digits(m / 1000) + seq!['.'] + seq![
        digit_char(((m % 1000) / 100) as int),
        digit_char(((m % 100) / 10) as int),
        digit_char((m % 10) as int),
    ]
}

/// A count of thousandths written with exactly three decimal places, with a
/// leading minus sign when negative.
pub open spec fn fixed3_of(v_milli: int) -> Seq<char> {
    if v_milli < 0 {
        seq!['-'] + fixed3_of_nat((-v_milli) as nat)
    } else {
        fixed3_of_nat(v_milli as nat)
    }
}

/// `v_milli` thousandths written with exactly three decimal places.
pub fn fixed3_str(v_milli: i64) -> (r: String)
    ensures
        r@ == fixed3_of(v_milli as int),
{
    let magnitude: u64 = if v_milli < 0 {
        (-(v_milli as i128)) as u64
    } else {
        v_milli as u64
    };
    let mut r = if v_milli < 0 {
        proof {
            reveal_strlit("-");
        }
        let s: &'static str = "-";
        s.to_owned()
    } else {
        String::new()
    };
    let whole = dec_str(magnitude / 1000);
    r.append(whole.as_str());
    proof {
        reveal_strlit(".");
    }
    r.append(".");
    let d1 = digit_str((magnitude % 1000) / 100);
    r.append(d1);
    let d2 = digit_str((magnitude % 100) / 10);
    r.append(d2);
    let d3 = digit_str(magnitude % 10);
    r.append(d3);
    proof {
        assert(r@ =~= fixed3_of(v_milli as int));
    }
    r
}

/// The two-line status text for a lander state: its engine level, then its
/// velocity with exactly three decimal places.
pub open spec fn status_of(lander: Lander) -> Seq<char> {
    "Engine: "@ + dec_digits(lander.engine as nat) + "\nVelocity: "@ + fixed3_of(
        lander.velocity_milli as int,
    )
}

impl Lander {
    /// The status text for this state, exactly `status_of`.
    pub fn get_status_text(&self) -> (r: String)
        ensures
            r@ == status_of(*self),
    {
        let head: &'static str = "Engine: ";
        let mut r = head.to_owned();
        let engine = dec_str(self.engine as u64);
        r.append(engine.as_str());
        r.append("\nVelocity: ");
        let velocity = fixed3_str(self.velocity_milli);
        r.append(velocity.as_str());
        proof {
            assert(r@ =~= status_of(*self));
        }
        r
    }
}

/// The status text is a function of the lander's state alone: reporting an
/// unchanged state twice yields the identical string both times.
pub proof fn lemma_status_text_deterministic(a: Lander, b: Lander)
    requires
        a.engine == b.engine,
        a.velocity_milli == b.velocity_milli,
    ensures
        status_of(a) == status_of(b),
{
}

} // verus!
