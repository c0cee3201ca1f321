//! What the live socket says: a counter that goes up by one every tick,
//! written in decimal, and the greeting that answers each message of the
//! client.  Sending, receiving and waiting stay with the caller.
use vstd::prelude::*;

verus! {

/// The character of a decimal digit.
pub open spec fn digit_char(d: nat) -> char {
    if d == 0 {
        '0'
    } else if d == 1 {
        '1'
    } else if d == 2 {
        '2'
    } else if d == 3 {
        '3'
    } else if d == 4 {
        '4'
    } else if d == 5 {
        '5'
    } else if d == 6 {
        '6'
    } else if d == 7 {
        '7'
    } else if d == 8 {
        '8'
    } else {
        '9'
    }
}

/// A number written in decimal, most significant digit first, with no
/// leading zero.
pub open spec fn decimal_text(n: nat) -> Seq<char>
    decreases n,
{
    if n < 10 {
        seq![digit_char(n)]
    } else {
        decimal_text(n / 10).push(digit_char(n % 10))
    }
}

fn digit_text(d: u64) -> (r: &'static str)
    requires
        d < 10,
    ensures
        r@ == seq![digit_char(d as nat)],
{
    if d == 0 {
        proof { reveal_strlit("0"); }
        "0"
    } else if d == 1 {
        proof { reveal_strlit("1"); }
        "1"
    } else if d == 2 {
        proof { reveal_strlit("2"); }
        "2"
    } else if d == 3 {
        proof { reveal_strlit("3"); }
        "3"
    } else if d == 4 {
        proof { reveal_strlit("4"); }
        "4"
    } else if d == 5 {
        proof { reveal_strlit("5"); }
        "5"
    } else if d == 6 {
        proof { reveal_strlit("6"); }
        "6"
    } else if d == 7 {
        proof { reveal_strlit("7"); }
        "7"
    } else if d == 8 {
        proof { reveal_strlit("8"); }
        "8"
    } else {
        proof { reveal_strlit("9"); }
        "9"
    }
}

/// Writes a number in decimal (see `decimal_text`).
pub fn decimal_string(n: u64) -> (s: String)
    ensures
        s@ == decimal_text(n as nat),
    decreases n,
{
    if n < 10 {
        digit_text(n).to_owned()
    } else {
        let mut s = decimal_string(n / 10);
        s.append(digit_text(n % 10));
        s
    }
}

/// The answer to every message of the client.
pub open spec fn greeting() -> Seq<char> {
    seq!['H', 'i', 'i', 'i']
}

/// Answers a message of the client (see `greeting`); what the message says
/// does not matter.
pub fn reply_to_client() -> (r: String)
    ensures
        r@ == greeting(),
{
    let text = "Hiii";
    proof {
        reveal_strlit("Hiii");
    }
    text.to_owned()
}

/// The ticks sent so far on one socket.
pub struct TickCounter {
    count: u64,
}

impl TickCounter {
    pub closed spec fn count(&self) -> nat {
        self.count as nat
    }

    /// A socket that has sent no tick yet.
    pub fn new() -> (r: TickCounter)
        ensures
            r.count() == 0,
    {
        TickCounter { count: 0 }
    }

    /// Whether another tick can be counted.
    pub fn can_tick(&self) -> (r: bool)
        ensures
            r == (self.count() < u64::MAX),
    {
        self.count < u64::MAX
    }

    /// Counts one more tick and gives its message: the new count in decimal,
    /// so the first tick says `1`.
    pub fn tick(&mut self) -> (text: String)
        requires
            old(self).count() < u64::MAX,
        ensures
            final(self).count() == old(self).count() + 1,
            text@ == decimal_text(final(self).count()),
    {
        self.count = self.count + 1;
        decimal_string(self.count)
    }
}

} // verus!
