//! The text of a roll result and of a five-element reading.

use vstd::prelude::*;

use crate::cde::CdeResult;
use crate::rollresult::{RollHistory, RollModel, RollResult};

verus! {

/// The digit `d`, for `d` below 10.
pub open spec fn digit_text(d: nat) -> Seq<char> {
    if d == 0 {
        "0"@
    } else if d == 1 {
        "1"@
    } else if d == 2 {
        "2"@
    } else if d == 3 {
        "3"@
    } else if d == 4 {
        "4"@
    } else if d == 5 {
        "5"@
    } else if d == 6 {
        "6"@
    } else if d == 7 {
        "7"@
    } else if d == 8 {
        "8"@
    } else {
        "9"@
    }
}

/// `n` in decimal, without leading zeros.
pub open spec fn decimal(n: nat) -> Seq<char>
    decreases n,
{
    if n < 10 {
        digit_text(n)
    } else {
        decimal(n / 10) + digit_text(n % 10)
    }
}

/// `x` in decimal, with a leading `-` when negative.
pub open spec fn signed_decimal(x: int) -> Seq<char> {
    if x < 0 {
        "-"@ + decimal((-x) as nat)
    } else {
        decimal(x as nat)
    }
}

/// The symbol of a fudge face: `-`, blank or `+`.
pub open spec fn fudge_symbol(x: u64) -> Seq<char> {
    if x <= 2 {
        "-"@
    } else if x <= 4 {
        "▢"@
    } else {
        "+"@
    }
}

/// One face as it is shown.
pub open spec fn face_text(x: u64, fudge: bool) -> Seq<char> {
    if fudge {
        fudge_symbol(x)
    } else {
        decimal(x as nat)
    }
}

/// The faces joined by `, `.
pub open spec fn faces_text(s: Seq<u64>, fudge: bool) -> Seq<char>
    decreases s.len(),
{
    if s.len() == 0 {
        Seq::empty()
    } else if s.len() == 1 {
        face_text(s[0], fudge)
    } else {
        faces_text(s.drop_last(), fudge) + ", "@ + face_text(s.last(), fudge)
    }
}

/// One history entry as it is shown.
pub open spec fn entry_text(h: RollHistory) -> Seq<char> {
    match h {
        RollHistory::Roll(v) => "["@ + faces_text(v@, false) + "]"@,
        RollHistory::Fudge(v) => "["@ + faces_text(v@, true) + "]"@,
        RollHistory::Value(x) => decimal(x as nat),
        RollHistory::Separator(op) => " "@ + op@ + " "@,
    }
}

/// The entries of a history shown one after another.
pub open spec fn history_text(hs: Seq<RollHistory>) -> Seq<char>
    decreases hs.len(),
{
    if hs.len() == 0 {
        Seq::empty()
    } else {
        history_text(hs.drop_last()) + entry_text(hs.last())
    }
}

/// A roll result as it is shown: its trace between backticks (its total
/// when it has no history), its total in bold, and its reason, if any.
pub open spec fn result_text(m: RollModel) -> Seq<char> {
    let trace = if m.history.len() == 0 {
        signed_decimal(m.total as int)
    } else {
        history_text(m.history)
    };
    let head = "`"@ + trace + "` Result: **"@ + signed_decimal(m.total as int) + "**"@;
    match m.reason {
        Option::Some(r) => head + ", Reason: `"@ + r + "`"@,
        Option::None => head,
    }
}

/// A five-element reading as it is shown: the roll, then one line for each
/// outcome with its element's label and its count.
pub open spec fn cde_text(c: CdeResult) -> Seq<char> {
    let roll = match c.history {
        Option::Some(h) => entry_text(h),
        Option::None => Seq::empty(),
    };
    roll + "\nSuccess ("@ + c.elements@[0]@ + "): "@ + decimal(c.success as nat)
        + "\nLucky dice ("@ + c.elements@[1]@ + "): "@ + decimal(c.lucky as nat)
        + "\nIll dice ("@ + c.elements@[2]@ + "): "@ + decimal(c.ill as nat) + "\nLoksyu ("@
        + c.elements@[3]@ + "): "@ + decimal(c.loksyu.0 as nat) + " ● Yin / "@ + decimal(
        c.loksyu.1 as nat,
    ) + " ○ Yang\nTin Ji ("@ + c.elements@[4]@ + "): "@ + decimal(c.tin_ji as nat) + "\n"@
}

/// The digit `d` as text.
fn digit_str(d: u64) -> (r: &'static str)
    requires
        d < 10,
    ensures
        r@ == digit_text(d as nat),
{
    if d == 0 {
        "0"
    } else if d == 1 {
        "1"
    } else if d == 2 {
        "2"
    } else if d == 3 {
        "3"
    } else if d == 4 {
        "4"
    } else if d == 5 {
        "5"
    } else if d == 6 {
        "6"
    } else if d == 7 {
        "7"
    } else if d == 8 {
        "8"
    } else {
        "9"
    }
}

/// Appends `n` in decimal.
fn push_decimal(out: &mut String, n: u64)
    ensures
        final(out)@ == old(out)@ + decimal(n as nat),
    decreases n,
{
    if n >= 10 {
        push_decimal(out, n / 10);
    }
    out.append(digit_str(n % 10));
    assert(final(out)@ =~= old(out)@ + decimal(n as nat));
}

/// Appends `x` in decimal, with its sign.
fn push_signed(out: &mut String, x: i64)
    ensures
        final(out)@ == old(out)@ + signed_decimal(x as int),
{
    if x < 0 {
        out.append("-");
        push_decimal(out, (0 - (x as i128)) as u64);
    } else {
        push_decimal(out, x as u64);
    }
    assert(final(out)@ =~= old(out)@ + signed_decimal(x as int));
}

/// Appends one face.
fn push_face(out: &mut String, x: u64, fudge: bool)
    ensures
        final(out)@ == old(out)@ + face_text(x, fudge),
{
    if !fudge {
        push_decimal(out, x);
    } else if x <= 2 {
        out.append("-");
    } else if x <= 4 {
        out.append("▢");
    } else {
        out.append("+");
    }
}

/// Appends one history entry.
fn push_entry(out: &mut String, h: &RollHistory)
    ensures
        final(out)@ == old(out)@ + entry_text(*h),
{
    match h {
        RollHistory::Roll(v) => push_faces(out, v, false),
        RollHistory::Fudge(v) => push_faces(out, v, true),
        RollHistory::Value(x) => push_decimal(out, *x),
        RollHistory::Separator(op) => {
            out.append(" ");
            out.append(op);
            out.append(" ");
        },
    }
    assert(final(out)@ =~= old(out)@ + entry_text(*h));
}

/// Appends the faces between brackets, joined by `, `.
fn push_faces(out: &mut String, v: &Vec<u64>, fudge: bool)
    ensures
        final(out)@ == old(out)@ + "["@ + faces_text(v@, fudge) + "]"@,
{
    out.append("[");
    let ghost start = out@;
    let mut i: usize = 0;
    while i < v.len()
        invariant
            i <= v.len(),
            out@ == start + faces_text(v@.subrange(0, i as int), fudge),
        decreases v.len() - i,
    {
        assert(v@.subrange(0, i as int + 1).drop_last() =~= v@.subrange(0, i as int));
        if i > 0 {
            out.append(", ");
        }
        push_face(out, v[i], fudge);
        i = i + 1;
        assert(out@ =~= start + faces_text(v@.subrange(0, i as int), fudge));
    }
    assert(v@.subrange(0, v.len() as int) =~= v@);
    out.append("]");
    assert(final(out)@ =~= old(out)@ + "["@ + faces_text(v@, fudge) + "]"@);
}

/// Appends every entry of a history.
fn push_history(out: &mut String, hs: &Vec<RollHistory>)
    ensures
        final(out)@ == old(out)@ + history_text(hs@),
{
    let ghost start = out@;
    let mut i: usize = 0;
    while i < hs.len()
        invariant
            i <= hs.len(),
            out@ == start + history_text(hs@.subrange(0, i as int)),
        decreases hs.len() - i,
    {
        assert(hs@.subrange(0, i as int + 1).drop_last() =~= hs@.subrange(0, i as int));
        push_entry(out, &hs[i]);
        i = i + 1;
        assert(out@ =~= start + history_text(hs@.subrange(0, i as int)));
    }
    assert(hs@.subrange(0, hs.len() as int) =~= hs@);
}

impl RollResult {
    /// The result as text: its trace between backticks, its total in bold,
    /// and its reason, if any.
    pub fn render(&self) -> (r: String)
        ensures
            r@ == result_text(self@),
    {
        let mut out = String::new();
        out.append("`");
        let history = self.get_history();
        if history.len() == 0 {
            push_signed(&mut out, self.get_total());
        } else {
            push_history(&mut out, history);
        }
        out.append("` Result: **");
        push_signed(&mut out, self.get_total());
        out.append("**");
        match self.get_reason() {
            Option::Some(reason) => {
                out.append(", Reason: `");
                out.append(reason.as_str());
                out.append("`");
            },
            Option::None => {},
        }
        assert(out@ =~= result_text(self@));
        out
    }
}

impl CdeResult {
    /// The reading as text: the roll, then one line for each outcome with
    /// its element's label and its count.
    pub fn render(&self) -> (r: String)
        ensures
            r@ == cde_text(*self),
    {
        let mut out = String::new();
        match &self.history {
            Option::Some(h) => push_entry(&mut out, h),
            Option::None => {},
        }
        out.append("\nSuccess (");
        out.append(self.elements[0].as_str());
        out.append("): ");
        push_decimal(&mut out, self.success as u64);
        out.append("\nLucky dice (");
        out.append(self.elements[1].as_str());
        out.append("): ");
        push_decimal(&mut out, self.lucky as u64);
        out.append("\nIll dice (");
        out.append(self.elements[2].as_str());
        out.append("): ");
        push_decimal(&mut out, self.ill as u64);
        out.append("\nLoksyu (");
        out.append(self.elements[3].as_str());
        out.append("): ");
        push_decimal(&mut out, self.loksyu.0 as u64);
        out.append(" ● Yin / ");
        push_decimal(&mut out, self.loksyu.1 as u64);
        out.append(" ○ Yang\nTin Ji (");
        out.append(self.elements[4].as_str());
        out.append("): ");
        push_decimal(&mut out, self.tin_ji as u64);
        out.append("\n");
        assert(out@ =~= cde_text(*self));
        out
    }
}

} // verus!
