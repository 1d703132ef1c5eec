//! The rendered widget tree and the view function that builds it.
//!
//! The tree is plain data: an adapter around the library turns it into the
//! GUI toolkit's widgets and hands button presses back as [`Message`]s.

use crate::model::{Message, Model};
use vstd::prelude::*;
use vstd::string::StringExecFns;

verus! {

/// The decimal digit character for a value below ten.
pub open spec fn digit_char(d: nat) -> char {
    if d == 0 {
        '0'
    } else if d == 1 {
        '1'
    } else if d == 2 {
        '2'
    } else if d == 3 {
        '3'
    } else if d == 4 {
        '4'
    } else if d == 5 {
        '5'
    } else if d == 6 {
        '6'
    } else if d == 7 {
        '7'
    } else if d == 8 {
        '8'
    } else {
        '9'
    }
}

/// The decimal digits of a natural number, most significant first, with no
/// leading zero except for zero itself.
pub open spec fn decimal_digits(n: nat) -> Seq<char>
    decreases n,
{
    if n < 10 {
        seq![digit_char(n)]
    } else {
        decimal_digits(n / 10).push(digit_char(n % 10))
    }
}

/// The decimal rendering of a signed integer: a leading '-' for negative
/// values, then the digits of the magnitude.
pub open spec fn decimal_string(v: int) -> Seq<char> {
    if v < 0 {
        seq!['-'] + decimal_digits((-v) as nat)
    } else {
        decimal_digits(v as nat)
    }
}

/// The digit characters of a digit sequence read back to front: the digits
/// are collected least significant first, so reading them in reverse yields
/// the most-significant-first rendering.
spec fn rev_digit_chars(s: Seq<u32>) -> Seq<char> {
    Seq::new(s.len(), |i: int| digit_char(s[s.len() - 1 - i] as nat))
}

/// Appends the character for one decimal digit to a string.
fn append_digit(s: &mut String, d: u32)
    requires
        d < 10,
    ensures
        final(s)@ == old(s)@.push(digit_char(d as nat)),
{
    proof {
        reveal_strlit("0");
        reveal_strlit("1");
        reveal_strlit("2");
        reveal_strlit("3");
        reveal_strlit("4");
        reveal_strlit("5");
        reveal_strlit("6");
        reveal_strlit("7");
        reveal_strlit("8");
        reveal_strlit("9");
    }
    if d == 0 {
        s.append("0");
        proof {
            assert(s@ =~= old(s)@.push('0'));
        }
    } else if d == 1 {
        s.append("1");
        proof {
            assert(s@ =~= old(s)@.push('1'));
        }
    } else if d == 2 {
        s.append("2");
        proof {
            assert(s@ =~= old(s)@.push('2'));
        }
    } else if d == 3 {
        s.append("3");
        proof {
            assert(s@ =~= old(s)@.push('3'));
        }
    } else if d == 4 {
        s.append("4");
        proof {
            assert(s@ =~= old(s)@.push('4'));
        }
    } else if d == 5 {
        s.append("5");
        proof {
            assert(s@ =~= old(s)@.push('5'));
        }
    } else if d == 6 {
        s.append("6");
        proof {
            assert(s@ =~= old(s)@.push('6'));
        }
    } else if d == 7 {
        s.append("7");
        proof {
            assert(s@ =~= old(s)@.push('7'));
        }
    } else if d == 8 {
        s.append("8");
        proof {
            assert(s@ =~= old(s)@.push('8'));
        }
    } else {
        s.append("9");
        proof {
            assert(s@ =~= old(s)@.push('9'));
        }
    }
}

/// Renders a counter value in decimal, as the platform's default formatting
/// would: a '-' sign for negative values, then the digits, no leading zeros.
pub fn format_i32(v: i32) -> (s: String)
    ensures
        s@ == decimal_string(v as int),
{
    let ghost sign: Seq<char> = if v < 0 { seq!['-'] } else { Seq::<char>::empty() };
    let mut s = String::new();
    let mag: u32;
    if v < 0 {
        proof {
            reveal_strlit("-");
        }
        s.append("-");
        mag = (-(v as i64)) as u32;
        proof {
            assert(s@ =~= sign);
            assert(mag as int == -(v as int));
        }
    } else {
        mag = v as u32;
        proof {
            assert(s@ =~= sign);
        }
    }
    let mut rev: Vec<u32> = Vec::new();
    let mut n: u32 = mag;
    while n >= 10
        invariant
            forall|k: int| 0 <= k < rev@.len() ==> rev@[k] < 10,
            decimal_digits(mag as nat) == decimal_digits(n as nat) + rev_digit_chars(rev@),
        decreases n,
    {
        let d: u32 = n % 10;
        let ghost old_rev = rev@;
        let ghost old_n = n as nat;
        rev.push(d);
        n = n / 10;
        proof {
            assert(decimal_digits(old_n) == decimal_digits(old_n / 10).push(
                digit_char(old_n % 10),
            ));
            assert(rev_digit_chars(rev@) =~= seq![digit_char(d as nat)] + rev_digit_chars(old_rev));
            assert(decimal_digits(old_n / 10).push(digit_char(old_n % 10)) + rev_digit_chars(
                old_rev,
            ) =~= decimal_digits(old_n / 10) + rev_digit_chars(rev@));
        }
    }
    let ghost old_rev = rev@;
    let ghost nn = n as nat;
    rev.push(n);
    proof {
        assert(decimal_digits(nn) =~= seq![digit_char(nn)]);
        assert(rev_digit_chars(rev@) =~= seq![digit_char(nn)] + rev_digit_chars(old_rev));
        assert(decimal_digits(nn) + rev_digit_chars(old_rev) =~= rev_digit_chars(rev@));
    }
    let ghost digits: Seq<char> = decimal_digits(mag as nat);
    proof {
        assert(digits == rev_digit_chars(rev@));
        assert(s@ =~= sign + digits.take(0));
    }
    let mut i: usize = rev.len();
    while i > 0
        invariant
            i <= rev@.len(),
            forall|k: int| 0 <= k < rev@.len() ==> rev@[k] < 10,
            digits == rev_digit_chars(rev@),
            s@ == sign + digits.take(rev@.len() - i),
        decreases i,
    {
        i = i - 1;
        let d: u32 = rev[i];
        append_digit(&mut s, d);
        proof {
            let len = rev@.len() as int;
            assert(digits[len - 1 - i] == digit_char(d as nat));
            assert(digits.take(len - 1 - i).push(digits[len - 1 - i]) =~= digits.take(len - i));
            assert(s@ =~= sign + digits.take(len - i));
        }
    }
    proof {
        assert(digits.take(rev@.len() as int) =~= digits);
        assert(s@ =~= decimal_string(v as int));
    }
    s
}

/// One widget of the rendered tree, as plain data.
#[derive(Debug, PartialEq, Eq)]
pub enum Widget {
    /// A push button with a text label that emits a message when activated.
    Button { label: String, on_press: Message },
    /// A static text label.
    Text { content: String },
}

/// The mathematical shape of a widget: its texts as character sequences.
#[verifier::ext_equal]
pub enum WidgetV {
    Button { label: Seq<char>, on_press: Message },
    Text { content: Seq<char> },
}

impl View for Widget {
    type V = WidgetV;

    open spec fn view(&self) -> WidgetV {
        match self {
            Widget::Button { label, on_press } => WidgetV::Button {
                label: label@,
                on_press: *on_press,
            },
            Widget::Text { content } => WidgetV::Text { content: content@ },
        }
    }
}

/// A vertical container with fixed spacing between its children.
#[derive(Debug, PartialEq, Eq)]
pub struct Column {
    pub spacing: u32,
    pub children: Vec<Widget>,
}

/// The mathematical shape of a column: its children as a sequence.
#[verifier::ext_equal]
pub struct ColumnV {
    pub spacing: u32,
    pub children: Seq<WidgetV>,
}

impl View for Column {
    type V = ColumnV;

    open spec fn view(&self) -> ColumnV {
        ColumnV { spacing: self.spacing, children: self.children@.map_values(|w: Widget| w@) }
    }
}

/// The tree that a given counter value renders to: a "-" button that emits
/// `Decrement`, a text label with the value in decimal, and a "+" button
/// that emits `Increment`, arranged vertically with spacing 10.
pub open spec fn spec_view(value: i32) -> ColumnV {
    ColumnV {
        spacing: 10,
        children: seq![
            WidgetV::Button { label: "-"@, on_press: Message::Decrement },
            WidgetV::Text { content: decimal_string(value as int) },
            WidgetV::Button { label: "+"@, on_press: Message::Increment },
        ],
    }
}

/// Renders the counter: the tree is exactly `spec_view` of the model's
/// value, so rendering depends on the model alone.
pub fn view(counter: &Model) -> (c: Column)
    ensures
        c@ == spec_view(counter.value),
{
    let minus = Widget::Button { label: String::from_str("-"), on_press: Message::Decrement };
    let label = Widget::Text { content: format_i32(counter.value) };
    let plus = Widget::Button { label: String::from_str("+"), on_press: Message::Increment };
    let mut children: Vec<Widget> = Vec::new();
    children.push(minus);
    children.push(label);
    children.push(plus);
    let c = Column { spacing: 10, children };
    proof {
        assert(c@.children =~= spec_view(counter.value).children);
        assert(c@ =~= spec_view(counter.value));
    }
    c
}

/// Rendering is a pure function of the state: two models that hold the same
/// value render to structurally identical widget trees.
pub proof fn lemma_view_is_function_of_model(m1: Model, m2: Model)
    requires
        m1.value == m2.value,
    ensures
        spec_view(m1.value) == spec_view(m2.value),
{
}

} // verus!
