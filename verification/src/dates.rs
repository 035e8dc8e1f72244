//! Calendar dates and the `YYYY-MM-DD.md` entry file name built from
//! them. The decimal formatting is verified against a recursive
//! specification of the digit sequence.

use vstd::prelude::*;
use vstd::string::StringExecFns;
use chrono::Datelike;

verus! {

/// A calendar date, as plain values.
pub struct Date {
    pub year: i32,
    pub month: u32,
    pub day: u32,
}

/// The character for one decimal digit.
pub open spec fn dec_digit(d: nat) -> char {
    if d == 0 {
        '0'
    } else if d == 1 {
        '1'
    } else if d == 2 {
        '2'
    } else if d == 3 {
        '3'
    } else if d == 4 {
        '4'
    } else if d == 5 {
        '5'
    } else if d == 6 {
        '6'
    } else if d == 7 {
        '7'
    } else if d == 8 {
        '8'
    } else {
        '9'
    }
}

/// The decimal representation of `n`, most significant digit first.
pub open spec fn dec_rep(n: nat) -> Seq<char>
    decreases n,
{
    if n < 10 {
        seq![dec_digit(n)]
    } else {
        dec_rep(n / 10).push(dec_digit(n % 10))
    }
}

/// `dec_rep(n)` padded with leading zeros to at least `width` characters.
pub open spec fn padded_dec(n: nat, width: nat) -> Seq<char> {
    if dec_rep(n).len() >= width {
        dec_rep(n)
    } else {
        Seq::new((width - dec_rep(n).len()) as nat, |j: int| '0') + dec_rep(n)
    }
}

/// The year part of a date string: at least four digits, a leading
/// minus sign for years before year zero.
pub open spec fn year_seq(y: int) -> Seq<char> {
    if y >= 0 {
        padded_dec(y as nat, 4)
    } else {
        seq!['-'] + padded_dec((-y) as nat, 4)
    }
}

impl Date {
    /// Month and day lie in the ranges a calendar allows.
    pub open spec fn wf(self) -> bool {
        1 <= self.month <= 12 && 1 <= self.day <= 31
    }

    /// The date written as `YYYY-MM-DD`.
    pub open spec fn text_spec(self) -> Seq<char> {
        year_seq(self.year as int) + seq!['-'] + padded_dec(self.month as nat, 2) + seq!['-']
            + padded_dec(self.day as nat, 2)
    }
}

/// The name of the entry file for a date: the date text plus `.md`.
pub open spec fn file_name_spec(d: Date) -> Seq<char> {
    d.text_spec() + ".md"@
}

proof fn lemma_dec_rep_len(n: nat)
    ensures
        1 <= dec_rep(n).len() <= n + 1,
    decreases n,
{
    if n >= 10 {
        assert(n / 10 < n) by (nonlinear_arith)
            requires
                n >= 10,
        ;
        lemma_dec_rep_len(n / 10);
    }
}

fn push_digit(s: &mut String, d: u32)
    requires
        d < 10,
    ensures
        final(s)@ == old(s)@ + seq![dec_digit(d as nat)],
{
    proof {
        reveal_strlit("0");
        reveal_strlit("1");
        reveal_strlit("2");
        reveal_strlit("3");
        reveal_strlit("4");
        reveal_strlit("5");
        reveal_strlit("6");
        reveal_strlit("7");
        reveal_strlit("8");
        reveal_strlit("9");
    }
    if d == 0 {
        s.append("0");
    } else if d == 1 {
        s.append("1");
    } else if d == 2 {
        s.append("2");
    } else if d == 3 {
        s.append("3");
    } else if d == 4 {
        s.append("4");
    } else if d == 5 {
        s.append("5");
    } else if d == 6 {
        s.append("6");
    } else if d == 7 {
        s.append("7");
    } else if d == 8 {
        s.append("8");
    } else {
        s.append("9");
    }
    proof {
        assert(s@ =~= old(s)@ + seq![dec_digit(d as nat)]);
    }
}

fn push_dec(s: &mut String, n: u32)
    ensures
        final(s)@ == old(s)@ + dec_rep(n as nat),
    decreases n,
{
    if n >= 10 {
        proof {
            assert(n / 10 < n) by (nonlinear_arith)
                requires
                    n >= 10,
            ;
        }
        push_dec(s, n / 10);
        push_digit(s, n % 10);
        proof {
            assert(s@ =~= old(s)@ + dec_rep(n as nat));
        }
    } else {
        push_digit(s, n);
    }
}

fn num_digits(n: u32) -> (r: usize)
    ensures
        r == dec_rep(n as nat).len(),
    decreases n,
{
    proof {
        lemma_dec_rep_len(n as nat);
    }
    if n < 10 {
        1
    } else {
        proof {
            assert(n / 10 < n) by (nonlinear_arith)
                requires
                    n >= 10,
            ;
        }
        let r: usize = num_digits(n / 10);
        proof {
            lemma_dec_rep_len((n / 10) as nat);
        }
        r + 1
    }
}

fn push_padded(s: &mut String, n: u32, width: usize)
    ensures
        final(s)@ == old(s)@ + padded_dec(n as nat, width as nat),
{
    let nd: usize = num_digits(n);
    proof {
        lemma_dec_rep_len(n as nat);
    }
    let mut i: usize = nd;
    while i < width
        invariant
            nd <= i,
            i <= width || i == nd,
            nd == dec_rep(n as nat).len(),
            s@ == old(s)@ + Seq::new((i - nd) as nat, |j: int| '0'),
        decreases width - i,
    {
        push_digit(s, 0);
        i += 1;
        proof {
            assert(s@ =~= old(s)@ + Seq::new((i - nd) as nat, |j: int| '0'));
        }
    }
    push_dec(s, n);
    proof {
        assert(s@ =~= old(s)@ + padded_dec(n as nat, width as nat));
    }
}

fn push_year(s: &mut String, y: i32)
    ensures
        final(s)@ == old(s)@ + year_seq(y as int),
{
    if y >= 0 {
        push_padded(s, y as u32, 4);
    } else {
        proof {
            reveal_strlit("-");
        }
        s.append("-");
        let a: u32 = if y == i32::MIN {
            2147483648
        } else {
            (-y) as u32
        };
        push_padded(s, a, 4);
        proof {
            assert(s@ =~= old(s)@ + year_seq(y as int));
        }
    }
}

/// Writes a date as `YYYY-MM-DD`: the year zero-padded to at least four
/// digits, month and day to two.
pub fn format_date(d: &Date) -> (r: String)
    ensures
        r@ == d.text_spec(),
{
    let mut s = String::new();
    proof {
        reveal_strlit("-");
    }
    push_year(&mut s, d.year);
    s.append("-");
    push_padded(&mut s, d.month, 2);
    s.append("-");
    push_padded(&mut s, d.day, 2);
    proof {
        assert(s@ =~= d.text_spec());
    }
    s
}

/// The file name under which a date's entry is stored.
pub fn entry_file_name(d: &Date) -> (r: String)
    ensures
        r@ == file_name_spec(*d),
{
    let mut s = format_date(d);
    s.append(".md");
    s
}

/// Relies on chrono::Local::now and chrono::Datelike's year, month and
/// day for the current local calendar date; chrono documents month in
/// 1..=12 and day in 1..=31.
#[verifier::external_body]
fn current_date() -> (r: Date)
    ensures
        r.wf(),
{
    let now = chrono::Local::now();
    Date { year: now.year(), month: now.month(), day: now.day() }
}

/// The file name of today's entry, from the machine's local date.
pub fn today_file_name() -> (r: String)
    ensures
        exists|d: Date| d.wf() && r@ == file_name_spec(d),
{
    let d = current_date();
    let r = entry_file_name(&d);
    proof {
        assert(d.wf() && r@ == file_name_spec(d));
    }
    r
}

} // verus!
