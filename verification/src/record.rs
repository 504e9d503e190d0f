//! The records that a snapshot yields, and the line of text that shows one.

use vstd::prelude::*;
use vstd::string::*;

verus! {

/// A process that was opened and named: its identifier and the base name of
/// its executable image.
#[derive(Clone, Debug, PartialEq, Eq)]
pub struct ProcessRecord {
    pub pid: u32,
    pub name: String,
}

/// A [`ProcessRecord`] with its name as a sequence of characters.
pub struct ProcessRecordView {
    pub pid: u32,
    pub name: Seq<char>,
}

impl View for ProcessRecord {
    type V = ProcessRecordView;

    open spec fn view(&self) -> ProcessRecordView {
        ProcessRecordView { pid: self.pid, name: self.name@ }
    }
}

/// The character that shows the decimal digit `d`.
pub open spec fn digit(d: nat) -> char
    recommends
        d < 10,
{
    if d == 0 {
        '0'
    } else if d == 1 {
        '1'
    } else if d == 2 {
        '2'
    } else if d == 3 {
        '3'
    } else if d == 4 {
        '4'
    } else if d == 5 {
        '5'
    } else if d == 6 {
        '6'
    } else if d == 7 {
        '7'
    } else if d == 8 {
        '8'
    } else {
        '9'
    }
}

/// The decimal numeral of `n`, without sign or leading zeros.
pub open spec fn decimal(n: nat) -> Seq<char>
    decreases n,
{
    if n < 10 {
        seq![digit(n)]
    } else {
        decimal(n / 10).push(digit(n % 10))
    }
}

/// The line that shows a record: the name, a space, and the identifier in
/// decimal as `(pid=..)`.
pub open spec fn line_of(record: ProcessRecordView) -> Seq<char> {
    record.name + seq![' ', '(', 'p', 'i', 'd', '='] + decimal(record.pid as nat) + seq![')']
}

fn digit_text(d: u32) -> (text: &'static str)
    requires
        d < 10,
    ensures
        text@ == seq![digit(d as nat)],
{
    proof {
        reveal_strlit("0");
        reveal_strlit("1");
        reveal_strlit("2");
        reveal_strlit("3");
        reveal_strlit("4");
        reveal_strlit("5");
        reveal_strlit("6");
        reveal_strlit("7");
        reveal_strlit("8");
        reveal_strlit("9");
    }
    let text = if d == 0 {
        "0"
    } else if d == 1 {
        "1"
    } else if d == 2 {
        "2"
    } else if d == 3 {
        "3"
    } else if d == 4 {
        "4"
    } else if d == 5 {
        "5"
    } else if d == 6 {
        "6"
    } else if d == 7 {
        "7"
    } else if d == 8 {
        "8"
    } else {
        "9"
    };
    assert(text@ =~= seq![digit(d as nat)]);
    text
}

/// Appends the decimal numeral of `n` to `out`.
pub fn append_decimal(out: &mut String, n: u32)
    ensures
        final(out)@ == old(out)@ + decimal(n as nat),
    decreases n,
{
    if n >= 10 {
        append_decimal(out, n / 10);
    }
    out.append(digit_text(n % 10));
    assert(out@ =~= old(out)@ + decimal(n as nat));
}

impl ProcessRecord {
    /// The line of text that shows this record: `<name> (pid=<id>)`.
    pub fn line(&self) -> (text: String)
        ensures
            text@ == line_of(self@),
    {
        proof {
            reveal_strlit(" (pid=");
            reveal_strlit(")");
        }
        let mut text = self.name.clone();
        text.append(" (pid=");
        append_decimal(&mut text, self.pid);
        text.append(")");
        assert(text@ =~= line_of(self@));
        text
    }
}

} // verus!
