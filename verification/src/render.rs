use vstd::prelude::*;
use vstd::string::StrSliceExecFns;
use vstd::string::StringExecFns;
use crate::list::List;

verus! {

/// The decimal digit character for `d`, meaningful for `0 <= d <= 9`.
pub open spec fn digit_char(d: int) -> char {
    if d == 0 {
        '0'
    } else if d == 1 {
        '1'
    } else if d == 2 {
        '2'
    } else if d == 3 {
        '3'
    } else if d == 4 {
        '4'
    } else if d == 5 {
        '5'
    } else if d == 6 {
        '6'
    } else if d == 7 {
        '7'
    } else if d == 8 {
        '8'
    } else {
        '9'
    }
}

/// The decimal rendering of `n`: most significant digit first, without a
/// sign and without leading zeros (zero itself renders as a single '0').
pub open spec fn decimal(n: nat) -> Seq<char>
    decreases n,
{
    if n < 10 {
        seq![digit_char(n as int)]
    } else {
        decimal(n / 10).push(digit_char((n % 10) as int))
    }
}

/// The rendering of list contents `s`: each value in decimal followed by
/// ", ", closed by the sentinel "Nil" that stands for the empty tail.
pub open spec fn rendered(s: Seq<u32>) -> Seq<char>
    decreases s.len(),
{
    if s.len() == 0 {
        "Nil"@
    } else {
        decimal(s.first() as nat) + ", "@ + rendered(s.drop_first())
    }
}

/// The one-character string for a single decimal digit.
fn digit_str(d: u32) -> (s: &'static str)
    requires
        d < 10,
    ensures
        s@ == seq![digit_char(d as int)],
{
    proof {
        reveal_strlit("0");
        reveal_strlit("1");
        reveal_strlit("2");
        reveal_strlit("3");
        reveal_strlit("4");
        reveal_strlit("5");
        reveal_strlit("6");
        reveal_strlit("7");
        reveal_strlit("8");
        reveal_strlit("9");
    }
    match d {
        0 => "0",
        1 => "1",
        2 => "2",
        3 => "3",
        4 => "4",
        5 => "5",
        6 => "6",
        7 => "7",
        8 => "8",
        _ => "9",
    }
}

/// Render `n` in decimal as a fresh heap-allocated string.
pub fn u32_decimal(n: u32) -> (s: String)
    ensures
        s@ == decimal(n as nat),
    decreases n,
{
    if n < 10 {
        digit_str(n).to_owned()
    } else {
        let mut s = u32_decimal(n / 10);
        s.append(digit_str(n % 10));
        proof {
            assert(s@ =~= decimal(n as nat));
        }
        s
    }
}

impl List {
    /// Render the list as "<v1>, <v2>, ..., Nil": the elements in order,
    /// comma-joined, terminated by the empty-list sentinel.
    pub fn render(&self) -> (out: String)
        ensures
            out@ == rendered(self@),
        decreases *self,
    {
        match self {
            List::Nil => {
                let out = "Nil".to_owned();
                proof {
                    assert(self@.len() == 0);
                }
                out
            }
            List::Cons(head, tail) => {
                let mut out = u32_decimal(*head);
                out.append(", ");
                let rest = tail.render();
                out.append(rest.as_str());
                proof {
                    assert(self@.drop_first() =~= tail@);
                    assert(self@.first() == *head);
                    assert(out@ =~= rendered(self@));
                }
                out
            }
        }
    }
}

} // verus!
