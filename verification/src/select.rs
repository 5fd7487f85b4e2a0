use vstd::prelude::*;
use vstd::string::StrSliceExecFns;

verus! {

/// The demonstrations that the dispatcher can run, one per snippet.
#[derive(Clone, Copy, Debug, PartialEq, Eq, Structural)]
pub enum Demo {
    GuessNumber,
    Println,
    Primitives,
    CustomTypes,
}

/// Which demonstration a selector string names: the first matching name
/// wins, and a string that names none of them selects nothing.
pub open spec fn selected(name: Seq<char>) -> Option<Demo> {
    if name == "guess_number"@ {
        Some(Demo::GuessNumber)
    } else if name == "println"@ {
        Some(Demo::Println)
    } else if name == "primitives"@ {
        Some(Demo::Primitives)
    } else if name == "custom_types"@ {
        Some(Demo::CustomTypes)
    } else {
        None
    }
}

/// Character-by-character equality of two string slices.
pub fn str_eq(a: &str, b: &str) -> (r: bool)
    ensures
        r == (a@ == b@),
{
    let a_len = a.unicode_len();
    let b_len = b.unicode_len();
    if a_len != b_len {
        return false;
    }
    let mut i: usize = 0;
    while i < a_len
        invariant
            a_len == a@.len(),
            b_len == b@.len(),
            a_len == b_len,
            i <= a_len,
            forall|j: int| 0 <= j < i ==> a@[j] == b@[j],
        decreases a_len - i,
    {
        if a.get_char(i) != b.get_char(i) {
            return false;
        }
        i = i + 1;
    }
    proof {
        assert(a@ =~= b@);
    }
    true
}

/// Decide which demonstration the selector string `name` asks for.
pub fn select_demo(name: &str) -> (r: Option<Demo>)
    ensures
        r == selected(name@),
{
    if str_eq(name, "guess_number") {
        Some(Demo::GuessNumber)
    } else if str_eq(name, "println") {
        Some(Demo::Println)
    } else if str_eq(name, "primitives") {
        Some(Demo::Primitives)
    } else if str_eq(name, "custom_types") {
        Some(Demo::CustomTypes)
    } else {
        None
    }
}

} // verus!
