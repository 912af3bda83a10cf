//! Rendering numbers and lists of numbers as text.
use vstd::prelude::*;
use vstd::string::StringExecFns;

verus! {

/// The ASCII digit for `d`, which is below ten.
pub open spec fn digit_char(d: nat) -> char {
    if d == 0 {
        '0'
    } else if d == 1 {
        '1'
    } else if d == 2 {
        '2'
    } else if d == 3 {
        '3'
    } else if d == 4 {
        '4'
    } else if d == 5 {
        '5'
    } else if d == 6 {
        '6'
    } else if d == 7 {
        '7'
    } else if d == 8 {
        '8'
    } else {
        '9'
    }
}

/// `n` in base ten, without leading zeros.
pub open spec fn decimal(n: nat) -> Seq<char>
    decreases n,
{
    if n < 10 {
        seq![digit_char(n)]
    } else {
        decimal(n / 10) + seq![digit_char(n % 10)]
    }
}

fn digit_str(d: u64) -> (r: &'static str)
    requires
        d < 10,
    ensures
        r@ == seq![digit_char(d as nat)],
{
    proof {
        reveal_strlit("0");
        reveal_strlit("1");
        reveal_strlit("2");
        reveal_strlit("3");
        reveal_strlit("4");
        reveal_strlit("5");
        reveal_strlit("6");
        reveal_strlit("7");
        reveal_strlit("8");
        reveal_strlit("9");
    }
    let r = if d == 0 {
        "0"
    } else if d == 1 {
        "1"
    } else if d == 2 {
        "2"
    } else if d == 3 {
        "3"
    } else if d == 4 {
        "4"
    } else if d == 5 {
        "5"
    } else if d == 6 {
        "6"
    } else if d == 7 {
        "7"
    } else if d == 8 {
        "8"
    } else {
        "9"
    };
    assert(r@ =~= seq![digit_char(d as nat)]);
    r
}

/// Appends `n` in base ten to `out`.
pub fn push_decimal(out: &mut String, n: u64)
    ensures
        final(out)@ == old(out)@ + decimal(n as nat),
    decreases n,
{
    if n >= 10 {
        push_decimal(out, n / 10);
    }
    out.append(digit_str(n % 10));
    assert(final(out)@ =~= old(out)@ + decimal(n as nat)) by {
        if n >= 10 {
            assert(decimal(n as nat) == decimal((n / 10) as nat) + seq![digit_char((n % 10) as nat)]);
        }
    };
}

/// `b` comes right after `a`.
pub open spec fn follows(a: usize, b: usize) -> bool {
    b == a + 1
}

/// What element `i` of `s` adds to the text: a run of consecutive values is
/// written `first-last`, a run of one value as that value, and runs are
/// separated by `", "`.
pub open spec fn range_piece(s: Seq<usize>, i: int) -> Seq<char> {
    let starts = i == 0 || !follows(s[i - 1], s[i]);
    let ends = i + 1 == s.len() || !follows(s[i], s[i + 1]);
    let sep = if i > 0 {
        seq![',', ' ']
    } else {
        Seq::empty()
    };
    if starts && ends {
        sep + decimal(s[i] as nat)
    } else if starts {
        sep + decimal(s[i] as nat) + seq!['-']
    } else if ends {
        decimal(s[i] as nat)
    } else {
        Seq::empty()
    }
}

/// The pieces of the first `n` elements of `s`, in order.
pub open spec fn range_pieces(s: Seq<usize>, n: nat) -> Seq<char>
    decreases n,
{
    if n == 0 || n > s.len() {
        Seq::empty()
    } else {
        range_pieces(s, (n - 1) as nat) + range_piece(s, n - 1)
    }
}

/// `s` written as comma-separated runs of consecutive values.
pub open spec fn ranges_text(s: Seq<usize>) -> Seq<char> {
    range_pieces(s, s.len())
}

fn is_next(a: usize, b: usize) -> (r: bool)
    ensures
        r == follows(a, b),
{
    a < usize::MAX && b == a + 1
}

/// Writes a list of numbers as runs of consecutive values, such as
/// `"1-3, 5, 7-9"`; an empty list gives an empty string.
pub fn format_ranges(nums: &[usize]) -> (r: String)
    ensures
        r@ == ranges_text(nums@),
{
    let mut out = String::new();
    let mut i: usize = 0;
    while i < nums.len()
        invariant
            i <= nums@.len(),
            out@ == range_pieces(nums@, i as nat),
        decreases nums@.len() - i,
    {
        let starts = i == 0 || !is_next(nums[i - 1], nums[i]);
        let ends = i + 1 == nums.len() || !is_next(nums[i], nums[i + 1]);
        let ghost before = out@;
        if starts {
            if i > 0 {
                out.append(", ");
            }
            push_decimal(&mut out, nums[i] as u64);
            if !ends {
                out.append("-");
            }
        } else if ends {
            push_decimal(&mut out, nums[i] as u64);
        }
        proof {
            reveal_strlit(", ");
            reveal_strlit("-");
        }
        assert(", "@ =~= seq![',', ' ']);
        assert("-"@ =~= seq!['-']);
        assert(out@ =~= before + range_piece(nums@, i as int));
        i = i + 1;
    }
    out
}

} // verus!
