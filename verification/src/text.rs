//! Small verified text utilities: string equality, decimal rendering of
//! process identifiers and exit codes, and comma-separated joining.

use vstd::prelude::*;

verus! {

/// True iff the two strings hold the same characters.
pub fn str_eq(a: &str, b: &str) -> (r: bool)
    ensures
        r == (a@ == b@),
{
    let na = a.unicode_len();
    let nb = b.unicode_len();
    if na != nb {
        return false;
    }
    let mut i: usize = 0;
    while i < na
        invariant
            na == a@.len(),
            na == b@.len(),
            i <= na,
            forall|j: int| 0 <= j < i ==> a@[j] == b@[j],
        decreases na - i,
    {
        if a.get_char(i) != b.get_char(i) {
            return false;
        }
        i = i + 1;
    }
    proof {
        assert(a@ =~= b@);
    }
    true
}

/// The decimal digit character for a value below ten.
pub open spec fn digit_char(d: nat) -> char {
    if d == 0 {
        '0'
    } else if d == 1 {
        '1'
    } else if d == 2 {
        '2'
    } else if d == 3 {
        '3'
    } else if d == 4 {
        '4'
    } else if d == 5 {
        '5'
    } else if d == 6 {
        '6'
    } else if d == 7 {
        '7'
    } else if d == 8 {
        '8'
    } else {
        '9'
    }
}

/// The decimal rendering of a natural number, most significant digit first,
/// with no leading zeros (zero itself renders as "0").
pub open spec fn dec_digits(n: nat) -> Seq<char>
    decreases n,
{
    if n < 10 {
        seq![digit_char(n)]
    } else {
        dec_digits(n / 10).push(digit_char(n % 10))
    }
}

fn digit_to_string(d: u64) -> (r: String)
    requires
        d < 10,
    ensures
        r@ == seq![digit_char(d as nat)],
{
    if d == 0 {
        proof {
            reveal_strlit("0");
            assert("0"@ =~= seq![digit_char(d as nat)]);
        }
        "0".to_owned()
    } else if d == 1 {
        proof {
            reveal_strlit("1");
            assert("1"@ =~= seq![digit_char(d as nat)]);
        }
        "1".to_owned()
    } else if d == 2 {
        proof {
            reveal_strlit("2");
            assert("2"@ =~= seq![digit_char(d as nat)]);
        }
        "2".to_owned()
    } else if d == 3 {
        proof {
            reveal_strlit("3");
            assert("3"@ =~= seq![digit_char(d as nat)]);
        }
        "3".to_owned()
    } else if d == 4 {
        proof {
            reveal_strlit("4");
            assert("4"@ =~= seq![digit_char(d as nat)]);
        }
        "4".to_owned()
    } else if d == 5 {
        proof {
            reveal_strlit("5");
            assert("5"@ =~= seq![digit_char(d as nat)]);
        }
        "5".to_owned()
    } else if d == 6 {
        proof {
            reveal_strlit("6");
            assert("6"@ =~= seq![digit_char(d as nat)]);
        }
        "6".to_owned()
    } else if d == 7 {
        proof {
            reveal_strlit("7");
            assert("7"@ =~= seq![digit_char(d as nat)]);
        }
        "7".to_owned()
    } else if d == 8 {
        proof {
            reveal_strlit("8");
            assert("8"@ =~= seq![digit_char(d as nat)]);
        }
        "8".to_owned()
    } else {
        proof {
            reveal_strlit("9");
            assert("9"@ =~= seq![digit_char(d as nat)]);
        }
        "9".to_owned()
    }
}

/// Renders an unsigned integer in decimal.
pub fn u64_to_string(n: u64) -> (r: String)
    ensures
        r@ == dec_digits(n as nat),
    decreases n,
{
    if n < 10 {
        digit_to_string(n)
    } else {
        let mut s = u64_to_string(n / 10);
        let d = digit_to_string(n % 10);
        s.append(d.as_str());
        proof {
            assert(s@ =~= dec_digits(n as nat));
        }
        s
    }
}

/// The comma-and-space separated decimal rendering of a process identifier
/// list, in list order.
pub open spec fn spec_pid_list(pids: Seq<u64>) -> Seq<char>
    decreases pids.len(),
{
    if pids.len() == 0 {
        Seq::empty()
    } else if pids.len() == 1 {
        dec_digits(pids[0] as nat)
    } else {
        spec_pid_list(pids.drop_last()) + seq![',', ' '] + dec_digits(pids.last() as nat)
    }
}

/// Joins process identifiers as "1234, 5678".
pub fn pid_list_string(pids: &Vec<u64>) -> (r: String)
    ensures
        r@ == spec_pid_list(pids@),
{
    let mut s = String::new();
    let mut i: usize = 0;
    while i < pids.len()
        invariant
            i <= pids@.len(),
            s@ == spec_pid_list(pids@.take(i as int)),
        decreases pids@.len() - i,
    {
        if i > 0 {
            s.append(", ");
        }
        let d = u64_to_string(pids[i]);
        s.append(d.as_str());
        proof {
            reveal_strlit(", ");
            assert(", "@ =~= seq![',', ' ']);
            let t = pids@.take(i + 1 as int);
            assert(t.drop_last() =~= pids@.take(i as int));
            assert(t.last() == pids@[i as int]);
            if i == 0 {
                assert(s@ =~= spec_pid_list(t));
            } else {
                assert(s@ =~= spec_pid_list(t));
            }
        }
        i = i + 1;
    }
    proof {
        assert(pids@.take(pids@.len() as int) =~= pids@);
    }
    s
}

/// The text a process exit is reported with: the decimal exit code when
/// there is one, or a fixed phrase for a process ended by a signal.
pub open spec fn spec_exit_code_text(code: Option<i32>) -> Seq<char> {
    match code {
        Some(c) => if c >= 0 {
            dec_digits(c as nat)
        } else {
            seq!['-'] + dec_digits((-(c as int)) as nat)
        },
        None => "terminated by signal"@,
    }
}

/// Renders an exit code for diagnostics.
pub fn exit_code_text(code: Option<i32>) -> (r: String)
    ensures
        r@ == spec_exit_code_text(code),
{
    match code {
        Some(c) => {
            if c >= 0 {
                u64_to_string(c as u64)
            } else {
                let mag: u64 = if c == -2147483648i32 {
                    2147483648u64
                } else {
                    (-c) as u64
                };
                let mut s = "-".to_owned();
                let d = u64_to_string(mag);
                s.append(d.as_str());
                proof {
                    reveal_strlit("-");
                    assert("-"@ =~= seq!['-']);
                    assert(s@ =~= spec_exit_code_text(code));
                }
                s
            }
        },
        None => "terminated by signal".to_owned(),
    }
}

} // verus!
