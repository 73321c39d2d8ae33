//! The name of the document that holds a run's results. It tells the run's
//! configuration, so that runs with different configurations do not
//! overwrite each other's results.

use vstd::prelude::*;
use vstd::string::StringExecFns;

verus! {

/// The character of a decimal digit.
pub open spec fn digit_char(digit: nat) -> char {
    if digit == 0 {
        '0'
    } else if digit == 1 {
        '1'
    } else if digit == 2 {
        '2'
    } else if digit == 3 {
        '3'
    } else if digit == 4 {
        '4'
    } else if digit == 5 {
        '5'
    } else if digit == 6 {
        '6'
    } else if digit == 7 {
        '7'
    } else if digit == 8 {
        '8'
    } else {
        '9'
    }
}

/// The decimal numeral of `n`, without leading zeros.
pub open spec fn nat_text(n: nat) -> Seq<char>
    decreases n,
{
    if n < 10 {
        seq![digit_char(n)]
    } else {
        nat_text(n / 10).push(digit_char(n % 10))
    }
}

/// The decimal numeral of `i`, with a minus sign where it is negative.
pub open spec fn int_text(i: int) -> Seq<char> {
    if i < 0 {
        seq!['-'] + nat_text((-i) as nat)
    } else {
        nat_text(i as nat)
    }
}

/// The name of the result document of a run with the given dataset
/// filter, zstd level and number of passes.
pub open spec fn spec_output_file_name(
    dataset_filter: Seq<char>,
    zstd_level: i32,
    iterations: usize,
) -> Seq<char> {
    "data/benchmark_"@ + dataset_filter + "_zstd"@ + int_text(zstd_level as int) + "_iter"@
        + nat_text(iterations as nat) + ".json"@
}

/// The text of one decimal digit.
fn digit_text(digit: usize) -> (text: &'static str)
    requires
        digit < 10,
    ensures
        text@ == seq![digit_char(digit as nat)],
{
    proof {
        reveal_strlit("0");
        reveal_strlit("1");
        reveal_strlit("2");
        reveal_strlit("3");
        reveal_strlit("4");
        reveal_strlit("5");
        reveal_strlit("6");
        reveal_strlit("7");
        reveal_strlit("8");
        reveal_strlit("9");
    }
    let text = if digit == 0 {
        "0"
    } else if digit == 1 {
        "1"
    } else if digit == 2 {
        "2"
    } else if digit == 3 {
        "3"
    } else if digit == 4 {
        "4"
    } else if digit == 5 {
        "5"
    } else if digit == 6 {
        "6"
    } else if digit == 7 {
        "7"
    } else if digit == 8 {
        "8"
    } else {
        "9"
    };
    assert(text@ =~= seq![digit_char(digit as nat)]);
    text
}

/// Writes the decimal numeral of `n` at the end of `out`.
fn append_nat(out: &mut String, n: usize)
    ensures
        final(out)@ == old(out)@ + nat_text(n as nat),
    decreases n,
{
    if n >= 10 {
        append_nat(out, n / 10);
    }
    out.append(digit_text(n % 10));
    proof {
        if n >= 10 {
            assert(final(out)@ =~= old(out)@ + nat_text((n / 10) as nat).push(
                digit_char((n % 10) as nat),
            ));
        }
    }
}

/// The name of the result document of a run with the given dataset
/// filter, zstd level and number of passes.
pub fn output_file_name(dataset_filter: &str, zstd_level: i32, iterations: usize) -> (name: String)
    ensures
        name@ == spec_output_file_name(dataset_filter@, zstd_level, iterations),
{
    let mut name = String::from_str("data/benchmark_");
    name.append(dataset_filter);
    name.append("_zstd");
    if zstd_level < 0 {
        proof {
            reveal_strlit("-");
        }
        name.append("-");
        let magnitude: usize = (-(zstd_level as i64)) as usize;
        append_nat(&mut name, magnitude);
        assert(name@ =~= "data/benchmark_"@ + dataset_filter@ + "_zstd"@ + int_text(
            zstd_level as int,
        ));
    } else {
        append_nat(&mut name, zstd_level as usize);
    }
    name.append("_iter");
    append_nat(&mut name, iterations);
    name.append(".json");
    name
}

} // verus!
