//! Network address of the robot controller, derived from the team number.

use vstd::prelude::*;
use vstd::string::StringExecFns;

verus! {

/// Largest team number that has an address.
pub const MAX_TEAM_NUMBER: u16 = 9999;

/// The ASCII character of the decimal digit `d`.
pub open spec fn digit_char(d: int) -> char {
    ('0' as int + d) as char
}

/// The dotted address `10.TE.AM.2` of team `team`, where `TEAM` is the team
/// number written with four decimal digits.
pub open spec fn team_ip(team: int) -> Seq<char> {
    seq![
        '1',
        '0',
        '.',
        digit_char(team / 1000),
        digit_char(team / 100 % 10),
        '.',
        digit_char(team / 10 % 10),
        digit_char(team % 10),
        '.',
        '2',
    ]
}

/// The decimal digit `d` as a string of one character.
fn digit_str(d: u16) -> (s: &'static str)
    requires
        d < 10,
    ensures
        s@ == seq![digit_char(d as int)],
{
    proof {
        reveal_strlit("0");
        reveal_strlit("1");
        reveal_strlit("2");
        reveal_strlit("3");
        reveal_strlit("4");
        reveal_strlit("5");
        reveal_strlit("6");
        reveal_strlit("7");
        reveal_strlit("8");
        reveal_strlit("9");
    }
    match d {
        0 => "0",
        1 => "1",
        2 => "2",
        3 => "3",
        4 => "4",
        5 => "5",
        6 => "6",
        7 => "7",
        8 => "8",
        _ => "9",
    }
}

/// Formats the address of the robot controller of team `team_number`.
///
/// The two middle octets keep their leading zeros, so team 8 has the
/// address `10.00.08.2`.
pub fn team_number_to_ip(team_number: u16) -> (ip: String)
    requires
        team_number <= MAX_TEAM_NUMBER,
    ensures
        ip@ == team_ip(team_number as int),
{
    proof {
        reveal_strlit("10.");
        reveal_strlit(".");
        reveal_strlit(".2");
    }
    let mut ip = String::from_str("10.");
    ip.append(digit_str(team_number / 1000));
    ip.append(digit_str(team_number / 100 % 10));
    ip.append(".");
    ip.append(digit_str(team_number / 10 % 10));
    ip.append(digit_str(team_number % 10));
    ip.append(".2");
    ip
}

} // verus!
