//! The startup data: mock aircraft and satellites.
//!
//! The formulas are fixed: entity `i` gets a hex transponder address
//! derived from its index, a callsign from a rotating airline list, and
//! a position spread over a grid.  Every field is pinned exactly by the
//! generator contracts.

use vstd::prelude::*;
use vstd::string::StringExecFns;
use vstd::arithmetic::div_mod::{lemma_multiply_divide_lt, lemma_div_is_strictly_smaller};
use crate::entity::{Aircraft, Satellite};

verus! {

/// The character of one digit value, `0..16`.
pub open spec fn digit_char(d: int) -> char {
    if d == 0 {
        '0'
    } else if d == 1 {
        '1'
    } else if d == 2 {
        '2'
    } else if d == 3 {
        '3'
    } else if d == 4 {
        '4'
    } else if d == 5 {
        '5'
    } else if d == 6 {
        '6'
    } else if d == 7 {
        '7'
    } else if d == 8 {
        '8'
    } else if d == 9 {
        '9'
    } else if d == 10 {
        'a'
    } else if d == 11 {
        'b'
    } else if d == 12 {
        'c'
    } else if d == 13 {
        'd'
    } else if d == 14 {
        'e'
    } else {
        'f'
    }
}

/// The lower-case hex digits of `n`, most significant first.
pub open spec fn hex_digits(n: nat) -> Seq<char>
    decreases n,
{
    if n < 16 {
        seq![digit_char(n as int)]
    } else {
        hex_digits(n / 16) + seq![digit_char((n % 16) as int)]
    }
}

/// The hex digits of `n`, left-padded with zeros to at least six.
pub open spec fn icao_hex(n: nat) -> Seq<char> {
    if hex_digits(n).len() >= 6 {
        hex_digits(n)
    } else {
        Seq::new((6 - hex_digits(n).len()) as nat, |i: int| '0') + hex_digits(n)
    }
}

/// The three decimal digits of a flight number in `100..1000`.
pub open spec fn flight_number(n: nat) -> Seq<char> {
    seq![
        digit_char((n / 100) as int),
        digit_char(((n / 10) % 10) as int),
        digit_char((n % 10) as int),
    ]
}

/// The airline code of slot `k`, `0..9`.
pub open spec fn airline_name(k: int) -> Seq<char> {
    if k == 0 {
        "UAL"@
    } else if k == 1 {
        "AAL"@
    } else if k == 2 {
        "DAL"@
    } else if k == 3 {
        "BAW"@
    } else if k == 4 {
        "DLH"@
    } else if k == 5 {
        "AFR"@
    } else if k == 6 {
        "KLM"@
    } else if k == 7 {
        "JAL"@
    } else {
        "ANA"@
    }
}

/// The catalogue name of satellite `k`, `0..8`.
pub open spec fn satellite_name(k: int) -> Seq<char> {
    if k == 0 {
        "ISS (ZARYA)"@
    } else if k == 1 {
        "HST"@
    } else if k == 2 {
        "STARLINK-1007"@
    } else if k == 3 {
        "STARLINK-1008"@
    } else if k == 4 {
        "STARLINK-1009"@
    } else if k == 5 {
        "STARLINK-1010"@
    } else if k == 6 {
        "SES-7"@
    } else {
        "GPS-IIR-M"@
    }
}

/// One digit as a one-character string slice.
fn digit_str(d: u64) -> (r: &'static str)
    requires
        d < 16,
    ensures
        r@.len() == 1,
        r@[0] == digit_char(d as int),
{
    proof {
        reveal_strlit("0");
        reveal_strlit("1");
        reveal_strlit("2");
        reveal_strlit("3");
        reveal_strlit("4");
        reveal_strlit("5");
        reveal_strlit("6");
        reveal_strlit("7");
        reveal_strlit("8");
        reveal_strlit("9");
        reveal_strlit("a");
        reveal_strlit("b");
        reveal_strlit("c");
        reveal_strlit("d");
        reveal_strlit("e");
        reveal_strlit("f");
    }
    if d == 0 {
        "0"
    } else if d == 1 {
        "1"
    } else if d == 2 {
        "2"
    } else if d == 3 {
        "3"
    } else if d == 4 {
        "4"
    } else if d == 5 {
        "5"
    } else if d == 6 {
        "6"
    } else if d == 7 {
        "7"
    } else if d == 8 {
        "8"
    } else if d == 9 {
        "9"
    } else if d == 10 {
        "a"
    } else if d == 11 {
        "b"
    } else if d == 12 {
        "c"
    } else if d == 13 {
        "d"
    } else if d == 14 {
        "e"
    } else {
        "f"
    }
}

/// The lower-case hex rendering of `n`, unpadded.
fn hex_digits_exec(n: u64) -> (r: String)
    ensures
        r@ == hex_digits(n as nat),
    decreases n,
{
    if n < 16 {
        let r = String::from_str(digit_str(n));
        proof {
            assert(r@ =~= hex_digits(n as nat));
        }
        r
    } else {
        let mut s = hex_digits_exec(n / 16);
        s.append(digit_str(n % 16));
        proof {
            assert(s@ =~= hex_digits(n as nat));
        }
        s
    }
}

/// Powers of sixteen, for bounding digit counts.
pub open spec fn pow16(e: nat) -> nat
    decreases e,
{
    if e == 0 {
        1
    } else {
        16 * pow16((e - 1) as nat)
    }
}

/// A value below the `e`-th power of sixteen has at most `e` hex
/// digits.
proof fn lemma_hex_len_le(n: nat, e: nat)
    requires
        1 <= e,
        n < pow16(e),
    ensures
        hex_digits(n).len() <= e,
    decreases n,
{
    if n >= 16 {
        assert(e != 1) by {
            if e == 1 {
                assert(pow16(1) == 16 * pow16(0));
            }
        }
        assert(pow16(e) == 16 * pow16((e - 1) as nat));
        lemma_multiply_divide_lt(n as int, 16, pow16((e - 1) as nat) as int);
        lemma_div_is_strictly_smaller(n as int, 16);
        lemma_hex_len_le(n / 16, (e - 1) as nat);
    }
}

/// The number of hex digits of `n`: at most 16 for a 64-bit value.
fn hex_width(n: u64) -> (w: usize)
    ensures
        w == hex_digits(n as nat).len(),
        1 <= w <= 16,
    decreases n,
{
    proof {
        reveal_with_fuel(pow16, 17);
        assert(pow16(16) == 0x1_0000_0000_0000_0000);
        lemma_hex_len_le(n as nat, 16);
    }
    if n < 16 {
        1
    } else {
        let w0 = hex_width(n / 16);
        w0 + 1
    }
}

/// The six-or-more-digit hex transponder address of value `n`.
pub fn icao_hex_exec(n: u64) -> (r: String)
    ensures
        r@ == icao_hex(n as nat),
{
    proof {
        reveal_strlit("0");
    }
    let w = hex_width(n);
    let mut s = String::new();
    let mut k = w;
    while k < 6
        invariant
            w <= k <= 6 || (k == w && w >= 6),
            w == hex_digits(n as nat).len(),
            s@ =~= Seq::new((k - w) as nat, |i: int| '0'),
        decreases 6int - k,
    {
        s.append("0");
        k = k + 1;
        proof {
            reveal_strlit("0");
            assert(s@ =~= Seq::new((k - w) as nat, |i: int| '0'));
        }
    }
    let h = hex_digits_exec(n);
    s.append(h.as_str());
    proof {
        assert(s@ =~= icao_hex(n as nat));
    }
    s
}

/// The three-digit flight number string.
fn flight_number_exec(n: u64) -> (r: String)
    requires
        100 <= n < 1000,
    ensures
        r@ == flight_number(n as nat),
{
    let mut s = String::from_str(digit_str(n / 100));
    s.append(digit_str((n / 10) % 10));
    s.append(digit_str(n % 10));
    proof {
        assert(s@ =~= flight_number(n as nat));
    }
    s
}

/// The airline code of slot `k`.
fn airline_code(k: usize) -> (r: &'static str)
    requires
        k < 9,
    ensures
        r@ == airline_name(k as int),
{
    if k == 0 {
        "UAL"
    } else if k == 1 {
        "AAL"
    } else if k == 2 {
        "DAL"
    } else if k == 3 {
        "BAW"
    } else if k == 4 {
        "DLH"
    } else if k == 5 {
        "AFR"
    } else if k == 6 {
        "KLM"
    } else if k == 7 {
        "JAL"
    } else {
        "ANA"
    }
}

/// The catalogue name of satellite `k`.
fn satellite_name_exec(k: usize) -> (r: &'static str)
    requires
        k < 8,
    ensures
        r@ == satellite_name(k as int),
{
    if k == 0 {
        "ISS (ZARYA)"
    } else if k == 1 {
        "HST"
    } else if k == 2 {
        "STARLINK-1007"
    } else if k == 3 {
        "STARLINK-1008"
    } else if k == 4 {
        "STARLINK-1009"
    } else if k == 5 {
        "STARLINK-1010"
    } else if k == 6 {
        "SES-7"
    } else {
        "GPS-IIR-M"
    }
}

/// Every field mock aircraft `i` is generated with: a hex address from
/// the index, a rotating airline callsign with flight number `100 + i`,
/// a position on a grid, a speed from 200 to 690, a heading of four
/// degrees per slot, and the generation time.
pub open spec fn aircraft_matches(a: Aircraft, i: int, now: u64) -> bool {
    &&& a.icao24@ == icao_hex((i * 1234567) as nat)
    &&& (a.callsign matches Some(c) && c@ == airline_name(i % 9) + flight_number((100 + i) as nat))
    &&& a.latitude == ((i % 18) - 9) * 10_000_000
    &&& a.longitude == ((i % 36) - 18) * 10_000_000
    &&& a.altitude == 1_000_000_000 + i * 100_000_000
    &&& a.velocity == (200 + (i % 50) * 10) * 1_000_000
    &&& a.heading == i * 4_000_000
    &&& a.last_update == now
}

/// Builds the hundred mock aircraft, stamped with time `now`.
pub fn generate_aircraft(now: u64) -> (r: Vec<Aircraft>)
    ensures
        r@.len() == 100,
        forall|i: int| 0 <= i < 100 ==> aircraft_matches(#[trigger] r@[i], i, now),
        forall|i: int| 0 <= i < 100 ==> (#[trigger] r@[i]).wf(),
{
    let mut out: Vec<Aircraft> = Vec::new();
    let mut i: usize = 0;
    while i < 100
        invariant
            i <= 100,
            out@.len() == i as int,
            forall|j: int| 0 <= j < i as int ==> aircraft_matches(#[trigger] out@[j], j, now),
            forall|j: int| 0 <= j < i as int ==> (#[trigger] out@[j]).wf(),
        decreases 100 - i,
    {
        let icao24 = icao_hex_exec((i as u64) * 1234567);
        let mut callsign = String::from_str(airline_code(i % 9));
        let number = flight_number_exec(100 + (i as u64));
        callsign.append(number.as_str());
        let a = Aircraft {
            icao24,
            callsign: Some(callsign),
            latitude: (((i % 18) as i64) - 9) * 10_000_000,
            longitude: (((i % 36) as i64) - 18) * 10_000_000,
            altitude: 1_000_000_000 + (i as i64) * 100_000_000,
            velocity: (200 + ((i % 50) as i64) * 10) * 1_000_000,
            heading: (i as i64) * 4_000_000,
            last_update: now,
        };
        out.push(a);
        i = i + 1;
    }
    out
}

/// Every field mock satellite `k` is generated with: a catalogue
/// number from 25544 up, a fixed name, a position on a grid, and the
/// common orbital speed 7.66.
pub open spec fn satellite_matches(s: Satellite, k: int) -> bool {
    &&& s.norad_id == 25544 + k
    &&& s.name@ == satellite_name(k)
    &&& s.latitude == (k % 9) * 20_000_000 - 90_000_000
    &&& s.longitude == ((k % 18) - 9) * 20_000_000
    &&& s.altitude == 400_000_000 + k * 1_000_000_000
    &&& s.velocity == 7_660_000
}

/// Builds the eight mock satellites.
pub fn generate_satellites() -> (r: Vec<Satellite>)
    ensures
        r@.len() == 8,
        forall|k: int| 0 <= k < 8 ==> satellite_matches(#[trigger] r@[k], k),
{
    let mut out: Vec<Satellite> = Vec::new();
    let mut k: usize = 0;
    while k < 8
        invariant
            k <= 8,
            out@.len() == k as int,
            forall|j: int| 0 <= j < k as int ==> satellite_matches(#[trigger] out@[j], j),
        decreases 8 - k,
    {
        let s = Satellite {
            norad_id: 25544 + (k as u32),
            name: String::from_str(satellite_name_exec(k)),
            latitude: ((k % 9) as i64) * 20_000_000 - 90_000_000,
            longitude: (((k % 18) as i64) - 9) * 20_000_000,
            altitude: 400_000_000 + (k as i64) * 1_000_000_000,
            velocity: 7_660_000,
        };
        out.push(s);
        k = k + 1;
    }
    out
}

} // verus!
