//! Load Balancing Algorithms module
use vstd::prelude::*;
use crate::load_balancer::error::Error;
use crate::text::str_equals;

verus! {

/// Load balancing algorithm module
#[derive(Debug, Clone, Copy, PartialEq, Eq, Structural)]
pub enum Algorithm {
    /// Adaptive: Distributes connections using any of the other algorithms for better performance.
    Adaptive,
    /// Round-robin: Distributes connections evenly by cycling through healthy backends in order.
    RoundRobin,
    /// Least connections: Routes to the backend with the fewest active connections.
    LeastConnections,
    /// Weighted round-robin: Distributes connections proportionally based on backend weights.
    WeightedRoundRobin,
}

/// The textual name of each algorithm.
pub open spec fn algorithm_name(a: Algorithm) -> Seq<char> {
    match a {
        Algorithm::Adaptive => "adaptive"@,
        Algorithm::RoundRobin => "round-robin"@,
        Algorithm::LeastConnections => "least-connections"@,
        Algorithm::WeightedRoundRobin => "weighted-round-robin"@,
    }
}

/// The numeric code of each algorithm.
pub open spec fn algorithm_code(a: Algorithm) -> u8 {
    match a {
        Algorithm::Adaptive => 0,
        Algorithm::RoundRobin => 1,
        Algorithm::LeastConnections => 2,
        Algorithm::WeightedRoundRobin => 3,
    }
}

/// The algorithm a name denotes, if any.
pub open spec fn parse_algorithm(s: Seq<char>) -> Option<Algorithm> {
    if s == "round-robin"@ {
        Some(Algorithm::RoundRobin)
    } else if s == "least-connections"@ {
        Some(Algorithm::LeastConnections)
    } else if s == "weighted-round-robin"@ {
        Some(Algorithm::WeightedRoundRobin)
    } else if s == "adaptive"@ {
        Some(Algorithm::Adaptive)
    } else {
        None
    }
}

/// The algorithm a numeric code denotes, if any.
pub open spec fn decode_algorithm(v: u8) -> Option<Algorithm> {
    if v == 0 {
        Some(Algorithm::Adaptive)
    } else if v == 1 {
        Some(Algorithm::RoundRobin)
    } else if v == 2 {
        Some(Algorithm::LeastConnections)
    } else if v == 3 {
        Some(Algorithm::WeightedRoundRobin)
    } else {
        None
    }
}

/// Decimal rendering of a byte.
pub open spec fn decimal_text(v: u8) -> Seq<char> {
    if v < 10 {
        seq![(v + 48) as char]
    } else if v < 100 {
        seq![((v / 10) + 48) as char, ((v % 10) + 48) as char]
    } else {
        seq![((v / 100) + 48) as char, (((v / 10) % 10) + 48) as char, ((v % 10) + 48) as char]
    }
}

fn digit_text(d: u8) -> (c: &'static str)
    requires
        d < 10,
    ensures
        c@ == seq![(d + 48) as char],
{
    proof {
        reveal_strlit("0");
        reveal_strlit("1");
        reveal_strlit("2");
        reveal_strlit("3");
        reveal_strlit("4");
        reveal_strlit("5");
        reveal_strlit("6");
        reveal_strlit("7");
        reveal_strlit("8");
        reveal_strlit("9");
    }
    if d == 0 { "0" } else if d == 1 { "1" } else if d == 2 { "2" } else if d == 3 { "3" } else if d == 4 {
        "4"
    } else if d == 5 { "5" } else if d == 6 { "6" } else if d == 7 { "7" } else if d == 8 { "8" } else {
        "9"
    }
}

/// Renders a byte in decimal.
pub fn u8_to_decimal(v: u8) -> (r: String)
    ensures
        r@ == decimal_text(v),
{
    let mut r = String::new();
    if v >= 100 {
        r.append(digit_text(v / 100));
        r.append(digit_text((v / 10) % 10));
    } else if v >= 10 {
        r.append(digit_text(v / 10));
    }
    r.append(digit_text(v % 10));
    assert(r@ =~= decimal_text(v));
    r
}

impl Algorithm {
    /// Parses an algorithm name.
    pub fn from_str(s: &str) -> (r: Result<Algorithm, Error>)
        ensures
            match parse_algorithm(s@) {
                Some(a) => r == Ok::<Algorithm, Error>(a),
                None => r matches Err(Error::InvalidStrategy(t)) && t@ == s@,
            },
    {
        if str_equals(s, "round-robin") {
            Ok(Algorithm::RoundRobin)
        } else if str_equals(s, "least-connections") {
            Ok(Algorithm::LeastConnections)
        } else if str_equals(s, "weighted-round-robin") {
            Ok(Algorithm::WeightedRoundRobin)
        } else if str_equals(s, "adaptive") {
            Ok(Algorithm::Adaptive)
        } else {
            Err(Error::InvalidStrategy(String::from_str(s)))
        }
    }

    /// Decodes a numeric algorithm code; an unknown code is reported as
    /// `Numeric value: <code>`.
    pub fn try_from(value: u8) -> (r: Result<Algorithm, Error>)
        ensures
            match decode_algorithm(value) {
                Some(a) => r == Ok::<Algorithm, Error>(a),
                None => r matches Err(Error::InvalidStrategy(t)) && t@ == "Numeric value: "@ + decimal_text(value),
            },
    {
        match value {
            0 => Ok(Algorithm::Adaptive),
            1 => Ok(Algorithm::RoundRobin),
            2 => Ok(Algorithm::LeastConnections),
            3 => Ok(Algorithm::WeightedRoundRobin),
            _ => {
                let prefix = String::from_str("Numeric value: ");
                let digits = u8_to_decimal(value);
                Err(Error::InvalidStrategy(prefix.concat(digits.as_str())))
            },
        }
    }
}

impl From<Algorithm> for u8 {
    fn from(value: Algorithm) -> (r: u8) {
        match value {
            Algorithm::Adaptive => 0,
            Algorithm::RoundRobin => 1,
            Algorithm::LeastConnections => 2,
            Algorithm::WeightedRoundRobin => 3,
        }
    }
}

impl vstd::std_specs::convert::FromSpecImpl<Algorithm> for u8 {
    open spec fn obeys_from_spec() -> bool {
        true
    }

    open spec fn from_spec(value: Algorithm) -> u8 {
        algorithm_code(value)
    }
}

/// Encoding and decoding are inverse: every algorithm's code decodes back to
/// it, every name parses back to it, and exactly the codes 0..=3 decode.
pub proof fn lemma_algorithm_round_trip(a: Algorithm, v: u8)
    ensures
        decode_algorithm(algorithm_code(a)) == Some(a),
        parse_algorithm(algorithm_name(a)) == Some(a),
        decode_algorithm(v) is Some <==> v <= 3,
        decode_algorithm(v) matches Some(b) ==> algorithm_code(b) == v,
{
    reveal_strlit("adaptive");
    reveal_strlit("round-robin");
    reveal_strlit("least-connections");
    reveal_strlit("weighted-round-robin");
    assert("adaptive"@.len() == 8);
    assert("round-robin"@.len() == 11);
    assert("least-connections"@.len() == 17);
    assert("weighted-round-robin"@.len() == 20);
}

} // verus!
