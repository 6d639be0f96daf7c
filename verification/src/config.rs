//! The service's settings, as found in its configuration source.
use vstd::prelude::*;

verus! {

/// Whether `c` is an ASCII decimal digit.
pub open spec fn is_digit(c: char) -> bool {
    '0' <= c && c <= '9'
}

/// The value of the decimal digit `c`.
pub open spec fn digit_value(c: char) -> nat {
    ((c as int) - 48) as nat
}

/// The number written by the digits `s`.
pub open spec fn digits_value(s: Seq<char>) -> nat
    decreases s.len(),
{
    if s.len() == 0 {
        0
    } else {
        digits_value(s.drop_last()) * 10 + digit_value(s.last())
    }
}

/// The digits of an unsigned number written with an optional leading `+`.
pub open spec fn unsigned_digits(s: Seq<char>) -> Seq<char> {
    if s.len() > 0 && s[0] == '+' {
        s.drop_first()
    } else {
        s
    }
}

/// Whether `s` is the decimal notation of a `u64`, as `u64::from_str`
/// accepts it: an optional `+`, then one or more ASCII digits whose value
/// fits in 64 bits.
pub open spec fn parses_u64(s: Seq<char>) -> bool {
    let d = unsigned_digits(s);
    &&& d.len() > 0
    &&& forall|i: int| 0 <= i < d.len() ==> is_digit(#[trigger] d[i])
    &&& digits_value(d) <= u64::MAX
}

proof fn lemma_digits_value_grows(s: Seq<char>, j: int, k: int)
    requires
        0 <= j <= k <= s.len(),
    ensures
        digits_value(s.subrange(0, j)) <= digits_value(s.subrange(0, k)),
    decreases k - j,
{
    if j < k {
        lemma_digits_value_grows(s, j, k - 1);
        assert(s.subrange(0, k).drop_last() == s.subrange(0, k - 1));
    }
}

/// Reads a `u64` written in decimal (see `parses_u64`).
pub fn parse_u64(s: &str) -> (r: Option<u64>)
    ensures
        r is Some <==> parses_u64(s@),
        r matches Some(v) ==> v == digits_value(unsigned_digits(s@)),
{
    let n = s.unicode_len();
    let mut start: usize = 0;
    if n > 0 && s.get_char(0) == '+' {
        start = 1;
    }
    let ghost d = unsigned_digits(s@);
    assert(d == s@.subrange(start as int, n as int));
    if start >= n {
        return None;
    }
    let mut value: u64 = 0;
    let mut i: usize = start;
    while i < n
        invariant
            n == s@.len(),
            start <= i <= n,
            d == s@.subrange(start as int, n as int),
            d == unsigned_digits(s@),
            forall|k: int| 0 <= k < i - start ==> is_digit(#[trigger] d[k]),
            value == digits_value(d.subrange(0, i - start)),
        decreases n - i,
    {
        let c = s.get_char(i);
        if !(c >= '0' && c <= '9') {
            assert(!is_digit(d[i - start]));
            return None;
        }
        let digit = (c as u32 - 48) as u64;
        proof {
            assert(d.subrange(0, i - start + 1).drop_last() == d.subrange(0, i - start));
            assert(d.subrange(0, i - start + 1).last() == c);
        }
        if value > (u64::MAX - digit) / 10 {
            proof {
                assert(digits_value(d.subrange(0, i - start + 1)) == value * 10 + digit);
                assert(value * 10 + digit > u64::MAX) by (nonlinear_arith)
                    requires
                        value > (u64::MAX - digit) / 10,
                        digit <= 9,
                ;
                lemma_digits_value_grows(d, i - start + 1, d.len() as int);
                assert(d.subrange(0, d.len() as int) == d);
            }
            return None;
        }
        assert(value * 10 + digit <= u64::MAX) by (nonlinear_arith)
            requires
                value <= (u64::MAX - digit) / 10,
                digit <= 9,
        ;
        value = value * 10 + digit;
        i = i + 1;
    }
    assert(d.subrange(0, d.len() as int) == d);
    Some(value)
}

/// The settings of the service.
#[derive(Clone, Debug)]
pub struct AppConfig {
    pub storage_dir: String,
    pub database_dir: String,
    pub template_dir: Option<String>,
    pub deletion_interval_ms: u64,
    /// File for storing upload access tokens
    pub token_file: String,
}

impl AppConfig {
    /// The settings given what the configuration source holds: the storage
    /// directory, and the values found under `database_dir` and
    /// `deletion_interval_ms`, if any. The database directory defaults to
    /// `<storage>/db`, and the deletion interval to one hour. The token file
    /// and the template directory are both read from the `database_dir`
    /// value; without one, the token file is `<database>/tokens.toml` and the
    /// service's own templates are used.
    pub fn new(
        storage_dir: String,
        database_dir: Option<String>,
        deletion_interval_ms: Option<String>,
    ) -> (r: AppConfig)
        requires
            deletion_interval_ms matches Some(s) ==> parses_u64(s@),
        ensures
            r.storage_dir@ == storage_dir@,
            r.database_dir@ == match database_dir {
                Some(d) => d@,
                None => storage_dir@ + "/db"@,
            },
            r.token_file@ == match database_dir {
                Some(t) => t@,
                None => r.database_dir@ + "/tokens.toml"@,
            },
            r.template_dir matches Some(t) ==> database_dir matches Some(d) && t@ == d@,
            r.template_dir is None <==> database_dir is None,
            r.deletion_interval_ms == match deletion_interval_ms {
                Some(s) => digits_value(unsigned_digits(s@)),
                None => 3600000,
            },
    {
        let database = match &database_dir {
            Some(d) => d.clone(),
            None => {
                let mut d = storage_dir.clone();
                d.append("/db");
                d
            },
        };
        let token_file = match &database_dir {
            Some(t) => t.clone(),
            None => {
                let mut t = database.clone();
                t.append("/tokens.toml");
                t
            },
        };
        let template_dir = match &database_dir {
            Some(d) => Some(d.clone()),
            None => None,
        };
        let interval = match &deletion_interval_ms {
            Some(s) => match parse_u64(s.as_str()) {
                Some(v) => v,
                None => 0,
            },
            None => 3600000,
        };
        AppConfig {
            storage_dir,
            database_dir: database,
            template_dir,
            deletion_interval_ms: interval,
            token_file,
        }
    }
}

} // verus!
