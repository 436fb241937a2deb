//! Worker configuration: validation, defaults and the names derived from it.
//!
//! A multiplier is carried as the IEEE-754 bit pattern of its `f64` value; the
//! library never computes with it, it only decides whether it is positive.
use vstd::prelude::*;
use crate::text::{
    owned, concat2, concat3, contains_seq, contains_chars, to_chars, i64_to_decimal,
    signed_decimal, decimal, is_digit, digits_value,
};

verus! {

/// Whether the `f64` with bit pattern `bits` compares `<= 0.0`: zero of either
/// sign, or any negative number; never NaN.
pub open spec fn at_most_zero(bits: u64) -> bool {
    let exponent = (bits / 0x10_0000_0000_0000) % 0x800;
    let fraction = bits % 0x10_0000_0000_0000;
    let negative = bits >= 0x8000_0000_0000_0000;
    let nan = exponent == 0x7ff && fraction != 0;
    let zero = exponent == 0 && fraction == 0;
    !nan && (negative || zero)
}

/// Whether a multiplier with bit pattern `bits` compares `<= 0.0`.
pub fn multiplier_at_most_zero(bits: u64) -> (b: bool)
    ensures
        b == at_most_zero(bits),
{
    let exponent = (bits / 0x10_0000_0000_0000) % 0x800;
    let fraction = bits % 0x10_0000_0000_0000;
    let negative = bits >= 0x8000_0000_0000_0000;
    let nan = exponent == 0x7ff && fraction != 0;
    let zero = exponent == 0 && fraction == 0;
    !nan && (negative || zero)
}

/// The settings of one slave terminal's worker.
#[derive(Debug, Clone)]
pub struct SlaveConfig {
    pub name: String,
    /// Where the worker listens for its terminal: `host:port`.
    pub address: String,
    /// The bit pattern of the lot-size multiplier.
    pub multiplier_bits: u64,
    /// Appended to every symbol before a trade is sent to the terminal.
    pub symbol_prefix: String,
}

/// The reason a configuration is refused, if any: an empty name, a multiplier
/// that is not greater than zero, or an address without a colon (checked in
/// this order).
pub open spec fn config_error(name: Seq<char>, address: Seq<char>, multiplier_bits: u64) -> Option<
    Seq<char>,
> {
    if name.len() == 0 {
        Some("Worker name cannot be empty"@)
    } else if at_most_zero(multiplier_bits) {
        Some("Multiplier must be greater than 0"@)
    } else if !contains_seq(address, seq![':']) {
        Some("Address must be in format host:port"@)
    } else {
        None
    }
}

impl SlaveConfig {
    /// Checks the configuration; the error says what is wrong.
    pub fn validate(&self) -> (r: Result<(), String>)
        ensures
            match r {
                Ok(()) => config_error(self.name@, self.address@, self.multiplier_bits) is None,
                Err(e) => config_error(self.name@, self.address@, self.multiplier_bits) == Some(
                    e@,
                ),
            },
    {
        if self.name.as_str().is_empty() {
            return Err(owned("Worker name cannot be empty"));
        }
        if multiplier_at_most_zero(self.multiplier_bits) {
            return Err(owned("Multiplier must be greater than 0"));
        }
        let colon = vec![':'];
        assert(colon@ =~= seq![':']);
        if !contains_chars(to_chars(self.address.as_str()).as_slice(), colon.as_slice()) {
            return Err(owned("Address must be in format host:port"));
        }
        Ok(())
    }
}

/// The command a trade carries when the master sent none.
pub fn default_cmd() -> (s: String)
    ensures
        s@ == "open"@,
{
    owned("open")
}

/// How many rows a listing returns when the request names no limit.
pub fn default_limit() -> (n: i64)
    ensures
        n == 100,
{
    100
}

/// The limit of a trade or error listing: the one requested, else 100.
pub fn listing_limit(limit: Option<i64>) -> (n: i64)
    ensures
        n == match limit {
            Some(l) => l,
            None => 100,
        },
{
    match limit {
        Some(l) => l,
        None => default_limit(),
    }
}

/// The limit of a profit history: the one requested, else 1000.
pub fn profit_history_limit(limit: Option<i64>) -> (n: i64)
    ensures
        n == match limit {
            Some(l) => l,
            None => 1000,
        },
{
    match limit {
        Some(l) => l,
        None => 1000,
    }
}

/// The symbol a slave terminal trades: the master's symbol with the
/// configured prefix appended, or unchanged when the prefix is empty.
pub open spec fn prefixed_symbol(symbol: Seq<char>, prefix: Seq<char>) -> Seq<char> {
    if prefix.len() == 0 {
        symbol
    } else {
        symbol + prefix
    }
}

/// Applies a slave's symbol prefix to a trade's symbol.
pub fn apply_symbol_prefix(symbol: &str, prefix: &str) -> (s: String)
    ensures
        s@ == prefixed_symbol(symbol@, prefix@),
{
    if prefix.is_empty() {
        owned(symbol)
    } else {
        concat2(symbol, prefix)
    }
}

/// The key under which a running worker is known: its id, a dash, its name.
pub open spec fn worker_key_spec(id: i64, name: Seq<char>) -> Seq<char> {
    signed_decimal(id as int) + "-"@ + name
}

/// The key under which a running worker is known.
pub fn worker_key(id: i64, name: &str) -> (k: String)
    ensures
        k@ == worker_key_spec(id, name@),
{
    concat3(i64_to_decimal(id).as_str(), "-", name)
}

/// Every character of a decimal representation is a digit, there is at
/// least one, and the digits denote the number.
proof fn lemma_decimal_digits(n: nat)
    ensures
        decimal(n).len() >= 1,
        forall|i: int| 0 <= i < decimal(n).len() ==> is_digit(#[trigger] decimal(n)[i]),
        digits_value(decimal(n)) == n,
    decreases n,
{
    if n < 10 {
        let d = decimal(n);
        assert(d.drop_last() =~= Seq::<char>::empty());
        assert(d.last() as int == n + 48);
        assert(digits_value(d) == digits_value(d.drop_last()) * 10 + ((d.last() as int) - 48) as nat);
        assert(digits_value(d.drop_last()) == 0);
    } else {
        lemma_decimal_digits(n / 10);
        let d = decimal(n);
        assert(d.drop_last() =~= decimal(n / 10));
        assert(d.last() as int == n % 10 + 48);
        assert(n == (n / 10) * 10 + n % 10);
        assert(digits_value(d) == digits_value(d.drop_last()) * 10 + ((d.last() as int) - 48) as nat);
        assert forall|i: int| 0 <= i < d.len() implies is_digit(#[trigger] d[i]) by {
            if i < d.len() - 1 {
                assert(d[i] == decimal(n / 10)[i]);
            }
        }
    }
}

/// Two digit strings each followed by a dash and a rest are equal only when
/// the digit strings and the rests are.
proof fn lemma_split_at_dash(d1: Seq<char>, x: Seq<char>, d2: Seq<char>, y: Seq<char>)
    requires
        forall|i: int| 0 <= i < d1.len() ==> is_digit(#[trigger] d1[i]),
        forall|i: int| 0 <= i < d2.len() ==> is_digit(#[trigger] d2[i]),
        d1 + seq!['-'] + x == d2 + seq!['-'] + y,
    ensures
        d1 == d2,
        x == y,
{
    let l = d1 + seq!['-'] + x;
    let r = d2 + seq!['-'] + y;
    if d1.len() < d2.len() {
        assert(l[d1.len() as int] == '-');
        assert(r[d1.len() as int] == d2[d1.len() as int]);
        assert(is_digit(d2[d1.len() as int]));
    } else if d2.len() < d1.len() {
        assert(r[d2.len() as int] == '-');
        assert(l[d2.len() as int] == d1[d2.len() as int]);
        assert(is_digit(d1[d2.len() as int]));
    } else {
        assert(d1 =~= l.subrange(0, d1.len() as int));
        assert(d2 =~= r.subrange(0, d2.len() as int));
        assert(x =~= l.subrange(d1.len() as int + 1, l.len() as int));
        assert(y =~= r.subrange(d2.len() as int + 1, r.len() as int));
    }
}

/// Distinct workers run under distinct keys: the key determines both the
/// worker's id and its name.
pub proof fn lemma_worker_key_injective(a: i64, x: Seq<char>, b: i64, y: Seq<char>)
    requires
        worker_key_spec(a, x) == worker_key_spec(b, y),
    ensures
        a == b,
        x == y,
{
    reveal_strlit("-");
    let na: nat = if a < 0 { (-a) as nat } else { a as nat };
    let nb: nat = if b < 0 { (-b) as nat } else { b as nat };
    lemma_decimal_digits(na);
    lemma_decimal_digits(nb);
    let da = decimal(na);
    let db = decimal(nb);
    let ka = worker_key_spec(a, x);
    let kb = worker_key_spec(b, y);
    if a < 0 && b < 0 {
        assert(ka =~= seq!['-'] + (da + seq!['-'] + x));
        assert(kb =~= seq!['-'] + (db + seq!['-'] + y));
        assert(da + seq!['-'] + x =~= ka.drop_first());
        assert(db + seq!['-'] + y =~= kb.drop_first());
        lemma_split_at_dash(da, x, db, y);
    } else if a >= 0 && b >= 0 {
        assert(ka =~= da + seq!['-'] + x);
        assert(kb =~= db + seq!['-'] + y);
        lemma_split_at_dash(da, x, db, y);
    } else if a < 0 {
        assert(ka[0] == '-');
        assert(kb[0] == db[0]);
        assert(is_digit(db[0]));
    } else {
        assert(kb[0] == '-');
        assert(ka[0] == da[0]);
        assert(is_digit(da[0]));
    }
}

} // verus!
