//! Time-based One-Time Password (TOTP) skews.
use crate::integer::{self, parse_unsigned};
use crate::text::decimal;
use vstd::prelude::*;

verus! {

/// The disabled skew value.
pub const DISABLED: u64 = 0;

/// The default skew value.
pub const DEFAULT: u64 = 0;

/// Represents errors that can occur when parsing skews.
#[derive(Debug)]
pub struct Error {
    /// The source of this error.
    pub source: integer::ParseError,
    /// The string that could not be parsed.
    pub string: String,
}

impl Error {
    /// Constructs [`Self`].
    pub fn new(source: integer::ParseError, string: String) -> (r: Self)
        ensures
            r.source == source,
            r.string@ == string@,
    {
        Self { source, string }
    }
}

/// The values below `value` in the window of half-width `skew`, nearest last, leaving out those
/// that would fall below zero.
pub open spec fn below(skew: nat, value: nat) -> Seq<u64> {
    let k = if skew <= value { skew } else { value };
    Seq::new(k, |i: int| (value - k + i) as u64)
}

/// The values above `value` in the window of half-width `skew`, nearest first, leaving out
/// those that would exceed `u64::MAX`.
pub open spec fn above(skew: nat, value: nat) -> Seq<u64> {
    let room = u64::MAX - value;
    let k = if skew <= room { skew } else { room as nat };
    Seq::new(k, |i: int| (value + 1 + i) as u64)
}

/// The values that a skew of `skew` accepts around `value`, in the order in which they are
/// tried: `value - skew, ..., value - 1, value, value + 1, ..., value + skew`, without those
/// that do not fit in 64 bits.
pub open spec fn window(skew: nat, value: u64) -> Seq<u64> {
    below(skew, value as nat) + seq![value] + above(skew, value as nat)
}

/// Represents value skews (see [`apply`] for more information).
///
/// [`apply`]: Self::apply
#[derive(Debug, Clone, Copy, PartialEq, Eq, Hash)]
pub struct Skew {
    value: u64,
}

impl View for Skew {
    type V = u64;

    closed spec fn view(&self) -> u64 {
        self.value
    }
}

impl std::str::FromStr for Skew {
    type Err = Error;

    fn from_str(string: &str) -> (r: Result<Self, Self::Err>)
        ensures
            match parse_unsigned(string@, u64::MAX as nat) {
                Ok(v) => r is Ok && r->Ok_0@ == v,
                Err(kind) => r is Err && r->Err_0.string@ == string@
                    && r->Err_0.source == integer::wrap_spec(kind),
            },
    {
        Skew::parse(string)
    }
}

impl Default for Skew {
    /// The default skew is [`DEFAULT`].
    fn default() -> (r: Self)
        ensures
            r@ == DEFAULT,
    {
        Self::new(DEFAULT)
    }
}

impl Skew {
    /// Constructs [`Self`].
    pub fn new(value: u64) -> (r: Self)
        ensures
            r@ == value,
    {
        Self { value }
    }

    /// Returns the value wrapped in [`Self`].
    pub fn get(self) -> (r: u64)
        ensures
            r == self@,
    {
        self.value
    }

    /// Returns the disabled [`Self`].
    pub fn disabled() -> (r: Self)
        ensures
            r@ == DISABLED,
    {
        Self::new(DISABLED)
    }

    /// Applies the skew to the given value.
    ///
    /// Given some skew `s` and value `n`, this method returns
    ///
    /// ```text
    /// n - s, n - s + 1, ..., n - 1, n, n + 1, ..., n + s - 1, n + s
    /// ```
    ///
    /// leaving out the values that would fall outside of 64 bits. The list must fit in memory.
    pub fn apply(self, value: u64) -> (r: Vec<u64>)
        requires
            window(self@ as nat, value).len() <= usize::MAX,
        ensures
            r@ == window(self@ as nat, value),
    {
        let skew = self.value;
        let ghost w = window(skew as nat, value);
        let k: u64 = if skew <= value { skew } else { value };
        let room: u64 = u64::MAX - value;
        let m: u64 = if skew <= room { skew } else { room };
        let mut out: Vec<u64> = Vec::new();
        let mut i: u64 = 0;
        while i < k
            invariant
                k <= value,
                i <= k,
                k == (if skew <= value { skew } else { value }),
                out@ =~= below(skew as nat, value as nat).take(i as int),
            decreases k - i,
        {
            out.push(value - k + i);
            i = i + 1;
        }
        out.push(value);
        let mut j: u64 = 0;
        while j < m
            invariant
                m <= u64::MAX - value,
                j <= m,
                m == (if skew <= u64::MAX - value { skew } else { (u64::MAX - value) as u64 }),
                k == (if skew <= value { skew } else { value }),
                w == window(skew as nat, value),
                w.len() <= usize::MAX,
                out@ =~= (below(skew as nat, value as nat) + seq![value]) + above(skew as nat, value as nat).take(j as int),
            decreases m - j,
        {
            out.push(value + 1 + j);
            j = j + 1;
        }
        assert(above(skew as nat, value as nat).take(m as int) =~= above(skew as nat, value as nat));
        assert(out@ =~= w);
        out
    }

    /// Formats the skew in decimal.
    pub fn to_string(self) -> (r: String)
        ensures
            r@ == decimal(self@ as nat),
    {
        crate::text::to_decimal(self.value)
    }

    /// Parses [`Self`] from its decimal form.
    ///
    /// # Errors
    ///
    /// Returns [`struct@Error`] holding the string if it is not a decimal number that fits in
    /// 64 bits.
    pub fn parse(string: &str) -> (r: Result<Self, Error>)
        ensures
            match parse_unsigned(string@, u64::MAX as nat) {
                Ok(v) => r is Ok && r->Ok_0@ == v,
                Err(kind) => r is Err && r->Err_0.string@ == string@
                    && r->Err_0.source == integer::wrap_spec(kind),
            },
    {
        match integer::parse_bounded(string, u64::MAX) {
            Ok(value) => Ok(Self::new(value)),
            Err(error) => Err(Error::new(error, string.to_owned())),
        }
    }
}

} // verus!
