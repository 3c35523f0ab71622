//! The markets a quote can be asked for, and their two-letter codes.

use vstd::prelude::*;
use vstd::string::*;

verus! {

/// A supported listing venue.
#[derive(Debug, Clone, Copy, PartialEq, Eq, Structural)]
pub enum Market {
    /// Japan
    Jp,
    /// USA
    Us,
    /// United Kingdom
    Uk,
    /// Hong Kong
    Hk,
    /// Germany
    De,
}

/// Whether `c` is one of the letters `a` to `z`.
pub open spec fn is_lowercase_letter(c: char) -> bool {
    'a' <= c <= 'z'
}

impl Market {
    /// The code that stands for this market in a stooq.com symbol.
    pub open spec fn code(self) -> Seq<char> {
        match self {
            Market::Jp => "jp"@,
            Market::Us => "us"@,
            Market::Uk => "uk"@,
            Market::Hk => "hk"@,
            Market::De => "de"@,
        }
    }

    /// The market that `code` stands for, if it stands for one.
    pub open spec fn decode(code: Seq<char>) -> Option<Market> {
        if code == Market::Jp.code() {
            Some(Market::Jp)
        } else if code == Market::Us.code() {
            Some(Market::Us)
        } else if code == Market::Uk.code() {
            Some(Market::Uk)
        } else if code == Market::Hk.code() {
            Some(Market::Hk)
        } else if code == Market::De.code() {
            Some(Market::De)
        } else {
            None
        }
    }

    /// The market's code as a string slice.
    pub fn as_str(&self) -> (code: &'static str)
        ensures
            code@ == self.code(),
    {
        match self {
            Market::Jp => "jp",
            Market::Us => "us",
            Market::Uk => "uk",
            Market::Hk => "hk",
            Market::De => "de",
        }
    }

    /// Reads a market from its code. Anything other than the five codes,
    /// letter for letter, is turned down.
    pub fn from_code(code: &str) -> (market: Option<Market>)
        ensures
            market == Market::decode(code@),
    {
        proof {
            Market::code_chars();
        }
        if code.unicode_len() != 2 {
            return None;
        }
        let first = code.get_char(0);
        let second = code.get_char(1);
        let market = if first == 'j' && second == 'p' {
            Some(Market::Jp)
        } else if first == 'u' && second == 's' {
            Some(Market::Us)
        } else if first == 'u' && second == 'k' {
            Some(Market::Uk)
        } else if first == 'h' && second == 'k' {
            Some(Market::Hk)
        } else if first == 'd' && second == 'e' {
            Some(Market::De)
        } else {
            None
        };
        assert(market matches Some(m) ==> code@ =~= m.code());
        market
    }

    /// The letters of each code, one by one.
    pub proof fn code_chars()
        ensures
            Market::Jp.code() == seq!['j', 'p'],
            Market::Us.code() == seq!['u', 's'],
            Market::Uk.code() == seq!['u', 'k'],
            Market::Hk.code() == seq!['h', 'k'],
            Market::De.code() == seq!['d', 'e'],
    {
        reveal_strlit("jp");
        reveal_strlit("us");
        reveal_strlit("uk");
        reveal_strlit("hk");
        reveal_strlit("de");
        assert(Market::Jp.code() =~= seq!['j', 'p']);
        assert(Market::Us.code() =~= seq!['u', 's']);
        assert(Market::Uk.code() =~= seq!['u', 'k']);
        assert(Market::Hk.code() =~= seq!['h', 'k']);
        assert(Market::De.code() =~= seq!['d', 'e']);
    }

    /// Every code is made of two lowercase letters.
    pub proof fn code_is_two_lowercase_letters(market: Market)
        ensures
            market.code().len() == 2,
            is_lowercase_letter(market.code()[0]),
            is_lowercase_letter(market.code()[1]),
    {
        Market::code_chars();
    }

    /// No two markets share a code.
    pub proof fn code_is_injective(a: Market, b: Market)
        ensures
            a.code() == b.code() <==> a == b,
    {
        Market::code_chars();
        if a != b {
            assert(a.code()[0] != b.code()[0] || a.code()[1] != b.code()[1]);
        }
    }

    /// Decoding a market's code gives that market back.
    pub proof fn decode_inverts_code(market: Market)
        ensures
            Market::decode(market.code()) == Some(market),
    {
        Market::code_is_injective(market, Market::Jp);
        Market::code_is_injective(market, Market::Us);
        Market::code_is_injective(market, Market::Uk);
        Market::code_is_injective(market, Market::Hk);
        Market::code_is_injective(market, Market::De);
    }

    /// Decoding succeeds on the five codes and on nothing else, and what it
    /// gives has the code that was decoded.
    pub proof fn decode_accepts_only_codes(code: Seq<char>)
        ensures
            Market::decode(code) matches Some(market) ==> market.code() == code,
            Market::decode(code) is None ==> forall|market: Market| market.code() != code,
    {
        if Market::decode(code) is None {
            assert forall|market: Market| market.code() != code by {
                Market::decode_inverts_code(market);
            }
        }
    }
}

} // verus!
