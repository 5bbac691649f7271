//! The token-price lookup: classification of the pair-search response and
//! the exact wording of the reply embed's fields.
//!
//! The HTTP call itself happens outside the library; it hands in what it
//! observed of the call, and every numeric field as the decimal text the
//! API sent.

use vstd::prelude::*;
use crate::command::{CommandOption, CommandSpec, OptionKind};

verus! {

/// Response shape of the pair search.
pub struct Root {
    pub schema_version: String,
    pub pairs: Vec<Pair>,
}

/// One trading pair in the response.
pub struct Pair {
    pub chain_id: String,
    pub dex_id: String,
    pub url: String,
    pub pair_address: String,
    pub base_token: BaseToken,
    pub quote_token: QuoteToken,
    pub price_native: String,
    pub price_usd: Option<String>,
    pub volume: Volume,
    pub price_change: PriceChange,
    pub liquidity: Option<Liquidity>,
}

/// The pair's base token.
pub struct BaseToken {
    pub address: String,
    pub name: String,
    pub symbol: String,
}

/// The pair's quote token.
pub struct QuoteToken {
    pub address: String,
    pub name: String,
    pub symbol: String,
}

/// Trading volume over four windows, each the decimal text the API sent.
pub struct Volume {
    pub h24: String,
    pub h6: String,
    pub h1: String,
    pub m5: String,
}

/// Price movement over the last day, as decimal text.
pub struct PriceChange {
    pub h24: String,
}

/// Liquidity in three denominations, each as decimal text.
pub struct Liquidity {
    pub usd: String,
    pub base: String,
    pub quote: String,
}

/// The three ways the pair-search call fails, each carrying its own
/// user-facing message; raw transport detail never reaches the chat.
#[derive(Clone, Copy, Debug, PartialEq, Eq, Structural)]
pub enum ApiError {
    /// The transport could not reach the API at all.
    Unreachable,
    /// The API answered with a client- or server-error status.
    BadStatus { status: u16 },
    /// The response body did not parse.
    BadBody,
}

impl ApiError {
    /// The fixed message shown for this failure.
    pub open spec fn message_spec(&self) -> Seq<char> {
        match self {
            ApiError::Unreachable => "Dexscreener API cannot be reached"@,
            ApiError::BadStatus { .. } => "No pair exists"@,
            ApiError::BadBody => "Error parsing Json"@,
        }
    }

    /// Writes out [`message_spec`].
    pub fn message(&self) -> (r: String)
        ensures
            r@ == self.message_spec(),
    {
        match self {
            ApiError::Unreachable => String::from_str("Dexscreener API cannot be reached"),
            ApiError::BadStatus { .. } => String::from_str("No pair exists"),
            ApiError::BadBody => String::from_str("Error parsing Json"),
        }
    }
}

/// What the HTTP caller observed of the pair-search call: either the
/// transport failed outright, or a response came back with some status,
/// and, where the status allowed reading the body, the parse of the body.
pub enum FetchOutcome {
    Unreachable,
    Response { status: u16, body: Option<Root> },
}

/// A client- or server-error status, the range the HTTP client turns into
/// an error before the body is ever read.
pub open spec fn status_is_error(status: u16) -> bool {
    400 <= status <= 599
}

/// The pair-search URL for one query.
pub fn dexscreener_url(coin: &String) -> (r: String)
    ensures
        r@ == "https://api.dexscreener.com/latest/dex/search?q="@ + coin@,
{
    let mut out = String::from_str("https://api.dexscreener.com/latest/dex/search?q=");
    out.append(coin.as_str());
    out
}

/// Classifies the pair-search outcome: an unreachable transport, an error
/// status and an unparsable body each map to their own failure, if and
/// only if they occurred; anything else is the parsed response.
pub fn run(outcome: FetchOutcome) -> (r: Result<Root, ApiError>)
    ensures
        match outcome {
            FetchOutcome::Unreachable => r == Err::<Root, ApiError>(ApiError::Unreachable),
            FetchOutcome::Response { status, body } => {
                if status_is_error(status) {
                    r == Err::<Root, ApiError>(ApiError::BadStatus { status })
                } else {
                    match body {
                        None => r == Err::<Root, ApiError>(ApiError::BadBody),
                        Some(root) => r == Ok::<Root, ApiError>(root),
                    }
                }
            },
        },
{
    match outcome {
        FetchOutcome::Unreachable => Err(ApiError::Unreachable),
        FetchOutcome::Response { status, body } => {
            if 400 <= status && status <= 599 {
                return Err(ApiError::BadStatus { status });
            }
            match body {
                None => Err(ApiError::BadBody),
                Some(root) => Ok(root),
            }
        },
    }
}

/// The decimal text writes a value greater than zero: it does not open
/// with a minus sign and holds a nonzero digit.
pub open spec fn decimal_text_positive(s: Seq<char>) -> bool {
    &&& s.len() > 0
    &&& s[0] != '-'
    &&& exists|i: int| 0 <= i < s.len() && 49 <= #[trigger] s[i] as u32 <= 57
}

/// Decides [`decimal_text_positive`] on the decimal rendering of a number.
#[verifier::loop_isolation(false)]
pub fn decimal_is_positive(s: &str) -> (r: bool)
    ensures
        r == decimal_text_positive(s@),
{
    let n = s.unicode_len();
    if n == 0 {
        return false;
    }
    if s.get_char(0) == '-' {
        return false;
    }
    let mut i: usize = 0;
    while i < n
        invariant
            n == s@.len(),
            i <= n,
            forall|t: int| 0 <= t < i ==> !(49 <= #[trigger] s@[t] as u32 <= 57),
        decreases n - i,
    {
        let cu = s.get_char(i) as u32;
        if 49 <= cu && cu <= 57 {
            proof {
                assert(49 <= s@[i as int] as u32 <= 57);
            }
            return true;
        }
        i += 1;
    }
    false
}

/// The price line of the reply embed: the usd price, or a placeholder when
/// the API omits it, then the day's change.
pub open spec fn price_field_spec(p: Pair) -> Seq<char> {
    "$"@ + (match p.price_usd {
        Some(usd) => usd@,
        None => "No value you got rugged bruh"@,
    }) + " : "@ + p.price_change.h24@ + "%"@
}

/// The liquidity line: the usd liquidity, or zero when the API omits it.
pub open spec fn liquidity_field_spec(p: Pair) -> Seq<char> {
    "$"@ + (match p.liquidity {
        Some(l) => l.usd@,
        None => "0"@,
    })
}

/// The chain line: chain and exchange identifiers.
pub open spec fn chain_field_spec(p: Pair) -> Seq<char> {
    "$"@ + p.chain_id@ + "@"@ + p.dex_id@
}

/// The volume line: the day's volume.
pub open spec fn volume_field_spec(p: Pair) -> Seq<char> {
    "$"@ + p.volume.h24@
}

/// The reply embed for one pair, every field already worded; `positive`
/// selects the upbeat colour exactly when the day's change is above zero.
pub struct CoinEmbed {
    pub title: String,
    pub url: String,
    pub price_field: String,
    pub liquidity_field: String,
    pub chain_field: String,
    pub volume_field: String,
    pub positive: bool,
}

/// Words the reply embed for one pair.
pub fn coin_embed(p: &Pair) -> (e: CoinEmbed)
    ensures
        e.title@ == p.base_token.name@,
        e.url@ == p.url@,
        e.price_field@ == price_field_spec(*p),
        e.liquidity_field@ == liquidity_field_spec(*p),
        e.chain_field@ == chain_field_spec(*p),
        e.volume_field@ == volume_field_spec(*p),
        e.positive == decimal_text_positive(p.price_change.h24@),
{
    let mut price_field = String::from_str("$");
    match &p.price_usd {
        Some(usd) => price_field.append(usd.as_str()),
        None => price_field.append("No value you got rugged bruh"),
    }
    price_field.append(" : ");
    price_field.append(p.price_change.h24.as_str());
    price_field.append("%");

    let mut liquidity_field = String::from_str("$");
    match &p.liquidity {
        Some(l) => liquidity_field.append(l.usd.as_str()),
        None => liquidity_field.append("0"),
    }

    let mut chain_field = String::from_str("$");
    chain_field.append(p.chain_id.as_str());
    chain_field.append("@");
    chain_field.append(p.dex_id.as_str());

    let mut volume_field = String::from_str("$");
    volume_field.append(p.volume.h24.as_str());

    CoinEmbed {
        title: p.base_token.name.clone(),
        url: p.url.clone(),
        price_field,
        liquidity_field,
        chain_field,
        volume_field,
        positive: decimal_is_positive(p.price_change.h24.as_str()),
    }
}

/// The slash-command descriptor for the token-price lookup: one required
/// free-text query with autocompletion.
pub fn register() -> (c: CommandSpec)
    ensures
        c.name@ == "coin"@,
        c.description@ == "Get the CoinDetails from DexScreener"@,
        c.options@.len() == 1,
        c.options@[0].name@ == "coinname"@,
        c.options@[0].description@ == "String Name of the Collection"@,
        c.options@[0].kind == OptionKind::Text,
        c.options@[0].required == true,
        c.options@[0].autocomplete == true,
{
    let mut options: Vec<CommandOption> = Vec::new();
    options.push(
        CommandOption {
            name: String::from_str("coinname"),
            description: String::from_str("String Name of the Collection"),
            kind: OptionKind::Text,
            required: true,
            autocomplete: true,
        },
    );
    CommandSpec {
        name: String::from_str("coin"),
        description: String::from_str("Get the CoinDetails from DexScreener"),
        options,
    }
}

} // verus!
