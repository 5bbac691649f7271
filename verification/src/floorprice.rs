//! The floor-price lookup: classification of the collections-search
//! response and the exact wording of every reply.
//!
//! The HTTP call itself happens outside the library; it hands in the
//! response status and the parse of the body, and every monetary amount as
//! the decimal text the API sent.

use vstd::prelude::*;
use crate::command::{CommandOption, CommandSpec, OptionKind};

verus! {

/// Response shape of the collections search.
pub struct Root {
    pub collections: Vec<Collection>,
}

/// One collection in the response.
pub struct Collection {
    pub name: String,
    pub floor_ask: FloorAsk,
}

/// The collection's lowest standing offer; the API may omit its price.
pub struct FloorAsk {
    pub source_domain: String,
    pub price: Option<Price>,
}

/// A priced offer.
pub struct Price {
    pub amount: Amount,
}

/// An amount in three denominations, each the decimal text the API sent.
pub struct Amount {
    pub decimal: String,
    pub usd: String,
    pub native: String,
}

/// Why the collections-search call yielded no usable response.
#[derive(Clone, Copy, Debug, PartialEq, Eq, Structural)]
pub enum ApiCallError {
    /// The response status was not 200.
    BadStatus { status: u16 },
    /// The status was 200 but the body did not parse.
    BadBody,
}

/// The collections-search URL for one collection name.
pub fn reservoir_url(collection: &String) -> (r: String)
    ensures
        r@ == "https://api.reservoir.tools/collections/v6?name="@ + collection@,
{
    let mut out = String::from_str("https://api.reservoir.tools/collections/v6?name=");
    out.append(collection.as_str());
    out
}

/// Classifies the collections-search response: only a 200 whose body
/// parsed succeeds; any other status is reported with that status, and an
/// unreadable body on a 200 as `BadBody`.
pub fn call_api(status: u16, body: Option<Root>) -> (r: Result<Root, ApiCallError>)
    ensures
        match r {
            Ok(root) => status == 200 && body == Some(root),
            Err(ApiCallError::BadStatus { status: s }) => s == status && status != 200,
            Err(ApiCallError::BadBody) => status == 200 && body is None,
        },
        status == 200 && body is Some ==> r is Ok,
{
    if status != 200 {
        return Err(ApiCallError::BadStatus { status });
    }
    match body {
        Some(root) => Ok(root),
        None => Err(ApiCallError::BadBody),
    }
}

/// The price written in a floor-price line: the decimal amount, or `0`
/// when the API omits the price.
pub open spec fn floor_amount_spec(f: FloorAsk) -> Seq<char> {
    match f.price {
        Some(p) => p.amount.decimal@,
        None => "0"@,
    }
}

/// The reply line for one collection.
pub open spec fn floor_line_spec(c: Collection) -> Seq<char> {
    "The floor price for ["@ + c.name@ + "] is ["@ + floor_amount_spec(c.floor_ask)
        + "]ETH and is on ["@ + c.floor_ask.source_domain@ + "]"@
}

/// The verbose reply: every collection's line, in response order, each
/// ending in a line break.
pub open spec fn floor_report_spec(cs: Seq<Collection>) -> Seq<char>
    decreases cs.len(),
{
    if cs.len() == 0 {
        Seq::empty()
    } else {
        floor_report_spec(cs.drop_last()) + floor_line_spec(cs.last()) + "\n"@
    }
}

/// The reply when the search matched nothing.
pub open spec fn not_found_spec(name: Seq<char>) -> Seq<char> {
    "There is no collection found for the name "@ + name + " "@
}

/// The fixed reply for any failed call; transport detail never reaches the
/// chat surface.
pub open spec fn fallback_text() -> Seq<char> {
    "Something went wrong contact izee"@
}

/// The whole floor-price reply, by case: the fallback on any error, the
/// not-found message on an empty result, one line for the first collection,
/// or, verbosely, one line for every collection.
pub open spec fn floor_reply_spec(
    name: Seq<char>,
    verbose: bool,
    api: Result<Root, ApiCallError>,
) -> Seq<char> {
    match api {
        Err(_) => fallback_text(),
        Ok(root) => {
            if root.collections@.len() == 0 {
                not_found_spec(name)
            } else if verbose {
                floor_report_spec(root.collections@)
            } else {
                floor_line_spec(root.collections@[0])
            }
        },
    }
}

/// Formats one collection's floor-price line.
fn floor_line(c: &Collection) -> (r: String)
    ensures
        r@ == floor_line_spec(*c),
{
    let mut out = String::from_str("The floor price for [");
    out.append(c.name.as_str());
    out.append("] is [");
    match &c.floor_ask.price {
        Some(p) => out.append(p.amount.decimal.as_str()),
        None => out.append("0"),
    }
    out.append("]ETH and is on [");
    out.append(c.floor_ask.source_domain.as_str());
    out.append("]");
    out
}

/// Builds the floor-price reply exactly as [`floor_reply_spec`] words it,
/// for the named collection and the outcome of the API call.
#[verifier::loop_isolation(false)]
pub fn run(collection: &String, verbose: bool, api_result: Result<Root, ApiCallError>) -> (r:
    String)
    ensures
        r@ == floor_reply_spec(collection@, verbose, api_result),
{
    match api_result {
        Err(_) => String::from_str("Something went wrong contact izee"),
        Ok(root) => {
            if root.collections.len() == 0 {
                let mut out = String::from_str("There is no collection found for the name ");
                out.append(collection.as_str());
                out.append(" ");
                out
            } else if verbose {
                let mut out = String::new();
                let mut i: usize = 0;
                while i < root.collections.len()
                    invariant
                        i <= root.collections@.len(),
                        out@ == floor_report_spec(root.collections@.take(i as int)),
                    decreases root.collections@.len() - i,
                {
                    let line = floor_line(&root.collections[i]);
                    out.append(line.as_str());
                    out.append("\n");
                    proof {
                        assert(root.collections@.take(i + 1).drop_last() =~= root.collections@.take(
                            i as int,
                        ));
                        assert(root.collections@.take(i + 1).last() == root.collections@[i as int]);
                    }
                    i += 1;
                }
                proof {
                    assert(root.collections@.take(root.collections@.len() as int)
                        =~= root.collections@);
                }
                out
            } else {
                floor_line(&root.collections[0])
            }
        },
    }
}

/// The slash-command descriptor for the floor-price lookup: a required
/// collection name and an optional verbose flag.
pub fn register() -> (c: CommandSpec)
    ensures
        c.name@ == "floorprice"@,
        c.description@ == "Get a Floor Price of a Collection"@,
        c.options@.len() == 2,
        c.options@[0].name@ == "project"@,
        c.options@[0].description@ == "String Name of the Collection"@,
        c.options@[0].kind == OptionKind::Text,
        c.options@[0].required == true,
        c.options@[0].autocomplete == false,
        c.options@[1].name@ == "verbose"@,
        c.options@[1].description@ == "If we pull display all the verbose stuff"@,
        c.options@[1].kind == OptionKind::Flag,
        c.options@[1].required == false,
        c.options@[1].autocomplete == false,
{
    let mut options: Vec<CommandOption> = Vec::new();
    options.push(
        CommandOption {
            name: String::from_str("project"),
            description: String::from_str("String Name of the Collection"),
            kind: OptionKind::Text,
            required: true,
            autocomplete: false,
        },
    );
    options.push(
        CommandOption {
            name: String::from_str("verbose"),
            description: String::from_str("If we pull display all the verbose stuff"),
            kind: OptionKind::Flag,
            required: false,
            autocomplete: false,
        },
    );
    CommandSpec {
        name: String::from_str("floorprice"),
        description: String::from_str("Get a Floor Price of a Collection"),
        options,
    }
}

} // verus!
