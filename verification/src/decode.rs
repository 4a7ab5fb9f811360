//! Decoding JSON documents into typed market records.
//!
//! Two entry points share one coercion toolkit.  `decode_symbols` reads a
//! JSON array of per-currency snapshots whose numeric fields arrive quoted
//! as strings; `decode_global` reads one aggregate object whose numeric
//! fields arrive as native JSON numbers.  The asymmetry is the upstream
//! service's own and is preserved here.
//!
//! Prices and other floating-point quantities are carried as their validated
//! decimal texts: the library never holds a floating-point value, and a
//! caller parses the text in whatever representation it wants.

use vstd::prelude::*;
use crate::errors::{DecodeError, SpecDecodeError};
use crate::json::{fields_view, items_view, lemma_items_view, lookup, obj_get, Json, JsonSpec};
use crate::num::{check_float_text, is_float_text, parse_u32_text, u32_text_val};
use crate::parse::{json_of, parse_json};

verus! {

/// One cryptocurrency's market snapshot.
///
/// `rank` is coerced from a quoted decimal string.  The five price and
/// market-capitalisation fields hold the quoted decimal text itself,
/// validated against the floating-point grammar of `crate::num`.
#[derive(Debug)]
pub struct Symbol {
    pub id: String,
    pub name: String,
    pub symbol: String,
    pub rank: u32,
    pub price_usd: String,
    pub price_btc: String,
    pub price_eur: String,
    pub market_cap_usd: String,
    pub market_cap_eur: String,
}

/// Mathematical model of a `Symbol`.
pub ghost struct SpecSymbol {
    pub id: Seq<char>,
    pub name: Seq<char>,
    pub symbol: Seq<char>,
    pub rank: u32,
    pub price_usd: Seq<char>,
    pub price_btc: Seq<char>,
    pub price_eur: Seq<char>,
    pub market_cap_usd: Seq<char>,
    pub market_cap_eur: Seq<char>,
}

impl View for Symbol {
    type V = SpecSymbol;

    open spec fn view(&self) -> SpecSymbol {
        SpecSymbol {
            id: self.id@,
            name: self.name@,
            symbol: self.symbol@,
            rank: self.rank,
            price_usd: self.price_usd@,
            price_btc: self.price_btc@,
            price_eur: self.price_eur@,
            market_cap_usd: self.market_cap_usd@,
            market_cap_eur: self.market_cap_eur@,
        }
    }
}

impl SpecSymbol {
    /// Every floating-point text of a decoded record obeys the grammar.
    pub open spec fn wf(self) -> bool {
        &&& is_float_text(self.price_usd)
        &&& is_float_text(self.price_btc)
        &&& is_float_text(self.price_eur)
        &&& is_float_text(self.market_cap_usd)
        &&& is_float_text(self.market_cap_eur)
    }
}

/// The whole market's aggregate snapshot.
///
/// The three counters arrive as native JSON numbers and are decoded as
/// integers; the five other fields hold the native number's decimal text,
/// unexamined, as the upstream service sent native numbers for them.
#[derive(Debug)]
pub struct Global {
    pub active_assets: u32,
    pub active_currencies: u32,
    pub active_markets: u32,
    pub bitcoin_percentage_of_market_cap: String,
    pub total_24h_volume_eur: String,
    pub total_24h_volume_usd: String,
    pub total_market_cap_eur: String,
    pub total_market_cap_usd: String,
}

/// Mathematical model of a `Global`.
pub ghost struct SpecGlobal {
    pub active_assets: u32,
    pub active_currencies: u32,
    pub active_markets: u32,
    pub bitcoin_percentage_of_market_cap: Seq<char>,
    pub total_24h_volume_eur: Seq<char>,
    pub total_24h_volume_usd: Seq<char>,
    pub total_market_cap_eur: Seq<char>,
    pub total_market_cap_usd: Seq<char>,
}

impl View for Global {
    type V = SpecGlobal;

    open spec fn view(&self) -> SpecGlobal {
        SpecGlobal {
            active_assets: self.active_assets,
            active_currencies: self.active_currencies,
            active_markets: self.active_markets,
            bitcoin_percentage_of_market_cap: self.bitcoin_percentage_of_market_cap@,
            total_24h_volume_eur: self.total_24h_volume_eur@,
            total_24h_volume_usd: self.total_24h_volume_usd@,
            total_market_cap_eur: self.total_market_cap_eur@,
            total_market_cap_usd: self.total_market_cap_usd@,
        }
    }
}

/// The name of a JSON value's kind, as decode errors report it.
pub open spec fn kind_name(j: JsonSpec) -> Seq<char> {
    match j {
        JsonSpec::Null => "null"@,
        JsonSpec::Bool(_) => "boolean"@,
        JsonSpec::Num(_) => "number"@,
        JsonSpec::Str(_) => "string"@,
        JsonSpec::Arr(_) => "array"@,
        JsonSpec::Obj(_) => "object"@,
    }
}

fn kind_text(j: &Json) -> (r: &'static str)
    ensures
        r@ == kind_name(j@),
{
    match j {
        Json::Null => "null",
        Json::Bool(_) => "boolean",
        Json::Num(_) => "number",
        Json::Str(_) => "string",
        Json::Arr(_) => "array",
        Json::Obj(_) => "object",
    }
}

/// A field that must hold a JSON string; yields its text.
pub open spec fn str_field(
    fs: Seq<(Seq<char>, JsonSpec)>,
    name: Seq<char>,
) -> Result<Seq<char>, SpecDecodeError> {
    match lookup(fs, name) {
        Option::None => Result::Err(SpecDecodeError::MissingField(name)),
        Option::Some(v) => match v {
            JsonSpec::Str(t) => Result::Ok(t),
            _ => Result::Err(SpecDecodeError::WrongKind(name, kind_name(v))),
        },
    }
}

/// A field that must hold a JSON string spelling a `u32`; yields the value.
pub open spec fn rank_field(
    fs: Seq<(Seq<char>, JsonSpec)>,
    name: Seq<char>,
) -> Result<u32, SpecDecodeError> {
    match str_field(fs, name) {
        Result::Err(e) => Result::Err(e),
        Result::Ok(t) => match u32_text_val(t) {
            Option::Some(v) => Result::Ok(v),
            Option::None => Result::Err(SpecDecodeError::BadNumber(name, t)),
        },
    }
}

/// A field that must hold a JSON string spelling a floating-point number;
/// yields the validated text.
pub open spec fn float_text_field(
    fs: Seq<(Seq<char>, JsonSpec)>,
    name: Seq<char>,
) -> Result<Seq<char>, SpecDecodeError> {
    match str_field(fs, name) {
        Result::Err(e) => Result::Err(e),
        Result::Ok(t) => if is_float_text(t) {
            Result::Ok(t)
        } else {
            Result::Err(SpecDecodeError::BadNumber(name, t))
        },
    }
}

/// A field that must hold a native JSON number; yields its decimal text.
pub open spec fn num_field(
    fs: Seq<(Seq<char>, JsonSpec)>,
    name: Seq<char>,
) -> Result<Seq<char>, SpecDecodeError> {
    match lookup(fs, name) {
        Option::None => Result::Err(SpecDecodeError::MissingField(name)),
        Option::Some(v) => match v {
            JsonSpec::Num(t) => Result::Ok(t),
            _ => Result::Err(SpecDecodeError::WrongKind(name, kind_name(v))),
        },
    }
}

/// A field that must hold a native JSON number whose text spells a `u32`;
/// yields the value.
pub open spec fn count_field(
    fs: Seq<(Seq<char>, JsonSpec)>,
    name: Seq<char>,
) -> Result<u32, SpecDecodeError> {
    match num_field(fs, name) {
        Result::Err(e) => Result::Err(e),
        Result::Ok(t) => match u32_text_val(t) {
            Option::Some(v) => Result::Ok(v),
            Option::None => Result::Err(SpecDecodeError::BadNumber(name, t)),
        },
    }
}

fn get_str_field(fields: &Vec<(String, Json)>, name: &str) -> (r: Result<String, DecodeError>)
    ensures
        match r {
            Result::Ok(v) => str_field(fields_view(fields@), name@)
                == Result::<Seq<char>, SpecDecodeError>::Ok(v@),
            Result::Err(e) => str_field(fields_view(fields@), name@)
                == Result::<Seq<char>, SpecDecodeError>::Err(e@),
        },
{
    match obj_get(fields, name) {
        Option::None => Result::Err(DecodeError::MissingField(name.to_owned())),
        Option::Some(j) => match j {
            Json::Str(t) => Result::Ok(t.clone()),
            _ => Result::Err(
                DecodeError::WrongKind(name.to_owned(), kind_text(j).to_owned()),
            ),
        },
    }
}

fn get_rank_field(fields: &Vec<(String, Json)>, name: &str) -> (r: Result<u32, DecodeError>)
    ensures
        match r {
            Result::Ok(v) => rank_field(fields_view(fields@), name@)
                == Result::<u32, SpecDecodeError>::Ok(v),
            Result::Err(e) => rank_field(fields_view(fields@), name@)
                == Result::<u32, SpecDecodeError>::Err(e@),
        },
{
    match get_str_field(fields, name) {
        Result::Err(e) => Result::Err(e),
        Result::Ok(t) => match parse_u32_text(t.as_str()) {
            Option::Some(v) => Result::Ok(v),
            Option::None => Result::Err(DecodeError::BadNumber(name.to_owned(), t)),
        },
    }
}

fn get_float_text_field(
    fields: &Vec<(String, Json)>,
    name: &str,
) -> (r: Result<String, DecodeError>)
    ensures
        match r {
            Result::Ok(v) => float_text_field(fields_view(fields@), name@)
                == Result::<Seq<char>, SpecDecodeError>::Ok(v@),
            Result::Err(e) => float_text_field(fields_view(fields@), name@)
                == Result::<Seq<char>, SpecDecodeError>::Err(e@),
        },
{
    match get_str_field(fields, name) {
        Result::Err(e) => Result::Err(e),
        Result::Ok(t) => if check_float_text(t.as_str()) {
            Result::Ok(t)
        } else {
            Result::Err(DecodeError::BadNumber(name.to_owned(), t))
        },
    }
}

fn get_num_field(fields: &Vec<(String, Json)>, name: &str) -> (r: Result<String, DecodeError>)
    ensures
        match r {
            Result::Ok(v) => num_field(fields_view(fields@), name@)
                == Result::<Seq<char>, SpecDecodeError>::Ok(v@),
            Result::Err(e) => num_field(fields_view(fields@), name@)
                == Result::<Seq<char>, SpecDecodeError>::Err(e@),
        },
{
    match obj_get(fields, name) {
        Option::None => Result::Err(DecodeError::MissingField(name.to_owned())),
        Option::Some(j) => match j {
            Json::Num(t) => Result::Ok(t.clone()),
            _ => Result::Err(
                DecodeError::WrongKind(name.to_owned(), kind_text(j).to_owned()),
            ),
        },
    }
}

fn get_count_field(fields: &Vec<(String, Json)>, name: &str) -> (r: Result<u32, DecodeError>)
    ensures
        match r {
            Result::Ok(v) => count_field(fields_view(fields@), name@)
                == Result::<u32, SpecDecodeError>::Ok(v),
            Result::Err(e) => count_field(fields_view(fields@), name@)
                == Result::<u32, SpecDecodeError>::Err(e@),
        },
{
    match get_num_field(fields, name) {
        Result::Err(e) => Result::Err(e),
        Result::Ok(t) => match parse_u32_text(t.as_str()) {
            Option::Some(v) => Result::Ok(v),
            Option::None => Result::Err(DecodeError::BadNumber(name.to_owned(), t)),
        },
    }
}

/// What one symbol object decodes to.
pub open spec fn symbol_of_obj(
    fs: Seq<(Seq<char>, JsonSpec)>,
) -> Result<SpecSymbol, SpecDecodeError> {
    match str_field(fs, "id"@) { Result::Err(e) => Result::Err(e), Result::Ok(id) =>
    match str_field(fs, "name"@) { Result::Err(e) => Result::Err(e), Result::Ok(name) =>
    match str_field(fs, "symbol"@) { Result::Err(e) => Result::Err(e), Result::Ok(symbol) =>
    match rank_field(fs, "rank"@) { Result::Err(e) => Result::Err(e), Result::Ok(rank) =>
    match float_text_field(fs, "price_usd"@) { Result::Err(e) => Result::Err(e), Result::Ok(price_usd) =>
    match float_text_field(fs, "price_btc"@) { Result::Err(e) => Result::Err(e), Result::Ok(price_btc) =>
    match float_text_field(fs, "price_eur"@) { Result::Err(e) => Result::Err(e), Result::Ok(price_eur) =>
    match float_text_field(fs, "market_cap_usd"@) { Result::Err(e) => Result::Err(e), Result::Ok(market_cap_usd) =>
    match float_text_field(fs, "market_cap_eur"@) { Result::Err(e) => Result::Err(e), Result::Ok(market_cap_eur) =>
        Result::Ok(SpecSymbol {
            id, name, symbol, rank, price_usd, price_btc, price_eur,
            market_cap_usd, market_cap_eur,
        })
    } } } } } } } } }
}

/// What one element of the symbol array decodes to: it must be an object.
pub open spec fn symbol_of_elem(j: JsonSpec) -> Result<SpecSymbol, SpecDecodeError> {
    match j {
        JsonSpec::Obj(fs) => symbol_of_obj(fs),
        _ => Result::Err(SpecDecodeError::NotObject),
    }
}

/// What the elements of the array decode to, from position `i` on: the
/// first failing element fails the whole batch.
pub open spec fn symbols_from(
    items: Seq<JsonSpec>,
    i: int,
) -> Result<Seq<SpecSymbol>, SpecDecodeError>
    decreases items.len() - i,
{
    if i < 0 || i >= items.len() {
        Result::Ok(Seq::empty())
    } else {
        match symbol_of_elem(items[i]) {
            Result::Err(e) => Result::Err(e),
            Result::Ok(s) => match symbols_from(items, i + 1) {
                Result::Err(e) => Result::Err(e),
                Result::Ok(rest) => Result::Ok(seq![s] + rest),
            },
        }
    }
}

/// What a symbol document decodes to: it must be an array of objects.
pub open spec fn symbols_of(j: JsonSpec) -> Result<Seq<SpecSymbol>, SpecDecodeError> {
    match j {
        JsonSpec::Arr(items) => symbols_from(items, 0),
        _ => Result::Err(SpecDecodeError::NotArray),
    }
}

/// What a symbol text decodes to, through the parse.
pub open spec fn decoded_symbols(t: Seq<char>) -> Result<Seq<SpecSymbol>, SpecDecodeError> {
    match json_of(t) {
        Option::None => Result::Err(SpecDecodeError::Syntax),
        Option::Some(j) => symbols_of(j),
    }
}

/// What the aggregate object decodes to.
pub open spec fn global_of_obj(
    fs: Seq<(Seq<char>, JsonSpec)>,
) -> Result<SpecGlobal, SpecDecodeError> {
    match count_field(fs, "active_assets"@) { Result::Err(e) => Result::Err(e), Result::Ok(active_assets) =>
    match count_field(fs, "active_currencies"@) { Result::Err(e) => Result::Err(e), Result::Ok(active_currencies) =>
    match count_field(fs, "active_markets"@) { Result::Err(e) => Result::Err(e), Result::Ok(active_markets) =>
    match num_field(fs, "bitcoin_percentage_of_market_cap"@) { Result::Err(e) => Result::Err(e), Result::Ok(bitcoin_percentage_of_market_cap) =>
    match num_field(fs, "total_24h_volume_eur"@) { Result::Err(e) => Result::Err(e), Result::Ok(total_24h_volume_eur) =>
    match num_field(fs, "total_24h_volume_usd"@) { Result::Err(e) => Result::Err(e), Result::Ok(total_24h_volume_usd) =>
    match num_field(fs, "total_market_cap_eur"@) { Result::Err(e) => Result::Err(e), Result::Ok(total_market_cap_eur) =>
    match num_field(fs, "total_market_cap_usd"@) { Result::Err(e) => Result::Err(e), Result::Ok(total_market_cap_usd) =>
        Result::Ok(SpecGlobal {
            active_assets, active_currencies, active_markets,
            bitcoin_percentage_of_market_cap, total_24h_volume_eur,
            total_24h_volume_usd, total_market_cap_eur, total_market_cap_usd,
        })
    } } } } } } } }
}

/// What an aggregate document decodes to: it must be an object.
pub open spec fn global_of(j: JsonSpec) -> Result<SpecGlobal, SpecDecodeError> {
    match j {
        JsonSpec::Obj(fs) => global_of_obj(fs),
        _ => Result::Err(SpecDecodeError::NotObject),
    }
}

/// What an aggregate text decodes to, through the parse.
pub open spec fn decoded_global(t: Seq<char>) -> Result<SpecGlobal, SpecDecodeError> {
    match json_of(t) {
        Option::None => Result::Err(SpecDecodeError::Syntax),
        Option::Some(j) => global_of(j),
    }
}

fn decode_symbol_obj(fields: &Vec<(String, Json)>) -> (r: Result<Symbol, DecodeError>)
    ensures
        match r {
            Result::Ok(v) => symbol_of_obj(fields_view(fields@))
                == Result::<SpecSymbol, SpecDecodeError>::Ok(v@),
            Result::Err(e) => symbol_of_obj(fields_view(fields@))
                == Result::<SpecSymbol, SpecDecodeError>::Err(e@),
        },
{
    let id = match get_str_field(fields, "id") {
        Result::Ok(v) => v,
        Result::Err(e) => return Result::Err(e),
    };
    let name = match get_str_field(fields, "name") {
        Result::Ok(v) => v,
        Result::Err(e) => return Result::Err(e),
    };
    let symbol = match get_str_field(fields, "symbol") {
        Result::Ok(v) => v,
        Result::Err(e) => return Result::Err(e),
    };
    let rank = match get_rank_field(fields, "rank") {
        Result::Ok(v) => v,
        Result::Err(e) => return Result::Err(e),
    };
    let price_usd = match get_float_text_field(fields, "price_usd") {
        Result::Ok(v) => v,
        Result::Err(e) => return Result::Err(e),
    };
    let price_btc = match get_float_text_field(fields, "price_btc") {
        Result::Ok(v) => v,
        Result::Err(e) => return Result::Err(e),
    };
    let price_eur = match get_float_text_field(fields, "price_eur") {
        Result::Ok(v) => v,
        Result::Err(e) => return Result::Err(e),
    };
    let market_cap_usd = match get_float_text_field(fields, "market_cap_usd") {
        Result::Ok(v) => v,
        Result::Err(e) => return Result::Err(e),
    };
    let market_cap_eur = match get_float_text_field(fields, "market_cap_eur") {
        Result::Ok(v) => v,
        Result::Err(e) => return Result::Err(e),
    };
    Result::Ok(Symbol {
        id,
        name,
        symbol,
        rank,
        price_usd,
        price_btc,
        price_eur,
        market_cap_usd,
        market_cap_eur,
    })
}

fn decode_symbol_elem(j: &Json) -> (r: Result<Symbol, DecodeError>)
    ensures
        match r {
            Result::Ok(v) => symbol_of_elem(j@)
                == Result::<SpecSymbol, SpecDecodeError>::Ok(v@),
            Result::Err(e) => symbol_of_elem(j@)
                == Result::<SpecSymbol, SpecDecodeError>::Err(e@),
        },
{
    match j {
        Json::Obj(fields) => decode_symbol_obj(fields),
        _ => Result::Err(DecodeError::NotObject),
    }
}

pub proof fn lemma_symbols_from_err(items: Seq<JsonSpec>, i: int, j: int, e: SpecDecodeError)
    requires
        0 <= i <= j < items.len(),
        forall|k: int| i <= k < j ==> symbol_of_elem(#[trigger] items[k]) is Ok,
        symbol_of_elem(items[j]) == Result::<SpecSymbol, SpecDecodeError>::Err(e),
    ensures
        symbols_from(items, i) == Result::<Seq<SpecSymbol>, SpecDecodeError>::Err(e),
    decreases j - i,
{
    if i < j {
        lemma_symbols_from_err(items, i + 1, j, e);
    }
}

pub proof fn lemma_symbols_from_ok(items: Seq<JsonSpec>, i: int, vals: Seq<SpecSymbol>)
    requires
        0 <= i <= items.len(),
        vals.len() == items.len() - i,
        forall|k: int| i <= k < items.len() ==>
            symbol_of_elem(#[trigger] items[k])
                == Result::<SpecSymbol, SpecDecodeError>::Ok(vals[k - i]),
    ensures
        symbols_from(items, i) == Result::<Seq<SpecSymbol>, SpecDecodeError>::Ok(vals),
    decreases items.len() - i,
{
    if i == items.len() {
        assert(vals =~= Seq::<SpecSymbol>::empty());
    } else {
        let rest = vals.subrange(1, vals.len() as int);
        lemma_symbols_from_ok(items, i + 1, rest);
        assert(vals =~= seq![vals[0]] + rest);
    }
}

/// Decodes an already parsed JSON value as the symbol array, exactly as
/// `symbols_of` describes.
pub fn symbols_from_json(j: &Json) -> (r: Result<Vec<Symbol>, DecodeError>)
    ensures
        match r {
            Result::Ok(v) => symbols_of(j@)
                == Result::<Seq<SpecSymbol>, SpecDecodeError>::Ok(
                    v@.map_values(|s: Symbol| s@),
                ),
            Result::Err(e) => symbols_of(j@)
                == Result::<Seq<SpecSymbol>, SpecDecodeError>::Err(e@),
        },
{
    match j {
        Json::Arr(items) => {
            let ghost ivs = items_view(items@);
            proof {
                lemma_items_view(items@);
            }
            let mut out: Vec<Symbol> = Vec::new();
            let mut idx: usize = 0;
            while idx < items.len()
                invariant
                    0 <= idx <= items.len(),
                    ivs == items_view(items@),
                    j@ == JsonSpec::Arr(ivs),
                    ivs.len() == items@.len(),
                    forall|k: int| 0 <= k < ivs.len() ==> ivs[k] == #[trigger] items@[k]@,
                    out@.len() == idx,
                    forall|k: int| 0 <= k < idx ==> #[trigger] symbol_of_elem(ivs[k])
                        == Result::<SpecSymbol, SpecDecodeError>::Ok(out@[k]@),
                decreases items@.len() - idx,
            {
                match decode_symbol_elem(&items[idx]) {
                    Result::Ok(s) => {
                        out.push(s);
                    },
                    Result::Err(e) => {
                        proof {
                            lemma_symbols_from_err(ivs, 0, idx as int, e@);
                        }
                        return Result::Err(e);
                    },
                }
                idx = idx + 1;
            }
            proof {
                let vals = out@.map_values(|s: Symbol| s@);
                lemma_symbols_from_ok(ivs, 0, vals);
            }
            Result::Ok(out)
        },
        _ => Result::Err(DecodeError::NotArray),
    }
}

/// Decodes a symbol document from JSON text, exactly as `decoded_symbols`
/// describes: the ordered list of records on success, and otherwise the
/// error of the first offence, naming the offending field.
pub fn decode_symbols(text: &str) -> (r: Result<Vec<Symbol>, DecodeError>)
    ensures
        match r {
            Result::Ok(v) => decoded_symbols(text@)
                == Result::<Seq<SpecSymbol>, SpecDecodeError>::Ok(
                    v@.map_values(|s: Symbol| s@),
                ),
            Result::Err(e) => decoded_symbols(text@)
                == Result::<Seq<SpecSymbol>, SpecDecodeError>::Err(e@),
        },
{
    match parse_json(text) {
        Option::None => Result::Err(DecodeError::Syntax),
        Option::Some(j) => symbols_from_json(&j),
    }
}

/// Decodes an already parsed JSON value as the aggregate object, exactly as
/// `global_of` describes.
pub fn global_from_json(j: &Json) -> (r: Result<Global, DecodeError>)
    ensures
        match r {
            Result::Ok(v) => global_of(j@)
                == Result::<SpecGlobal, SpecDecodeError>::Ok(v@),
            Result::Err(e) => global_of(j@)
                == Result::<SpecGlobal, SpecDecodeError>::Err(e@),
        },
{
    match j {
        Json::Obj(fields) => {
            let active_assets = match get_count_field(fields, "active_assets") {
                Result::Ok(v) => v,
                Result::Err(e) => return Result::Err(e),
            };
            let active_currencies = match get_count_field(fields, "active_currencies") {
                Result::Ok(v) => v,
                Result::Err(e) => return Result::Err(e),
            };
            let active_markets = match get_count_field(fields, "active_markets") {
                Result::Ok(v) => v,
                Result::Err(e) => return Result::Err(e),
            };
            let bitcoin_percentage_of_market_cap = match get_num_field(
                fields,
                "bitcoin_percentage_of_market_cap",
            ) {
                Result::Ok(v) => v,
                Result::Err(e) => return Result::Err(e),
            };
            let total_24h_volume_eur = match get_num_field(fields, "total_24h_volume_eur") {
                Result::Ok(v) => v,
                Result::Err(e) => return Result::Err(e),
            };
            let total_24h_volume_usd = match get_num_field(fields, "total_24h_volume_usd") {
                Result::Ok(v) => v,
                Result::Err(e) => return Result::Err(e),
            };
            let total_market_cap_eur = match get_num_field(fields, "total_market_cap_eur") {
                Result::Ok(v) => v,
                Result::Err(e) => return Result::Err(e),
            };
            let total_market_cap_usd = match get_num_field(fields, "total_market_cap_usd") {
                Result::Ok(v) => v,
                Result::Err(e) => return Result::Err(e),
            };
            Result::Ok(Global {
                active_assets,
                active_currencies,
                active_markets,
                bitcoin_percentage_of_market_cap,
                total_24h_volume_eur,
                total_24h_volume_usd,
                total_market_cap_eur,
                total_market_cap_usd,
            })
        },
        _ => Result::Err(DecodeError::NotObject),
    }
}

/// Decodes an aggregate document from JSON text, exactly as `decoded_global`
/// describes: the record on success, and otherwise the error of the first
/// offence, naming the offending field.
pub fn decode_global(text: &str) -> (r: Result<Global, DecodeError>)
    ensures
        match r {
            Result::Ok(v) => decoded_global(text@)
                == Result::<SpecGlobal, SpecDecodeError>::Ok(v@),
            Result::Err(e) => decoded_global(text@)
                == Result::<SpecGlobal, SpecDecodeError>::Err(e@),
        },
{
    match parse_json(text) {
        Option::None => Result::Err(DecodeError::Syntax),
        Option::Some(j) => global_from_json(&j),
    }
}

} // verus!
