//! General properties of the decoder, stated and proved once for all inputs.

use vstd::prelude::*;
use crate::decode::{
    count_field, float_text_field, global_of, lemma_symbols_from_err, lemma_symbols_from_ok,
    num_field, rank_field, symbol_of_elem, symbol_of_obj, symbols_of, SpecGlobal, SpecSymbol,
};
use crate::errors::SpecDecodeError;
use crate::json::{lookup, JsonSpec};
use crate::num::{is_float_text, u32_text_val};

verus! {

/// Law: an array of well-formed symbol objects decodes in full, to a list of
/// the same length, in the same order, each record being exactly what its
/// element decodes to.
pub proof fn lemma_symbols_complete(items: Seq<JsonSpec>)
    requires
        forall|i: int| 0 <= i < items.len() ==> #[trigger] symbol_of_elem(items[i]) is Ok,
    ensures
        symbols_of(JsonSpec::Arr(items)) is Ok,
        symbols_of(JsonSpec::Arr(items))->Ok_0.len() == items.len(),
        forall|i: int| 0 <= i < items.len() ==>
            Result::<SpecSymbol, SpecDecodeError>::Ok(
                symbols_of(JsonSpec::Arr(items))->Ok_0[i],
            ) == #[trigger] symbol_of_elem(items[i]),
{
    let vals = Seq::new(items.len(), |i: int| symbol_of_elem(items[i])->Ok_0);
    lemma_symbols_from_ok(items, 0, vals);
}

/// Law: the empty array decodes to the empty list, not to an error.
pub proof fn lemma_symbols_empty()
    ensures
        symbols_of(JsonSpec::Arr(Seq::empty()))
            == Result::<Seq<SpecSymbol>, SpecDecodeError>::Ok(Seq::empty()),
{
}

/// Law: one failing element fails the whole batch.
pub proof fn lemma_symbols_abort(items: Seq<JsonSpec>, i: int)
    requires
        0 <= i < items.len(),
        symbol_of_elem(items[i]) is Err,
        forall|k: int| 0 <= k < i ==> #[trigger] symbol_of_elem(items[k]) is Ok,
    ensures
        symbols_of(JsonSpec::Arr(items)) is Err,
{
    let e = symbol_of_elem(items[i])->Err_0;
    lemma_symbols_from_err(items, 0, i, e);
}

/// The six fields of a symbol object that must be strings spelling numbers.
pub open spec fn is_symbol_numeric_field(name: Seq<char>) -> bool {
    ||| name == "rank"@
    ||| name == "price_usd"@
    ||| name == "price_btc"@
    ||| name == "price_eur"@
    ||| name == "market_cap_usd"@
    ||| name == "market_cap_eur"@
}

/// Law: a symbol object fails to decode when a required numeric field holds
/// anything but a JSON string spelling a number of the field's type — be it
/// `null`, a native JSON number, a non-numeric string, or any other kind.
pub proof fn lemma_symbol_bad_numeric_field(fs: Seq<(Seq<char>, JsonSpec)>, name: Seq<char>)
    requires
        is_symbol_numeric_field(name),
        match lookup(fs, name) {
            Option::Some(v) => match v {
                JsonSpec::Str(t) => if name == "rank"@ {
                    u32_text_val(t) is None
                } else {
                    !is_float_text(t)
                },
                _ => true,
            },
            Option::None => false,
        },
    ensures
        symbol_of_obj(fs) is Err,
{
    if name == "rank"@ {
        assert(rank_field(fs, name) is Err);
    } else {
        assert(float_text_field(fs, name) is Err);
    }
}

/// Law: a well-formed aggregate object decodes in full, each field exactly
/// the value or text of its JSON number.
pub proof fn lemma_global_complete(fs: Seq<(Seq<char>, JsonSpec)>)
    requires
        count_field(fs, "active_assets"@) is Ok,
        count_field(fs, "active_currencies"@) is Ok,
        count_field(fs, "active_markets"@) is Ok,
        num_field(fs, "bitcoin_percentage_of_market_cap"@) is Ok,
        num_field(fs, "total_24h_volume_eur"@) is Ok,
        num_field(fs, "total_24h_volume_usd"@) is Ok,
        num_field(fs, "total_market_cap_eur"@) is Ok,
        num_field(fs, "total_market_cap_usd"@) is Ok,
    ensures
        global_of(JsonSpec::Obj(fs)) == Result::<SpecGlobal, SpecDecodeError>::Ok(
            SpecGlobal {
                active_assets: count_field(fs, "active_assets"@)->Ok_0,
                active_currencies: count_field(fs, "active_currencies"@)->Ok_0,
                active_markets: count_field(fs, "active_markets"@)->Ok_0,
                bitcoin_percentage_of_market_cap: num_field(
                    fs,
                    "bitcoin_percentage_of_market_cap"@,
                )->Ok_0,
                total_24h_volume_eur: num_field(fs, "total_24h_volume_eur"@)->Ok_0,
                total_24h_volume_usd: num_field(fs, "total_24h_volume_usd"@)->Ok_0,
                total_market_cap_eur: num_field(fs, "total_market_cap_eur"@)->Ok_0,
                total_market_cap_usd: num_field(fs, "total_market_cap_usd"@)->Ok_0,
            },
        ),
{
}

/// The three fields of the aggregate object that must be native JSON
/// integers.
pub open spec fn is_global_count_field(name: Seq<char>) -> bool {
    ||| name == "active_assets"@
    ||| name == "active_currencies"@
    ||| name == "active_markets"@
}

/// Law: the aggregate object fails to decode when an integer field arrives
/// as a JSON string instead of a native JSON number; no coercion applies
/// there.
pub proof fn lemma_global_int_field_not_number(fs: Seq<(Seq<char>, JsonSpec)>, name: Seq<char>)
    requires
        is_global_count_field(name),
        lookup(fs, name) matches Option::Some(JsonSpec::Str(_)),
    ensures
        global_of(JsonSpec::Obj(fs)) is Err,
{
    assert(count_field(fs, name) is Err);
}

/// Law: every record that a symbol object decodes to is well formed — each
/// of its floating-point texts obeys the grammar of `crate::num`.
pub proof fn lemma_symbol_wf(fs: Seq<(Seq<char>, JsonSpec)>)
    requires
        symbol_of_obj(fs) is Ok,
    ensures
        symbol_of_obj(fs)->Ok_0.wf(),
{
}

} // verus!

