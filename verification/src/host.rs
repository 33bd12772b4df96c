//! The parts of the contract SDK that the vault's logic calls: symbols and
//! the host's vectors. What is stated here about them is believed, not proved.
//!
//! Every one of these calls is metered by the host: an invocation that has used
//! up its budget is aborted inside the call, whatever its arguments are.
use soroban_sdk::TryFromVal;
use vstd::prelude::*;

use crate::address::AddressKey;

verus! {

/// The handle through which the host is called. Nothing inside it is read here.
#[verifier::external_type_specification]
#[verifier::external_body]
pub struct ExEnv(soroban_sdk::Env);

/// A short string over `a-zA-Z0-9_`, of at most 32 characters.
#[verifier::external_type_specification]
#[verifier::external_body]
pub struct ExSymbol(soroban_sdk::Symbol);

/// An address as the host holds it.
#[verifier::external_type_specification]
#[verifier::external_body]
pub struct ExAddress(soroban_sdk::Address);

/// The host's immutable vectors: a value of this type is a handle to one, and
/// an operation that changes it puts a handle to another one in its place. The
/// stored values are not guaranteed to be of type `T`.
#[verifier::external_type_specification]
#[verifier::external_body]
#[verifier::reject_recursive_types(T)]
pub struct ExVec<T>(soroban_sdk::Vec<T>);

/// The characters of a symbol, in order.
pub uninterp spec fn symbol_text(symbol: soroban_sdk::Symbol) -> Seq<char>;

/// Whether a symbol may hold this character.
pub open spec fn is_symbol_char(c: char) -> bool {
    c == '_' || '0' <= c <= '9' || 'A' <= c <= 'Z' || 'a' <= c <= 'z'
}

/// Whether a symbol may hold this text.
pub open spec fn is_symbol_text(text: Seq<char>) -> bool {
    &&& text.len() <= 32
    &&& forall|i: int| 0 <= i < text.len() ==> is_symbol_char(#[trigger] text[i])
}

/// `soroban_sdk::Symbol::new` makes the symbol that holds exactly the given
/// text. It panics on a text that no symbol can hold.
pub assume_specification [soroban_sdk::Symbol::new](
    env: &soroban_sdk::Env,
    s: &str,
) -> (symbol: soroban_sdk::Symbol)
    requires
        is_symbol_text(s@),
    ensures
        symbol_text(symbol) == s@,
;

/// `soroban_sdk::Symbol::to_string`, which the SDK has in native builds, gives
/// back the text that the symbol holds.
#[verifier::external_body]
pub(crate) fn symbol_to_string(symbol: &soroban_sdk::Symbol) -> (text: String)
    ensures
        text@ == symbol_text(*symbol),
{
    symbol.to_string()
}

/// What a host vector of amounts with request ids holds, in order: `None` where
/// a stored value is no pair of an `i128` and a `u64`.
pub uninterp spec fn deduct_items(items: soroban_sdk::Vec<(i128, u64)>) -> Seq<Option<(i128, u64)>>;

/// `soroban_sdk::Vec::len` counts the stored values.
#[verifier::external_body]
fn deduct_items_len(items: &soroban_sdk::Vec<(i128, u64)>) -> (len: u32)
    ensures
        len == deduct_items(*items).len(),
{
    items.len()
}

/// Reads the stored value at position `i`, as `soroban_sdk::Vec::get` does. The
/// value is taken apart by hand, since converting one that is no pair with
/// `try_get` would abort in the host.
#[verifier::external_body]
fn deduct_item_at(items: &soroban_sdk::Vec<(i128, u64)>, i: u32) -> (item: Option<
    (i128, u64),
>)
    requires
        i < deduct_items(*items).len(),
    ensures
        item == deduct_items(*items)[i as int],
{
    let env = items.env();
    let stored = items.to_vals().get_unchecked(i);
    let parts = soroban_sdk::Vec::<soroban_sdk::Val>::try_from_val(env, &stored).ok()?;
    let pair: [soroban_sdk::Val; 2] = parts.iter().collect::<Vec<_>>().try_into().ok()?;
    let amount = i128::try_from_val(env, &pair[0]).ok()?;
    let request_id = u64::try_from_val(env, &pair[1]).ok()?;
    Some((amount, request_id))
}

/// Reads a whole host vector of amounts with request ids.
pub(crate) fn read_deduct_items(items: &soroban_sdk::Vec<(i128, u64)>) -> (list: Vec<
    Option<(i128, u64)>,
>)
    ensures
        list@ == deduct_items(*items),
        list@.len() <= u32::MAX,
{
    let len: u32 = deduct_items_len(items);
    let mut list: Vec<Option<(i128, u64)>> = Vec::new();
    let mut i: u32 = 0;
    while i < len
        invariant
            i <= len,
            len == deduct_items(*items).len(),
            list@ == deduct_items(*items).take(i as int),
        decreases len - i,
    {
        list.push(deduct_item_at(items, i));
        i = i + 1;
        assert(list@ =~= deduct_items(*items).take(i as int));
    }
    assert(list@ =~= deduct_items(*items));
    list
}

/// What a host vector of symbols holds, in order, each symbol as its text:
/// `None` where a stored value is no symbol.
pub uninterp spec fn symbol_texts(symbols: soroban_sdk::Vec<soroban_sdk::Symbol>) -> Seq<
    Option<Seq<char>>,
>;

/// `soroban_sdk::Vec::len` counts the stored values.
#[verifier::external_body]
fn symbols_len(symbols: &soroban_sdk::Vec<soroban_sdk::Symbol>) -> (len: u32)
    ensures
        len == symbol_texts(*symbols).len(),
{
    symbols.len()
}

/// `soroban_sdk::Vec::try_get` reads the symbol at position `i`, and fails on a
/// stored value that is no symbol.
#[verifier::external_body]
fn symbol_text_at(
    symbols: &soroban_sdk::Vec<soroban_sdk::Symbol>,
    i: u32,
) -> (text: Option<String>)
    requires
        i < symbol_texts(*symbols).len(),
    ensures
        text is Some <==> symbol_texts(*symbols)[i as int] is Some,
        text matches Some(t) ==> Some(t@) == symbol_texts(*symbols)[i as int],
{
    match symbols.try_get(i) {
        Ok(Some(symbol)) => Some(symbol.to_string()),
        _ => None,
    }
}

/// The texts of a list.
pub open spec fn texts_of(list: Seq<Option<String>>) -> Seq<Option<Seq<char>>> {
    list.map_values(|text: Option<String>| text_of(text))
}

/// The characters of a text, where there is one.
pub open spec fn text_of(text: Option<String>) -> Option<Seq<char>> {
    match text {
        Some(t) => Some(t@),
        None => None,
    }
}

/// Reads a whole host vector of symbols.
pub(crate) fn read_symbol_texts(symbols: &soroban_sdk::Vec<soroban_sdk::Symbol>) -> (list: Vec<
    Option<String>,
>)
    ensures
        texts_of(list@) == symbol_texts(*symbols),
{
    let len: u32 = symbols_len(symbols);
    let mut list: Vec<Option<String>> = Vec::new();
    let mut i: u32 = 0;
    while i < len
        invariant
            i <= len,
            len == symbol_texts(*symbols).len(),
            texts_of(list@) == symbol_texts(*symbols).take(i as int),
        decreases len - i,
    {
        let ghost before = list@;
        list.push(symbol_text_at(symbols, i));
        i = i + 1;
        assert(texts_of(list@) =~= texts_of(before).push(text_of(list@.last())));
        assert(texts_of(list@) =~= symbol_texts(*symbols).take(i as int));
    }
    assert(texts_of(list@) =~= symbol_texts(*symbols));
    list
}

/// What a host vector of addresses holds, in order, each address as a plain
/// value: `None` where a stored value is no address.
pub uninterp spec fn addresses(list: soroban_sdk::Vec<soroban_sdk::Address>) -> Seq<
    Option<AddressKey>,
>;

/// `soroban_sdk::Vec::len` counts the stored values.
#[verifier::external_body]
fn addresses_len(list: &soroban_sdk::Vec<soroban_sdk::Address>) -> (len: u32)
    ensures
        len == addresses(*list).len(),
{
    list.len()
}

/// `soroban_sdk::Vec::try_get` reads the address at position `i`, and fails on a
/// stored value that is no address. `soroban_sdk::Address::to_string` encodes
/// it as its strkey, which has 56 characters for accounts and contracts alike.
#[verifier::external_body]
fn address_at(list: &soroban_sdk::Vec<soroban_sdk::Address>, i: u32) -> (address: Option<
    AddressKey,
>)
    requires
        i < addresses(*list).len(),
    ensures
        address == addresses(*list)[i as int],
{
    match list.try_get(i) {
        Ok(Some(address)) => {
            let mut strkey = [0u8; 56];
            address.to_string().copy_into_slice(&mut strkey);
            Some(AddressKey { strkey })
        },
        _ => None,
    }
}

/// Reads a whole host vector of addresses.
pub(crate) fn read_addresses(list: &soroban_sdk::Vec<soroban_sdk::Address>) -> (keys: Vec<
    Option<AddressKey>,
>)
    ensures
        keys@ == addresses(*list),
{
    let len: u32 = addresses_len(list);
    let mut keys: Vec<Option<AddressKey>> = Vec::new();
    let mut i: u32 = 0;
    while i < len
        invariant
            i <= len,
            len == addresses(*list).len(),
            keys@ == addresses(*list).take(i as int),
        decreases len - i,
    {
        keys.push(address_at(list, i));
        i = i + 1;
        assert(keys@ =~= addresses(*list).take(i as int));
    }
    assert(keys@ =~= addresses(*list));
    keys
}

} // verus!
