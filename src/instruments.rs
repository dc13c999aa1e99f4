//! Instrument reference data.

use vstd::prelude::*;

verus! {

/// One notation of an instrument's symbol.
#[derive(Debug, Clone)]
pub struct SymbolDetail {
    pub symbol: String,
    pub symbol_format: String,
}

/// An instrument and its symbols.
#[derive(Debug, Clone)]
pub struct Instrument {
    pub symbols: Vec<SymbolDetail>,
    pub asset_class: String,
    pub primary_exchange: String,
    pub description: String,
}

} // verus!
