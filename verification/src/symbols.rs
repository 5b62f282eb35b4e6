//! The symbol record kept for every declared or referenced identifier.

use vstd::prelude::*;

verus! {

/// The coarse type tag attached to a symbol.
#[derive(Debug, Clone, Copy, PartialEq, Eq, Structural)]
pub enum SymbolType {
    Unknown,
    Contract,
    Function,
    Uint256,
    Int256,
    String,
    Address,
    Bytes32,
    Bytes,
    Bool,
}

/// Whether a symbol entry records a binding declaration or a reference.
#[derive(Debug, Clone, Copy, PartialEq, Eq, Structural)]
pub enum SymbolUsage {
    Used,
    Declared,
}

/// The kind of scope a symbol table describes.
#[derive(Debug, Clone, Copy, PartialEq, Eq, Structural)]
pub enum SymbolTableType {
    Global,
    Contract,
    Function,
    Local,
}

/// Persistent versus transient data placement for a symbol.
#[derive(Debug, Clone, Copy, PartialEq, Eq, Structural)]
pub enum SymbolLocation {
    Unknown,
    Storage,
    Memory,
}

/// A position in the source text.
#[derive(Debug, Clone, Copy, PartialEq, Eq, Structural)]
pub struct Location {
    pub row: usize,
    pub column: usize,
}

impl Default for Location {
    /// The default position, used when no source position is available.
    fn default() -> (r: Self)
        ensures
            r == (Location { row: 0, column: 0 }),
    {
        Location { row: 0, column: 0 }
    }
}

/// One name's record within a scope.
#[derive(Debug, Clone, PartialEq)]
pub struct Symbol {
    pub name: String,
    pub symbol_type: SymbolType,
    pub data_location: SymbolLocation,
    pub role: SymbolUsage,
}

/// The mathematical value of a [`Symbol`].
pub struct SymbolView {
    pub name: Seq<char>,
    pub symbol_type: SymbolType,
    pub data_location: SymbolLocation,
    pub role: SymbolUsage,
}

impl View for Symbol {
    type V = SymbolView;

    open spec fn view(&self) -> SymbolView {
        SymbolView {
            name: self.name@,
            symbol_type: self.symbol_type,
            data_location: self.data_location,
            role: self.role,
        }
    }
}

impl Symbol {
    /// Builds a symbol record from its four components.
    pub fn new(
        name: String,
        role: SymbolUsage,
        symbol_type: SymbolType,
        data_location: SymbolLocation,
    ) -> (r: Self)
        ensures
            r@ == (SymbolView { name: name@, symbol_type, data_location, role }),
    {
        Symbol { name, symbol_type, data_location, role }
    }
}

/// The diagnostic produced when a referenced identifier never resolves
/// to a declaration.
#[derive(Debug, PartialEq)]
pub struct SymbolTableError {
    pub error: String,
    pub location: Location,
}

} // verus!
