//! Symbol tables for a contract-oriented source language.
//!
//! The crate walks a parsed program, builds a tree of scopes that records
//! every declared and referenced identifier, and then validates that each
//! referenced identifier resolves to a declaration in some enclosing scope.

use vstd::prelude::*;

pub mod analyzer;
pub mod ast;
mod builder;
pub mod laws;
pub mod model;
pub mod names;
pub mod ordmap;
pub mod symbols;
pub mod table;

pub use symbols::Location;
pub use symbols::Symbol;
pub use symbols::SymbolLocation;
pub use symbols::SymbolTableError;
pub use symbols::SymbolTableType;
pub use symbols::SymbolType;
pub use symbols::SymbolUsage;
pub use table::SymbolTable;

use analyzer::undeclared_in_scope;
use analyzer::validate_tables;
use builder::build_tables;
use model::build_program;
use model::program_fits;
use names::undeclared_msg;

verus! {

/// The storage location a variable of the given type falls back to when
/// neither an explicit qualifier nor an ambient location applies.
pub open spec fn type_default_location(typ: SymbolType) -> SymbolLocation {
    match typ {
        SymbolType::Unknown => SymbolLocation::Unknown,
        SymbolType::Contract => SymbolLocation::Storage,
        SymbolType::Function => SymbolLocation::Storage,
        SymbolType::Uint256 => SymbolLocation::Memory,
        SymbolType::Int256 => SymbolLocation::Memory,
        SymbolType::String => SymbolLocation::Storage,
        SymbolType::Address => SymbolLocation::Memory,
        SymbolType::Bytes32 => SymbolLocation::Storage,
        SymbolType::Bytes => SymbolLocation::Storage,
        SymbolType::Bool => SymbolLocation::Memory,
    }
}

/// Builds the scope tree of a parsed program and validates every
/// identifier reference in it.
///
/// On success the completed tree is returned; the first reference that
/// resolves to no declaration in any strict ancestor scope — in
/// deepest-first traversal order — is reported instead as an error whose
/// text names the identifier and whose location is the default one.
pub fn make_symbol_tables(program: &ast::Program) -> (r: Result<SymbolTable, SymbolTableError>)
    requires
        program_fits(*program),
    ensures
        ({
            let root = build_program(*program);
            match undeclared_in_scope(Seq::empty(), root) {
                Option::None => r matches Result::Ok(t) && t@ == root,
                Option::Some(name) => r matches Result::Err(e) && e.error@ == undeclared_msg(name)
                    && e.location == (Location { row: 0, column: 0 }),
            }
        }),
{
    let table = build_tables(program);
    match validate_tables(&table) {
        Result::Ok(_) => Result::Ok(table),
        Result::Err(e) => Result::Err(e),
    }
}

} // verus!
