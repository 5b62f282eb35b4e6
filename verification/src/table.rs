//! The scope tree the builder produces.

use crate::ordmap::map_entries;
use crate::symbols::Symbol;
use crate::symbols::SymbolTableType;
use crate::symbols::SymbolView;
use vstd::prelude::*;

verus! {

/// One scope of the program: its name, kind, the symbols registered in it
/// in declaration/use order, and its nested scopes in source order.
pub struct SymbolTable {
    pub name: String,
    pub table_type: SymbolTableType,
    pub symbols: indexmap::IndexMap<String, Symbol>,
    pub sub_tables: Vec<SymbolTable>,
}

/// The mathematical value of a [`SymbolTable`]: a tree of scopes whose
/// symbol maps are sequences of key-symbol pairs in insertion order.
pub struct ScopeView {
    pub name: Seq<char>,
    pub kind: SymbolTableType,
    pub symbols: Seq<(Seq<char>, SymbolView)>,
    pub children: Seq<ScopeView>,
}

/// The view of a scope tree.
pub open spec fn table_view(t: SymbolTable) -> ScopeView
    decreases t,
{
    ScopeView {
        name: t.name@,
        kind: t.table_type,
        symbols: map_entries(t.symbols),
        children: tables_view(t.sub_tables@),
    }
}

/// The views of a sequence of scope trees, in order.
pub open spec fn tables_view(ts: Seq<SymbolTable>) -> Seq<ScopeView>
    decreases ts,
{
    if ts.len() == 0 {
        Seq::empty()
    } else {
        tables_view(ts.drop_last()).push(table_view(ts.last()))
    }
}

impl View for SymbolTable {
    type V = ScopeView;

    open spec fn view(&self) -> ScopeView {
        table_view(*self)
    }
}

/// Appending a tree to a sequence appends its view.
pub proof fn lemma_tables_view_push(ts: Seq<SymbolTable>, t: SymbolTable)
    ensures
        tables_view(ts.push(t)) == tables_view(ts).push(table_view(t)),
{
    assert(ts.push(t).drop_last() =~= ts);
    assert(ts.push(t).last() == t);
}

/// The view of a sequence of trees keeps its length.
pub proof fn lemma_tables_view_len(ts: Seq<SymbolTable>)
    ensures
        tables_view(ts).len() == ts.len(),
    decreases ts,
{
    if ts.len() > 0 {
        lemma_tables_view_len(ts.drop_last());
    }
}

/// The view of a sequence of trees, at one position.
pub proof fn lemma_tables_view_index(ts: Seq<SymbolTable>, i: int)
    requires
        0 <= i < ts.len(),
    ensures
        tables_view(ts).len() == ts.len(),
        tables_view(ts)[i] == table_view(ts[i]),
    decreases ts,
{
    lemma_tables_view_len(ts);
    if i < ts.len() - 1 {
        lemma_tables_view_index(ts.drop_last(), i);
        assert(ts.drop_last()[i] == ts[i]);
    }
}

} // verus!
