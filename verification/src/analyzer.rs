//! The usage analyzer: a bottom-up traversal of the completed scope tree
//! that validates every referenced identifier against the declarations of
//! its strict ancestor scopes.

use crate::names::make_undeclared_msg;
use crate::names::undeclared_msg;
use crate::ordmap::entry_index;
use crate::ordmap::lemma_entry_index;
use crate::ordmap::map_clone;
use crate::ordmap::map_entries;
use crate::ordmap::map_get;
use crate::ordmap::map_get_index;
use crate::ordmap::map_len;
use crate::symbols::Location;
use crate::symbols::Symbol;
use crate::symbols::SymbolTableError;
use crate::symbols::SymbolTableType;
use crate::symbols::SymbolUsage;
use crate::symbols::SymbolView;
use crate::table::lemma_tables_view_index;
use crate::table::table_view;
use crate::table::SymbolTable;
use crate::table::ScopeView;
use vstd::prelude::*;

verus! {

/// Whether the symbol entries hold `name` with the `Declared` role.
pub open spec fn entry_declared(es: Seq<(Seq<char>, SymbolView)>, name: Seq<char>) -> bool {
    let i = entry_index(es, name);
    i >= 0 && es[i].1.role == SymbolUsage::Declared
}

/// Whether some scope of the ancestor stack declares `name`.  An entry
/// that merely uses the name never resolves a reference.
pub open spec fn resolves(stack: Seq<Seq<(Seq<char>, SymbolView)>>, name: Seq<char>) -> bool {
    exists|i: int| 0 <= i < stack.len() && entry_declared(stack[i], name)
}

/// The name of the first symbol entry, in insertion order, that is a use
/// with no resolving declaration on the ancestor stack.
pub open spec fn undeclared_in_symbols(
    stack: Seq<Seq<(Seq<char>, SymbolView)>>,
    syms: Seq<(Seq<char>, SymbolView)>,
) -> Option<Seq<char>>
    decreases syms,
{
    if syms.len() == 0 {
        Option::None
    } else if syms[0].1.role == SymbolUsage::Used && !resolves(stack, syms[0].1.name) {
        Option::Some(syms[0].1.name)
    } else {
        undeclared_in_symbols(stack, syms.drop_first())
    }
}

/// The validation outcome of one scope under an ancestor stack: the
/// children are validated first, deepest first and in order, with this
/// scope's symbols visible; then this scope's own entries are checked
/// against the strict ancestors alone.
pub open spec fn undeclared_in_scope(
    stack: Seq<Seq<(Seq<char>, SymbolView)>>,
    t: ScopeView,
) -> Option<Seq<char>>
    decreases t,
{
    let deeper = undeclared_in_scopes(stack.push(t.symbols), t.children);
    if deeper is Some {
        deeper
    } else {
        undeclared_in_symbols(stack, t.symbols)
    }
}

/// The first validation failure among a sequence of sibling scopes.
pub open spec fn undeclared_in_scopes(
    stack: Seq<Seq<(Seq<char>, SymbolView)>>,
    cs: Seq<ScopeView>,
) -> Option<Seq<char>>
    decreases cs,
{
    if cs.len() == 0 {
        Option::None
    } else {
        let first = undeclared_in_scope(stack, cs[0]);
        if first is Some {
            first
        } else {
            undeclared_in_scopes(stack, cs.drop_first())
        }
    }
}

/// One snapshot on the analyzer's ancestor stack.
pub(crate) struct AnalysisTable {
    pub map: indexmap::IndexMap<String, Symbol>,
    pub typ: SymbolTableType,
}

impl AnalysisTable {
    pub(crate) fn new(map: indexmap::IndexMap<String, Symbol>, typ: SymbolTableType) -> (r: Self)
        ensures
            map_entries(r.map) == map_entries(map),
            r.typ == typ,
    {
        AnalysisTable { map, typ }
    }
}

/// The symbol entries of each stacked snapshot, bottom of the stack first.
pub(crate) open spec fn stack_view(ts: Seq<AnalysisTable>) -> Seq<Seq<(Seq<char>, SymbolView)>> {
    Seq::new(ts.len(), |i: int| map_entries(ts[i].map))
}

/// The analyzer: an explicit stack of the symbol maps of every scope
/// between the root and the scope under validation.
pub(crate) struct SymbolAnalyzer {
    pub tables: Vec<AnalysisTable>,
}

impl SymbolAnalyzer {
    /// Checks one symbol of a popped snapshot against the remaining stack.
    fn analyze_symbol(&self, symbol: &Symbol) -> (r: Result<(), SymbolTableError>)
        ensures
            ({
                if symbol@.role == SymbolUsage::Used && !resolves(
                    stack_view(self.tables@),
                    symbol@.name,
                ) {
                    r matches Result::Err(e) && e.error@ == undeclared_msg(symbol@.name)
                        && e.location == (Location { row: 0, column: 0 })
                } else {
                    r is Ok
                }
            }),
    {
        match symbol.role {
            SymbolUsage::Declared => Result::Ok(()),
            SymbolUsage::Used => {
                let n = self.tables.len();
                for i in 0..n
                    invariant
                        n == self.tables.len(),
                        forall|j: int|
                            0 <= j < i ==> !entry_declared(
                                stack_view(self.tables@)[j],
                                symbol@.name,
                            ),
                {
                    proof {
                        lemma_entry_index(map_entries(self.tables@[i as int].map), symbol@.name);
                    }
                    match map_get(&self.tables[i].map, &symbol.name) {
                        Option::Some(sym) => {
                            if sym.role == SymbolUsage::Declared {
                                proof {
                                    assert(entry_declared(
                                        stack_view(self.tables@)[i as int],
                                        symbol@.name,
                                    ));
                                    assert(resolves(stack_view(self.tables@), symbol@.name));
                                }
                                return Result::Ok(());
                            }
                        },
                        Option::None => {},
                    }
                }
                proof {
                    assert(stack_view(self.tables@).len() == n);
                    assert(!resolves(stack_view(self.tables@), symbol@.name));
                }
                Result::Err(
                    SymbolTableError {
                        error: make_undeclared_msg(&symbol.name),
                        location: Location::default(),
                    },
                )
            },
        }
    }

    /// Validates one scope tree: pushes its snapshot, recurses into the
    /// children in order, pops, and checks the popped entries against the
    /// strict ancestors.
    pub(crate) fn analyze_symbol_table(&mut self, table: &SymbolTable) -> (r: Result<
        (),
        SymbolTableError,
    >)
        ensures
            match undeclared_in_scope(stack_view(old(self).tables@), table_view(*table)) {
                Option::None => r is Ok && final(self).tables@ == old(self).tables@,
                Option::Some(name) => r matches Result::Err(e) && e.error@ == undeclared_msg(name)
                    && e.location == (Location { row: 0, column: 0 }),
            },
        decreases *table,
    {
        let ghost stack0 = stack_view(self.tables@);
        let ghost tv = table_view(*table);
        let snapshot = map_clone(&table.symbols);
        self.tables.push(AnalysisTable::new(snapshot, table.table_type));
        let ghost pushed = self.tables@;
        let ghost stack1 = stack_view(pushed);
        proof {
            assert(stack1 =~= stack0.push(tv.symbols));
        }
        let m = table.sub_tables.len();
        proof {
            crate::table::lemma_tables_view_len(table.sub_tables@);
            assert(tv.children.skip(0) =~= tv.children);
        }
        for i in 0..m
            invariant
                m == table.sub_tables.len(),
                tv == table_view(*table),
                tv.children.len() == m,
                self.tables@ == pushed,
                stack1 == stack_view(pushed),
                stack1 == stack0.push(tv.symbols),
                stack0 == stack_view(old(self).tables@),
                undeclared_in_scopes(stack1, tv.children) == undeclared_in_scopes(
                    stack1,
                    tv.children.skip(i as int),
                ),
        {
            proof {
                lemma_tables_view_index(table.sub_tables@, i as int);
                assert(tv.children.skip(i as int)[0] == tv.children[i as int]);
            }
            match self.analyze_symbol_table(&table.sub_tables[i]) {
                Result::Ok(_) => {},
                Result::Err(e) => {
                    proof {
                        assert(undeclared_in_scopes(stack1, tv.children.skip(i as int))
                            == undeclared_in_scope(stack1, tv.children[i as int]));
                        assert(undeclared_in_scope(stack0, tv) == undeclared_in_scope(
                            stack1,
                            tv.children[i as int],
                        ));
                    }
                    return Result::Err(e);
                },
            }
            proof {
                assert(tv.children.skip(i as int).drop_first() =~= tv.children.skip(i as int + 1));
            }
        }
        proof {
            assert(tv.children.skip(m as int) =~= Seq::<ScopeView>::empty());
            assert(undeclared_in_scopes(stack1, tv.children) is None);
        }
        let popped = match self.tables.pop() {
            Option::Some(p) => p,
            Option::None => {
                proof {
                    assert(false);
                }
                return Result::Ok(());
            },
        };
        proof {
            assert(self.tables@ =~= old(self).tables@);
            assert(map_entries(popped.map) == tv.symbols);
        }
        proof {
            assert(tv.symbols.skip(0) =~= tv.symbols);
        }
        let k = map_len(&popped.map);
        for i in 0..k
            invariant
                k == map_entries(popped.map).len(),
                tv == table_view(*table),
                map_entries(popped.map) == tv.symbols,
                self.tables@ == old(self).tables@,
                stack0 == stack_view(old(self).tables@),
                stack1 == stack0.push(tv.symbols),
                undeclared_in_scopes(stack1, tv.children) is None,
                undeclared_in_symbols(stack0, tv.symbols) == undeclared_in_symbols(
                    stack0,
                    tv.symbols.skip(i as int),
                ),
        {
            proof {
                assert(tv.symbols.skip(i as int)[0] == tv.symbols[i as int]);
            }
            match map_get_index(&popped.map, i) {
                Option::Some(kv) => {
                    match self.analyze_symbol(kv.1) {
                        Result::Ok(_) => {},
                        Result::Err(e) => {
                            proof {
                                assert(undeclared_in_symbols(stack0, tv.symbols.skip(i as int))
                                    == Option::Some(tv.symbols[i as int].1.name));
                                assert(undeclared_in_scope(stack0, tv) == Option::Some(
                                    tv.symbols[i as int].1.name,
                                ));
                            }
                            return Result::Err(e);
                        },
                    }
                },
                Option::None => {
                    proof {
                        assert(false);
                    }
                },
            }
            proof {
                assert(tv.symbols.skip(i as int).drop_first() =~= tv.symbols.skip(i as int + 1));
            }
        }
        proof {
            assert(tv.symbols.skip(k as int) =~= Seq::<(Seq<char>, SymbolView)>::empty());
        }
        Result::Ok(())
    }
}

/// Validates a completed scope tree, reporting the first undeclared use
/// encountered in deepest-first traversal order.
pub(crate) fn validate_tables(table: &SymbolTable) -> (r: Result<(), SymbolTableError>)
    ensures
        match undeclared_in_scope(Seq::empty(), table_view(*table)) {
            Option::None => r is Ok,
            Option::Some(name) => r matches Result::Err(e) && e.error@ == undeclared_msg(name)
                && e.location == (Location { row: 0, column: 0 }),
        },
{
    let mut analyzer = SymbolAnalyzer { tables: Vec::new() };
    proof {
        assert(stack_view(analyzer.tables@) =~= Seq::<Seq<(Seq<char>, SymbolView)>>::empty());
    }
    analyzer.analyze_symbol_table(table)
}

} // verus!
