//! The guarantees the two passes give, stated and proved once and for all.

use crate::analyzer::entry_declared;
use crate::analyzer::resolves;
use crate::analyzer::undeclared_in_scope;
use crate::analyzer::undeclared_in_scopes;
use crate::analyzer::undeclared_in_symbols;
use crate::ast::Expression;
use crate::ast::Program;
use crate::ast::Type;
use crate::model::build_expr;
use crate::model::build_program;
use crate::model::else_name;
use crate::model::fresh_frame;
use crate::model::if_name;
use crate::model::resolve_location;
use crate::model::sym_type_of;
use crate::model::FrameView;
use crate::ordmap::entry_index;
use crate::symbols::SymbolLocation;
use crate::symbols::SymbolTableType;
use crate::symbols::SymbolUsage;
use crate::symbols::SymbolView;
use crate::table::ScopeView;
use crate::type_default_location;
use vstd::prelude::*;

verus! {

/// Whether every `Used` entry of the given symbols resolves against the
/// ancestor stack.
pub open spec fn all_symbols_resolved(
    stack: Seq<Seq<(Seq<char>, SymbolView)>>,
    syms: Seq<(Seq<char>, SymbolView)>,
) -> bool {
    forall|k: int|
        0 <= k < syms.len() && syms[k].1.role == SymbolUsage::Used ==> resolves(
            stack,
            syms[k].1.name,
        )
}

/// Whether, under an ancestor stack, every reference anywhere in the
/// scope tree resolves to a declaration in a strict ancestor of its scope.
pub open spec fn uses_resolved(stack: Seq<Seq<(Seq<char>, SymbolView)>>, t: ScopeView) -> bool
    decreases t,
{
    &&& all_symbols_resolved(stack, t.symbols)
    &&& forall|i: int|
        0 <= i < t.children.len() ==> uses_resolved(stack.push(t.symbols), t.children[i])
}

/// Checking a scope's symbols finds no undeclared use exactly when every
/// `Used` entry resolves against the stack.
pub proof fn lemma_symbols_check(
    stack: Seq<Seq<(Seq<char>, SymbolView)>>,
    syms: Seq<(Seq<char>, SymbolView)>,
)
    ensures
        (undeclared_in_symbols(stack, syms) is None) <==> all_symbols_resolved(stack, syms),
    decreases syms,
{
    if syms.len() > 0 {
        lemma_symbols_check(stack, syms.drop_first());
        let rest = syms.drop_first();
        assert(forall|k: int| 0 <= k < rest.len() ==> rest[k] == syms[k + 1]);
        if syms[0].1.role == SymbolUsage::Used && !resolves(stack, syms[0].1.name) {
            assert(!all_symbols_resolved(stack, syms));
        } else {
            if all_symbols_resolved(stack, syms) {
                assert(all_symbols_resolved(stack, rest));
            }
            if all_symbols_resolved(stack, rest) {
                assert forall|k: int|
                    0 <= k < syms.len() && syms[k].1.role == SymbolUsage::Used implies resolves(
                    stack,
                    syms[k].1.name,
                ) by {
                    if k > 0 {
                        assert(rest[k - 1] == syms[k]);
                    }
                }
            }
        }
    }
}

/// Validation of a scope succeeds exactly when every reference in its
/// tree resolves to a declaration in a strict ancestor of its own scope.
/// In particular a program all of whose references have a declaration in
/// an enclosing scope validates without error, and one with a reference
/// that no enclosing scope declares does not.
pub proof fn lemma_scope_check(stack: Seq<Seq<(Seq<char>, SymbolView)>>, t: ScopeView)
    ensures
        (undeclared_in_scope(stack, t) is None) <==> uses_resolved(stack, t),
    decreases t,
{
    lemma_scopes_check(stack.push(t.symbols), t.children);
    lemma_symbols_check(stack, t.symbols);
}

/// Validation of sibling scopes succeeds exactly when each succeeds.
pub proof fn lemma_scopes_check(stack: Seq<Seq<(Seq<char>, SymbolView)>>, cs: Seq<ScopeView>)
    ensures
        (undeclared_in_scopes(stack, cs) is None) <==> (forall|i: int|
            0 <= i < cs.len() ==> uses_resolved(stack, cs[i])),
    decreases cs,
{
    if cs.len() > 0 {
        lemma_scope_check(stack, cs[0]);
        lemma_scopes_check(stack, cs.drop_first());
        let rest = cs.drop_first();
        assert(forall|i: int| 0 <= i < rest.len() ==> rest[i] == cs[i + 1]);
        if (undeclared_in_scopes(stack, cs) is None) {
            assert forall|i: int| 0 <= i < cs.len() implies uses_resolved(stack, cs[i]) by {
                if i > 0 {
                    assert(rest[i - 1] == cs[i]);
                }
            }
        } else {
            if undeclared_in_scope(stack, cs[0]) is None {
                assert(!(forall|i: int| 0 <= i < rest.len() ==> uses_resolved(stack, rest[i])));
                let i = choose|i: int|
                    0 <= i < rest.len() && !uses_resolved(stack, rest[i]);
                assert(cs[i + 1] == rest[i]);
                assert(!uses_resolved(stack, cs[i + 1]));
            }
        }
    }
}

/// A program validates without error exactly when every reference in its
/// built scope tree resolves to a declaration in a strict ancestor of
/// the scope holding the reference; otherwise validation reports an
/// undeclared use.
pub proof fn lemma_program_check(p: Program)
    ensures
        (undeclared_in_scope(Seq::empty(), build_program(p)) is None) <==> uses_resolved(
            Seq::empty(),
            build_program(p),
        ),
{
    lemma_scope_check(Seq::empty(), build_program(p));
}

/// A declaration in a sibling scope is invisible: a scope whose own
/// entries use a name that neither the ancestor stack nor the parent
/// declares makes the parent's validation fail, whatever any sibling
/// scope declares.
pub proof fn lemma_sibling_scopes_isolated(
    stack: Seq<Seq<(Seq<char>, SymbolView)>>,
    parent: ScopeView,
    i: int,
    k: int,
    name: Seq<char>,
)
    requires
        0 <= i < parent.children.len(),
        0 <= k < parent.children[i].symbols.len(),
        parent.children[i].symbols[k].1.role == SymbolUsage::Used,
        parent.children[i].symbols[k].1.name == name,
        !resolves(stack.push(parent.symbols), name),
    ensures
        undeclared_in_scope(stack, parent) is Some,
{
    if undeclared_in_scope(stack, parent) is None {
        lemma_scope_check(stack, parent);
        assert(uses_resolved(stack.push(parent.symbols), parent.children[i]));
        assert(resolves(stack.push(parent.symbols), name));
    }
}

/// An ancestor entry that merely uses a name never resolves a reference
/// to it: resolution demands a `Declared` entry.
pub proof fn lemma_used_entries_never_resolve(
    stack: Seq<Seq<(Seq<char>, SymbolView)>>,
    name: Seq<char>,
)
    requires
        forall|i: int|
            0 <= i < stack.len() && entry_index(stack[i], name) >= 0 ==> stack[i][entry_index(
                stack[i],
                name,
            )].1.role == SymbolUsage::Used,
    ensures
        !resolves(stack, name),
{
    assert forall|i: int| 0 <= i < stack.len() implies !entry_declared(stack[i], name) by {
        if entry_index(stack[i], name) >= 0 {
            assert(stack[i][entry_index(stack[i], name)].1.role == SymbolUsage::Used);
        }
    }
}

/// A newly entered scope restarts every synthetic-name counter at zero,
/// so a nested function elsewhere numbers its own branches from one again.
pub proof fn lemma_new_scope_restarts_counters(name: Seq<char>, kind: SymbolTableType)
    ensures
        fresh_frame(name, kind).ifs == 0,
        fresh_frame(name, kind).fors == 0,
        fresh_frame(name, kind).compounds == 0,
{
}

/// Each if-expression visited in a frame takes the next if-number in
/// sequence: its branch scope is appended with the name carrying one more
/// than the frame's count after the condition, and an else branch carries
/// the same number.  Two sequential ifs in one scope are therefore
/// numbered consecutively.
pub proof fn lemma_if_numbering(f: FrameView, e: Expression)
    requires
        e matches Expression::IfExpression { .. },
    ensures
        match e {
            Expression::IfExpression { condition, if_statement, else_statement } => {
                let before = build_expr(f, *condition);
                let after = build_expr(f, e);
                &&& after.ifs == before.ifs + 1
                &&& after.children[before.children.len() as int].name == if_name(before.ifs + 1)
                &&& (else_statement is Some ==> after.children[before.children.len() as int
                    + 1].name == else_name(before.ifs + 1))
                &&& after.children.len() == before.children.len() + (
                if else_statement is Some {
                    2int
                } else {
                    1int
                })
            },
            _ => true,
        },
{
    match e {
        Expression::IfExpression { condition, if_statement, else_statement } => {
            let before = build_expr(f, *condition);
            let n = before.ifs + 1;
            crate::model::lemma_block_keeps_identity(
                fresh_frame(if_name(n), SymbolTableType::Local),
                *if_statement,
                SymbolLocation::Unknown,
            );
            match else_statement {
                Option::Some(es) => {
                    crate::model::lemma_block_keeps_identity(
                        fresh_frame(else_name(n), SymbolTableType::Local),
                        *es,
                        SymbolLocation::Unknown,
                    );
                },
                Option::None => {},
            }
        },
        _ => {},
    }
}

/// A declaration with no explicit qualifier takes the ambient location
/// handed down by the enclosing construct when one is known, and falls
/// back to its type's default location otherwise.
pub proof fn lemma_unqualified_location_defaults(typ: Type, ambient: SymbolLocation)
    ensures
        resolve_location(sym_type_of(typ), Option::None, SymbolLocation::Unknown)
            == type_default_location(sym_type_of(typ)),
        ambient != SymbolLocation::Unknown ==> resolve_location(
            sym_type_of(typ),
            Option::None,
            ambient,
        ) == ambient,
{
}

} // verus!
