//! The mathematical model of the scope builder.
//!
//! A frame is the scope currently being filled: its name and kind, the
//! symbols registered so far, the sealed child scopes, and one counter per
//! kind of synthetic scope.  The `build_*` functions below state, by
//! recursion over the program, exactly which frame a traversal leaves
//! behind; the executable builder is proved to produce the same frame.

use crate::ast::Expression;
use crate::ast::Program;
use crate::ast::Specifier;
use crate::ast::Statement;
use crate::ast::Type;
use crate::names::dec_str;
use crate::symbols::SymbolLocation;
use crate::symbols::SymbolTableType;
use crate::symbols::SymbolType;
use crate::symbols::SymbolUsage;
use crate::symbols::SymbolView;
use crate::table::ScopeView;
use crate::type_default_location;
use crate::ordmap::entry_index;
use vstd::prelude::*;

verus! {

/// A scope in the middle of construction.
#[verifier::ext_equal]
pub struct FrameView {
    pub name: Seq<char>,
    pub kind: SymbolTableType,
    pub symbols: Seq<(Seq<char>, SymbolView)>,
    pub children: Seq<ScopeView>,
    pub ifs: nat,
    pub fors: nat,
    pub compounds: nat,
}

/// The frame of a scope just entered: empty, with every counter at zero.
pub open spec fn fresh_frame(name: Seq<char>, kind: SymbolTableType) -> FrameView {
    FrameView {
        name,
        kind,
        symbols: Seq::empty(),
        children: Seq::empty(),
        ifs: 0,
        fors: 0,
        compounds: 0,
    }
}

/// The scope a finished frame seals into.
pub open spec fn seal_frame(f: FrameView) -> ScopeView {
    ScopeView { name: f.name, kind: f.kind, symbols: f.symbols, children: f.children }
}

/// Registers a symbol under `key`: a new name is appended, an existing
/// name keeps its place and has its record replaced.
pub open spec fn insert_entry(
    es: Seq<(Seq<char>, SymbolView)>,
    key: Seq<char>,
    sym: SymbolView,
) -> Seq<(Seq<char>, SymbolView)> {
    let i = entry_index(es, key);
    if i == -1 {
        es.push((key, sym))
    } else {
        es.update(i, (key, sym))
    }
}

/// Registers a declaration in the frame.
pub open spec fn declare(
    f: FrameView,
    name: Seq<char>,
    typ: SymbolType,
    loc: SymbolLocation,
) -> FrameView {
    FrameView {
        symbols: insert_entry(
            f.symbols,
            name,
            SymbolView { name, symbol_type: typ, data_location: loc, role: SymbolUsage::Declared },
        ),
        ..f
    }
}

/// Records an identifier reference: the first registration of a name in a
/// scope wins, so a name already present is left untouched.
pub open spec fn note_use(f: FrameView, name: Seq<char>) -> FrameView {
    if entry_index(f.symbols, name) == -1 {
        FrameView {
            symbols: f.symbols.push(
                (
                    name,
                    SymbolView {
                        name,
                        symbol_type: SymbolType::Unknown,
                        data_location: SymbolLocation::Unknown,
                        role: SymbolUsage::Used,
                    },
                ),
            ),
            ..f
        }
    } else {
        f
    }
}

/// The type tag a declared variable receives.
pub open spec fn sym_type_of(t: Type) -> SymbolType {
    match t {
        Type::String => SymbolType::String,
        Type::Uint256 => SymbolType::Uint256,
        Type::Int256 => SymbolType::Int256,
        Type::Bytes32 => SymbolType::Bytes32,
        Type::Bool => SymbolType::Bool,
        Type::Bytes => SymbolType::Bytes,
        Type::Address => SymbolType::Address,
    }
}

/// The data location a declaration resolves to: an explicit qualifier
/// wins, then a known ambient location, then the type's default.
pub open spec fn resolve_location(
    typ: SymbolType,
    explicit: Option<Specifier>,
    ambient: SymbolLocation,
) -> SymbolLocation {
    match explicit {
        Option::Some(Specifier::Storage) => SymbolLocation::Storage,
        Option::Some(Specifier::Memory) => SymbolLocation::Memory,
        Option::None => if ambient != SymbolLocation::Unknown {
            ambient
        } else {
            type_default_location(typ)
        },
    }
}

/// The name of the `n`-th if-branch scope of a frame.
pub open spec fn if_name(n: nat) -> Seq<char> {
    "#If_"@ + dec_str(n)
}

/// The name of the `n`-th else-branch scope of a frame.
pub open spec fn else_name(n: nat) -> Seq<char> {
    "#Else_"@ + dec_str(n)
}

/// The name of the `n`-th for-loop scope of a frame.
pub open spec fn for_name(n: nat) -> Seq<char> {
    "#For_"@ + dec_str(n)
}

/// The name of the `n`-th compound-block scope of a frame.
pub open spec fn compound_name(n: nat) -> Seq<char> {
    "#Compound_"@ + dec_str(n)
}

/// The frame after visiting one statement with the given ambient location.
pub open spec fn build_stmt(f: FrameView, s: Statement, loc: SymbolLocation) -> FrameView
    decreases s,
{
    match s {
        Statement::Expression { expression } => build_expr(f, expression),
        Statement::FunctionStatement { function_name, parameters, statement } => {
            let f1 = declare(f, function_name@, SymbolType::Function, SymbolLocation::Storage);
            let inner = fresh_frame(function_name@, SymbolTableType::Function);
            let inner1 = build_stmts(inner, parameters@, SymbolLocation::Unknown);
            let inner2 = build_block(inner1, *statement, SymbolLocation::Unknown);
            FrameView { children: f1.children.push(seal_frame(inner2)), ..f1 }
        },
        Statement::ContractStatement { contract_name, members } => {
            let f1 = declare(f, contract_name@, SymbolType::Contract, SymbolLocation::Storage);
            let inner = fresh_frame(contract_name@, SymbolTableType::Contract);
            let inner1 = build_stmt(inner, *members, loc);
            FrameView { children: f1.children.push(seal_frame(inner1)), ..f1 }
        },
        Statement::InitializerStatement { variable_type, data_location, variable, default } => {
            let typ = sym_type_of(variable_type);
            let resolved = resolve_location(typ, data_location, loc);
            let f1 = declare(f, variable@, typ, resolved);
            match default {
                Option::Some(e) => build_expr(f1, e),
                Option::None => f1,
            }
        },
        Statement::CompoundStatement { statements, return_value } => {
            let n = f.compounds + 1;
            let inner = fresh_frame(compound_name(n), SymbolTableType::Local);
            let inner1 = build_stmts(inner, statements@, loc);
            let inner2 = match return_value {
                Option::Some(e) => build_expr(inner1, e),
                Option::None => inner1,
            };
            FrameView { compounds: n, children: f.children.push(seal_frame(inner2)), ..f }
        },
        Statement::MemberStatement { statements } => build_stmts(
            f,
            statements@,
            SymbolLocation::Storage,
        ),
    }
}

/// The frame after visiting a sequence of statements, in order.
pub open spec fn build_stmts(f: FrameView, ss: Seq<Statement>, loc: SymbolLocation) -> FrameView
    decreases ss,
{
    if ss.len() == 0 {
        f
    } else {
        build_stmt(build_stmts(f, ss.drop_last(), loc), ss.last(), loc)
    }
}

/// The frame after visiting a block body: a compound statement's inner
/// statements and trailing value, in the current frame; any other
/// statement contributes nothing.
pub open spec fn build_block(f: FrameView, s: Statement, loc: SymbolLocation) -> FrameView
    decreases s,
{
    match s {
        Statement::CompoundStatement { statements, return_value } => {
            let f1 = build_stmts(f, statements@, loc);
            match return_value {
                Option::Some(e) => build_expr(f1, e),
                Option::None => f1,
            }
        },
        _ => f,
    }
}

/// The frame after visiting one expression.
pub open spec fn build_expr(f: FrameView, e: Expression) -> FrameView
    decreases e,
{
    match e {
        Expression::AssignExpression { left, right } => build_expr(build_expr(f, *left), *right),
        Expression::TernaryExpression { condition, expr1, expr2 } => build_expr(
            build_expr(build_expr(f, *condition), *expr1),
            *expr2,
        ),
        Expression::BinaryExpression { left, right } => build_expr(build_expr(f, *left), *right),
        Expression::FunctionCallExpression { function_name, arguments } => build_exprs(
            build_expr(f, *function_name),
            arguments@,
        ),
        Expression::IfExpression { condition, if_statement, else_statement } => {
            let f1 = build_expr(f, *condition);
            let n = f1.ifs + 1;
            let inner = build_block(
                fresh_frame(if_name(n), SymbolTableType::Local),
                *if_statement,
                SymbolLocation::Unknown,
            );
            let f2 = FrameView { ifs: n, children: f1.children.push(seal_frame(inner)), ..f1 };
            match else_statement {
                Option::Some(es) => {
                    let other = build_block(
                        fresh_frame(else_name(n), SymbolTableType::Local),
                        *es,
                        SymbolLocation::Unknown,
                    );
                    FrameView { children: f2.children.push(seal_frame(other)), ..f2 }
                },
                Option::None => f2,
            }
        },
        Expression::ForEachExpression { iterator, vector, statement, else_statement } => {
            let f1 = note_use(f, vector@);
            let n = f1.fors + 1;
            let inner0 = build_expr(fresh_frame(for_name(n), SymbolTableType::Local), *iterator);
            let inner = build_block(inner0, *statement, SymbolLocation::Unknown);
            let f2 = FrameView { fors: n, children: f1.children.push(seal_frame(inner)), ..f1 };
            match else_statement {
                Option::Some(es) => {
                    let other = build_block(
                        fresh_frame(else_name(n), SymbolTableType::Local),
                        *es,
                        SymbolLocation::Unknown,
                    );
                    FrameView { children: f2.children.push(seal_frame(other)), ..f2 }
                },
                Option::None => f2,
            }
        },
        Expression::UnaryExpression { expression } => build_expr(f, *expression),
        Expression::Number { value } => f,
        Expression::Identifier { value } => note_use(f, value@),
    }
}

/// The frame after visiting a sequence of expressions, in order.
pub open spec fn build_exprs(f: FrameView, es: Seq<Expression>) -> FrameView
    decreases es,
{
    if es.len() == 0 {
        f
    } else {
        build_expr(build_exprs(f, es.drop_last()), es.last())
    }
}

/// The scope tree a whole program builds: the global scope, filled by its
/// top-level statements under an ambient memory location.
pub open spec fn build_program(p: Program) -> ScopeView {
    match p {
        Program::GlobalStatements(ss) => seal_frame(
            build_stmts(
                fresh_frame("#Global"@, SymbolTableType::Global),
                ss@,
                SymbolLocation::Memory,
            ),
        ),
    }
}

/// Whether the program is small enough for the per-scope counters.
pub open spec fn program_fits(p: Program) -> bool {
    match p {
        Program::GlobalStatements(ss) => size_stmts(ss@) <= u32::MAX,
    }
}

/// The number of nodes of a statement.
pub open spec fn size_stmt(s: Statement) -> nat
    decreases s,
{
    match s {
        Statement::Expression { expression } => 1 + size_expr(expression),
        Statement::FunctionStatement { function_name, parameters, statement } => 1 + size_stmts(
            parameters@,
        ) + size_stmt(*statement),
        Statement::ContractStatement { contract_name, members } => 1 + size_stmt(*members),
        Statement::InitializerStatement { variable_type, data_location, variable, default } => 1
            + match default {
            Option::Some(e) => size_expr(e),
            Option::None => 0,
        },
        Statement::CompoundStatement { statements, return_value } => 1 + size_stmts(statements@)
            + match return_value {
            Option::Some(e) => size_expr(e),
            Option::None => 0,
        },
        Statement::MemberStatement { statements } => 1 + size_stmts(statements@),
    }
}

/// The number of nodes of a sequence of statements.
pub open spec fn size_stmts(ss: Seq<Statement>) -> nat
    decreases ss,
{
    if ss.len() == 0 {
        0
    } else {
        size_stmts(ss.drop_last()) + size_stmt(ss.last())
    }
}

/// The number of nodes of an expression.
pub open spec fn size_expr(e: Expression) -> nat
    decreases e,
{
    match e {
        Expression::AssignExpression { left, right } => 1 + size_expr(*left) + size_expr(*right),
        Expression::TernaryExpression { condition, expr1, expr2 } => 1 + size_expr(*condition)
            + size_expr(*expr1) + size_expr(*expr2),
        Expression::BinaryExpression { left, right } => 1 + size_expr(*left) + size_expr(*right),
        Expression::FunctionCallExpression { function_name, arguments } => 1 + size_expr(
            *function_name,
        ) + size_exprs(arguments@),
        Expression::IfExpression { condition, if_statement, else_statement } => 1 + size_expr(
            *condition,
        ) + size_stmt(*if_statement) + match else_statement {
            Option::Some(es) => size_stmt(*es),
            Option::None => 0,
        },
        Expression::ForEachExpression { iterator, vector, statement, else_statement } => 1
            + size_expr(*iterator) + size_stmt(*statement) + match else_statement {
            Option::Some(es) => size_stmt(*es),
            Option::None => 0,
        },
        Expression::UnaryExpression { expression } => 1 + size_expr(*expression),
        Expression::Number { value } => 1,
        Expression::Identifier { value } => 1,
    }
}

/// The number of nodes of a sequence of expressions.
pub open spec fn size_exprs(es: Seq<Expression>) -> nat
    decreases es,
{
    if es.len() == 0 {
        0
    } else {
        size_exprs(es.drop_last()) + size_expr(es.last())
    }
}

/// Whether every counter of the frame can still grow by `n` within `u32`.
pub open spec fn counters_room(f: FrameView, n: nat) -> bool {
    &&& f.ifs + n <= u32::MAX
    &&& f.fors + n <= u32::MAX
    &&& f.compounds + n <= u32::MAX
}

/// Visiting a statement grows each counter by at most the statement's size.
pub proof fn lemma_growth_stmt(f: FrameView, s: Statement, loc: SymbolLocation)
    ensures
        build_stmt(f, s, loc).ifs <= f.ifs + size_stmt(s),
        build_stmt(f, s, loc).fors <= f.fors + size_stmt(s),
        build_stmt(f, s, loc).compounds <= f.compounds + size_stmt(s),
    decreases s,
{
    match s {
        Statement::Expression { expression } => {
            lemma_growth_expr(f, expression);
        },
        Statement::FunctionStatement { .. } => {},
        Statement::ContractStatement { .. } => {},
        Statement::InitializerStatement { variable_type, data_location, variable, default } => {
            let typ = sym_type_of(variable_type);
            let resolved = resolve_location(typ, data_location, loc);
            match default {
                Option::Some(e) => {
                    lemma_growth_expr(declare(f, variable@, typ, resolved), e);
                },
                Option::None => {},
            }
        },
        Statement::CompoundStatement { .. } => {},
        Statement::MemberStatement { statements } => {
            lemma_growth_stmts(f, statements@, SymbolLocation::Storage);
        },
    }
}

/// Visiting a sequence of statements grows each counter by at most its size.
pub proof fn lemma_growth_stmts(f: FrameView, ss: Seq<Statement>, loc: SymbolLocation)
    ensures
        build_stmts(f, ss, loc).ifs <= f.ifs + size_stmts(ss),
        build_stmts(f, ss, loc).fors <= f.fors + size_stmts(ss),
        build_stmts(f, ss, loc).compounds <= f.compounds + size_stmts(ss),
    decreases ss,
{
    if ss.len() > 0 {
        lemma_growth_stmts(f, ss.drop_last(), loc);
        lemma_growth_stmt(build_stmts(f, ss.drop_last(), loc), ss.last(), loc);
    }
}

/// Visiting an expression grows each counter by at most its size.
pub proof fn lemma_growth_expr(f: FrameView, e: Expression)
    ensures
        build_expr(f, e).ifs <= f.ifs + size_expr(e),
        build_expr(f, e).fors <= f.fors + size_expr(e),
        build_expr(f, e).compounds <= f.compounds + size_expr(e),
    decreases e,
{
    match e {
        Expression::AssignExpression { left, right } => {
            lemma_growth_expr(f, *left);
            lemma_growth_expr(build_expr(f, *left), *right);
        },
        Expression::TernaryExpression { condition, expr1, expr2 } => {
            lemma_growth_expr(f, *condition);
            lemma_growth_expr(build_expr(f, *condition), *expr1);
            lemma_growth_expr(build_expr(build_expr(f, *condition), *expr1), *expr2);
        },
        Expression::BinaryExpression { left, right } => {
            lemma_growth_expr(f, *left);
            lemma_growth_expr(build_expr(f, *left), *right);
        },
        Expression::FunctionCallExpression { function_name, arguments } => {
            lemma_growth_expr(f, *function_name);
            lemma_growth_exprs(build_expr(f, *function_name), arguments@);
        },
        Expression::IfExpression { condition, if_statement, else_statement } => {
            lemma_growth_expr(f, *condition);
        },
        Expression::ForEachExpression { .. } => {},
        Expression::UnaryExpression { expression } => {
            lemma_growth_expr(f, *expression);
        },
        Expression::Number { .. } => {},
        Expression::Identifier { .. } => {},
    }
}

/// Visiting a sequence of expressions grows each counter by at most its size.
pub proof fn lemma_growth_exprs(f: FrameView, es: Seq<Expression>)
    ensures
        build_exprs(f, es).ifs <= f.ifs + size_exprs(es),
        build_exprs(f, es).fors <= f.fors + size_exprs(es),
        build_exprs(f, es).compounds <= f.compounds + size_exprs(es),
    decreases es,
{
    if es.len() > 0 {
        lemma_growth_exprs(f, es.drop_last());
        lemma_growth_expr(build_exprs(f, es.drop_last()), es.last());
    }
}

/// Visiting a statement never renames or rekinds the frame it fills.
pub proof fn lemma_stmt_keeps_identity(f: FrameView, s: Statement, loc: SymbolLocation)
    ensures
        build_stmt(f, s, loc).name == f.name,
        build_stmt(f, s, loc).kind == f.kind,
    decreases s,
{
    match s {
        Statement::Expression { expression } => {
            lemma_expr_keeps_identity(f, expression);
        },
        Statement::FunctionStatement { .. } => {},
        Statement::ContractStatement { .. } => {},
        Statement::InitializerStatement { variable_type, data_location, variable, default } => {
            let typ = sym_type_of(variable_type);
            let resolved = resolve_location(typ, data_location, loc);
            match default {
                Option::Some(e) => {
                    lemma_expr_keeps_identity(declare(f, variable@, typ, resolved), e);
                },
                Option::None => {},
            }
        },
        Statement::CompoundStatement { .. } => {},
        Statement::MemberStatement { statements } => {
            lemma_stmts_keep_identity(f, statements@, SymbolLocation::Storage);
        },
    }
}

/// Visiting a statement list never renames or rekinds the frame.
pub proof fn lemma_stmts_keep_identity(f: FrameView, ss: Seq<Statement>, loc: SymbolLocation)
    ensures
        build_stmts(f, ss, loc).name == f.name,
        build_stmts(f, ss, loc).kind == f.kind,
    decreases ss,
{
    if ss.len() > 0 {
        lemma_stmts_keep_identity(f, ss.drop_last(), loc);
        lemma_stmt_keeps_identity(build_stmts(f, ss.drop_last(), loc), ss.last(), loc);
    }
}

/// Visiting a block body never renames or rekinds the frame.
pub proof fn lemma_block_keeps_identity(f: FrameView, s: Statement, loc: SymbolLocation)
    ensures
        build_block(f, s, loc).name == f.name,
        build_block(f, s, loc).kind == f.kind,
    decreases s,
{
    match s {
        Statement::CompoundStatement { statements, return_value } => {
            lemma_stmts_keep_identity(f, statements@, loc);
            match return_value {
                Option::Some(e) => {
                    lemma_expr_keeps_identity(build_stmts(f, statements@, loc), e);
                },
                Option::None => {},
            }
        },
        _ => {},
    }
}

/// Visiting an expression never renames or rekinds the frame.
pub proof fn lemma_expr_keeps_identity(f: FrameView, e: Expression)
    ensures
        build_expr(f, e).name == f.name,
        build_expr(f, e).kind == f.kind,
    decreases e,
{
    match e {
        Expression::AssignExpression { left, right } => {
            lemma_expr_keeps_identity(f, *left);
            lemma_expr_keeps_identity(build_expr(f, *left), *right);
        },
        Expression::TernaryExpression { condition, expr1, expr2 } => {
            lemma_expr_keeps_identity(f, *condition);
            lemma_expr_keeps_identity(build_expr(f, *condition), *expr1);
            lemma_expr_keeps_identity(build_expr(build_expr(f, *condition), *expr1), *expr2);
        },
        Expression::BinaryExpression { left, right } => {
            lemma_expr_keeps_identity(f, *left);
            lemma_expr_keeps_identity(build_expr(f, *left), *right);
        },
        Expression::FunctionCallExpression { function_name, arguments } => {
            lemma_expr_keeps_identity(f, *function_name);
            lemma_exprs_keep_identity(build_expr(f, *function_name), arguments@);
        },
        Expression::IfExpression { condition, if_statement, else_statement } => {
            lemma_expr_keeps_identity(f, *condition);
        },
        Expression::ForEachExpression { .. } => {},
        Expression::UnaryExpression { expression } => {
            lemma_expr_keeps_identity(f, *expression);
        },
        Expression::Number { .. } => {},
        Expression::Identifier { .. } => {},
    }
}

/// Visiting an expression list never renames or rekinds the frame.
pub proof fn lemma_exprs_keep_identity(f: FrameView, es: Seq<Expression>)
    ensures
        build_exprs(f, es).name == f.name,
        build_exprs(f, es).kind == f.kind,
    decreases es,
{
    if es.len() > 0 {
        lemma_exprs_keep_identity(f, es.drop_last());
        lemma_expr_keeps_identity(build_exprs(f, es.drop_last()), es.last());
    }
}

/// A prefix of a sequence of statements has at most the sequence's size.
pub proof fn lemma_size_stmts_prefix(ss: Seq<Statement>, i: int)
    requires
        0 <= i <= ss.len(),
    ensures
        size_stmts(ss.take(i)) <= size_stmts(ss),
    decreases ss.len() - i,
{
    if i == ss.len() {
        assert(ss.take(i) =~= ss);
    } else {
        assert(ss.take(i + 1).drop_last() =~= ss.take(i));
        assert(ss.take(i + 1).last() == ss[i]);
        lemma_size_stmts_prefix(ss, i + 1);
    }
}

/// A prefix of a sequence of expressions has at most the sequence's size.
pub proof fn lemma_size_exprs_prefix(es: Seq<Expression>, i: int)
    requires
        0 <= i <= es.len(),
    ensures
        size_exprs(es.take(i)) <= size_exprs(es),
    decreases es.len() - i,
{
    if i == es.len() {
        assert(es.take(i) =~= es);
    } else {
        assert(es.take(i + 1).drop_last() =~= es.take(i));
        assert(es.take(i + 1).last() == es[i]);
        lemma_size_exprs_prefix(es, i + 1);
    }
}

} // verus!
