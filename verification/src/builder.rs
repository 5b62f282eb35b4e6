//! The scope builder: a single top-down traversal of the program that
//! materializes the scope tree, proved to leave exactly the frame that the
//! model in [`crate::model`] describes.

use crate::ast::Expression;
use crate::ast::Program;
use crate::ast::Specifier;
use crate::ast::Statement;
use crate::ast::Type;
use crate::model::build_block;
use crate::model::build_expr;
use crate::model::build_exprs;
use crate::model::build_program;
use crate::model::build_stmt;
use crate::model::build_stmts;
use crate::model::counters_room;
use crate::model::declare;
use crate::model::fresh_frame;
use crate::model::insert_entry;
use crate::model::lemma_growth_expr;
use crate::model::lemma_growth_exprs;
use crate::model::lemma_growth_stmts;
use crate::model::lemma_size_exprs_prefix;
use crate::model::lemma_size_stmts_prefix;
use crate::model::note_use;
use crate::model::program_fits;
use crate::model::resolve_location;
use crate::model::seal_frame;
use crate::model::size_expr;
use crate::model::size_exprs;
use crate::model::size_stmt;
use crate::model::size_stmts;
use crate::model::sym_type_of;
use crate::model::FrameView;
use crate::names::scope_name;
use crate::ordmap::map_entries;
use crate::ordmap::map_get;
use crate::ordmap::map_insert;
use crate::ordmap::map_new;
use crate::symbols::Symbol;
use crate::symbols::SymbolLocation;
use crate::symbols::SymbolTableType;
use crate::symbols::SymbolType;
use crate::symbols::SymbolUsage;
use crate::symbols::SymbolView;
use crate::table::lemma_tables_view_push;
use crate::table::table_view;
use crate::table::tables_view;
use crate::table::SymbolTable;
use crate::type_default_location;
use vstd::prelude::*;

verus! {

/// The scope currently being filled, with one counter per kind of
/// synthetic scope.
pub struct Frame {
    pub table: SymbolTable,
    pub ifs: u32,
    pub fors: u32,
    pub compounds: u32,
}

/// The frame's mathematical value.
pub open spec fn frame_view(f: Frame) -> FrameView {
    FrameView {
        name: f.table.name@,
        kind: f.table.table_type,
        symbols: map_entries(f.table.symbols),
        children: tables_view(f.table.sub_tables@),
        ifs: f.ifs as nat,
        fors: f.fors as nat,
        compounds: f.compounds as nat,
    }
}

/// Opens a scope: an empty frame with every counter at zero.
fn new_frame(name: String, kind: SymbolTableType) -> (f: Frame)
    ensures
        frame_view(f) == fresh_frame(name@, kind),
{
    let f = Frame {
        table: SymbolTable {
            name,
            table_type: kind,
            symbols: map_new(),
            sub_tables: Vec::new(),
        },
        ifs: 0,
        fors: 0,
        compounds: 0,
    };
    proof {
        assert(frame_view(f) =~= fresh_frame(f.table.name@, kind));
    }
    f
}

/// Seals a finished child scope and attaches it to its parent.
fn attach_child(f: &mut Frame, child: Frame)
    ensures
        frame_view(*final(f)) == (FrameView {
            children: frame_view(*old(f)).children.push(seal_frame(frame_view(child))),
            ..frame_view(*old(f))
        }),
{
    let ghost before = old(f).table.sub_tables@;
    let ghost child_table = child.table;
    f.table.sub_tables.push(child.table);
    proof {
        lemma_tables_view_push(before, child_table);
        assert(seal_frame(frame_view(child)) =~= table_view(child_table));
        assert(frame_view(*f) =~= FrameView {
            children: frame_view(*old(f)).children.push(seal_frame(frame_view(child))),
            ..frame_view(*old(f))
        });
    }
}

/// Registers a symbol in the current scope's map.
fn put_symbol(
    f: &mut Frame,
    name: String,
    role: SymbolUsage,
    typ: SymbolType,
    loc: SymbolLocation,
)
    ensures
        frame_view(*final(f)) == (FrameView {
            symbols: insert_entry(
                frame_view(*old(f)).symbols,
                name@,
                SymbolView { name: name@, symbol_type: typ, data_location: loc, role },
            ),
            ..frame_view(*old(f))
        }),
{
    let symbol = Symbol::new(name.clone(), role, typ, loc);
    proof {
        crate::ordmap::lemma_entry_index(map_entries(f.table.symbols), name@);
    }
    map_insert(&mut f.table.symbols, name, symbol);
    proof {
        assert(frame_view(*f) =~= FrameView {
            symbols: insert_entry(
                frame_view(*old(f)).symbols,
                symbol@.name,
                symbol@,
            ),
            ..frame_view(*old(f))
        });
    }
}

/// Records an identifier reference: the first registration of a name in a
/// scope wins.
fn check_identifier(f: &mut Frame, name: &String)
    ensures
        frame_view(*final(f)) == note_use(frame_view(*old(f)), name@),
{
    proof {
        crate::ordmap::lemma_entry_index(map_entries(f.table.symbols), name@);
    }
    let present = map_get(&f.table.symbols, name).is_some();
    if !present {
        let symbol = Symbol::new(
            name.clone(),
            SymbolUsage::Used,
            SymbolType::Unknown,
            SymbolLocation::Unknown,
        );
        map_insert(&mut f.table.symbols, name.clone(), symbol);
        proof {
            assert(frame_view(*f) =~= note_use(frame_view(*old(f)), name@));
        }
    }
}

/// The type tag for a declared variable's written type.
fn symbol_type_for(typ: &Type) -> (r: SymbolType)
    ensures
        r == sym_type_of(*typ),
{
    match typ {
        Type::String => SymbolType::String,
        Type::Uint256 => SymbolType::Uint256,
        Type::Int256 => SymbolType::Int256,
        Type::Bytes32 => SymbolType::Bytes32,
        Type::Bool => SymbolType::Bool,
        Type::Bytes => SymbolType::Bytes,
        Type::Address => SymbolType::Address,
    }
}

/// The per-type fallback data location.
fn default_location(typ: SymbolType) -> (r: SymbolLocation)
    ensures
        r == type_default_location(typ),
{
    match typ {
        SymbolType::Unknown => SymbolLocation::Unknown,
        SymbolType::Contract => SymbolLocation::Storage,
        SymbolType::Function => SymbolLocation::Storage,
        SymbolType::Uint256 => SymbolLocation::Memory,
        SymbolType::Int256 => SymbolLocation::Memory,
        SymbolType::String => SymbolLocation::Storage,
        SymbolType::Address => SymbolLocation::Memory,
        SymbolType::Bytes32 => SymbolLocation::Storage,
        SymbolType::Bytes => SymbolLocation::Storage,
        SymbolType::Bool => SymbolLocation::Memory,
    }
}

/// Registers a variable declaration, resolving its data location from the
/// handed-down location or the type's default.
fn register_identifier(f: &mut Frame, variable: &String, typ: &Type, loc: &SymbolLocation)
    ensures
        frame_view(*final(f)) == declare(
            frame_view(*old(f)),
            variable@,
            sym_type_of(*typ),
            if *loc != SymbolLocation::Unknown {
                *loc
            } else {
                type_default_location(sym_type_of(*typ))
            },
        ),
{
    let symbol_type = symbol_type_for(typ);
    let data_location = if *loc != SymbolLocation::Unknown {
        *loc
    } else {
        default_location(symbol_type)
    };
    put_symbol(f, variable.clone(), SymbolUsage::Declared, symbol_type, data_location);
}

/// Visits one statement under the given ambient location.
fn enter_statement(f: &mut Frame, s: &Statement, loc: &SymbolLocation)
    requires
        counters_room(frame_view(*old(f)), size_stmt(*s)),
    ensures
        frame_view(*final(f)) == build_stmt(frame_view(*old(f)), *s, *loc),
    decreases *s,
{
    let ghost f0 = frame_view(*f);
    match s {
        Statement::Expression { expression } => {
            enter_expression(f, expression);
        },
        Statement::FunctionStatement { function_name, parameters, statement } => {
            put_symbol(
                f,
                function_name.clone(),
                SymbolUsage::Declared,
                SymbolType::Function,
                SymbolLocation::Storage,
            );
            let mut child = new_frame(function_name.clone(), SymbolTableType::Function);
            enter_statements(&mut child, parameters, &SymbolLocation::Unknown);
            proof {
                lemma_growth_stmts(
                    fresh_frame(function_name@, SymbolTableType::Function),
                    parameters@,
                    SymbolLocation::Unknown,
                );
            }
            enter_block(&mut child, &**statement, &SymbolLocation::Unknown);
            attach_child(f, child);
            proof {
                assert(frame_view(*f) =~= build_stmt(f0, *s, *loc));
            }
        },
        Statement::ContractStatement { contract_name, members } => {
            put_symbol(
                f,
                contract_name.clone(),
                SymbolUsage::Declared,
                SymbolType::Contract,
                SymbolLocation::Storage,
            );
            let mut child = new_frame(contract_name.clone(), SymbolTableType::Contract);
            enter_statement(&mut child, &**members, loc);
            attach_child(f, child);
            proof {
                assert(frame_view(*f) =~= build_stmt(f0, *s, *loc));
            }
        },
        Statement::InitializerStatement { variable_type, data_location, variable, default } => {
            match data_location {
                Option::Some(specifier) => {
                    let explicit = match specifier {
                        Specifier::Storage => SymbolLocation::Storage,
                        Specifier::Memory => SymbolLocation::Memory,
                    };
                    register_identifier(f, variable, variable_type, &explicit);
                },
                Option::None => {
                    register_identifier(f, variable, variable_type, loc);
                },
            }
            proof {
                assert(frame_view(*f) == declare(
                    f0,
                    variable@,
                    sym_type_of(*variable_type),
                    resolve_location(sym_type_of(*variable_type), *data_location, *loc),
                ));
            }
            match default {
                Option::Some(e) => {
                    enter_expression(f, e);
                },
                Option::None => {},
            }
        },
        Statement::CompoundStatement { statements, return_value } => {
            let number = bump_compound_counter(f);
            let name = scope_name("#Compound_", number);
            let mut child = new_frame(name, SymbolTableType::Local);
            enter_statements(&mut child, statements, loc);
            match return_value {
                Option::Some(e) => {
                    proof {
                        lemma_growth_stmts(
                            fresh_frame(
                                crate::model::compound_name(number as nat),
                                SymbolTableType::Local,
                            ),
                            statements@,
                            *loc,
                        );
                    }
                    enter_expression(&mut child, e);
                },
                Option::None => {},
            }
            attach_child(f, child);
            proof {
                assert(frame_view(*f) =~= build_stmt(f0, *s, *loc));
            }
        },
        Statement::MemberStatement { statements } => {
            enter_statements(f, statements, &SymbolLocation::Storage);
        },
    }
}

/// Bumps the compound counter and hands back the new value.
fn bump_compound_counter(f: &mut Frame) -> (n: u32)
    requires
        frame_view(*old(f)).compounds < u32::MAX,
    ensures
        frame_view(*final(f)) == (FrameView {
            compounds: frame_view(*old(f)).compounds + 1,
            ..frame_view(*old(f))
        }),
        n == frame_view(*old(f)).compounds + 1,
{
    f.compounds = f.compounds + 1;
    f.compounds
}

/// Visits each statement of a list, in order.
fn enter_statements(f: &mut Frame, ss: &Vec<Statement>, loc: &SymbolLocation)
    requires
        counters_room(frame_view(*old(f)), size_stmts(ss@)),
    ensures
        frame_view(*final(f)) == build_stmts(frame_view(*old(f)), ss@, *loc),
    decreases ss@,
{
    let ghost f0 = frame_view(*f);
    let n = ss.len();
    for i in 0..n
        invariant
            n == ss.len(),
            counters_room(f0, size_stmts(ss@)),
            frame_view(*f) == build_stmts(f0, ss@.take(i as int), *loc),
    {
        proof {
            lemma_size_stmts_prefix(ss@, (i + 1) as int);
            assert(ss@.take((i + 1) as int).drop_last() =~= ss@.take(i as int));
            assert(ss@.take((i + 1) as int).last() == ss@[i as int]);
            lemma_growth_stmts(f0, ss@.take(i as int), *loc);
        }
        enter_statement(f, &ss[i], loc);
        proof {
            assert(frame_view(*f) == build_stmts(f0, ss@.take((i + 1) as int), *loc));
        }
    }
    proof {
        assert(ss@.take(n as int) =~= ss@);
    }
}

/// Visits a block body: the statements and trailing value of a compound
/// statement, in the current scope.
fn enter_block(f: &mut Frame, s: &Statement, loc: &SymbolLocation)
    requires
        counters_room(frame_view(*old(f)), size_stmt(*s)),
    ensures
        frame_view(*final(f)) == build_block(frame_view(*old(f)), *s, *loc),
    decreases *s,
{
    let ghost f0 = frame_view(*f);
    match s {
        Statement::CompoundStatement { statements, return_value } => {
            enter_statements(f, statements, loc);
            match return_value {
                Option::Some(e) => {
                    proof {
                        lemma_growth_stmts(f0, statements@, *loc);
                    }
                    enter_expression(f, e);
                },
                Option::None => {},
            }
        },
        _ => {},
    }
}

/// Visits one expression, recording identifier references and opening
/// branch and loop scopes.
fn enter_expression(f: &mut Frame, e: &Expression)
    requires
        counters_room(frame_view(*old(f)), size_expr(*e)),
    ensures
        frame_view(*final(f)) == build_expr(frame_view(*old(f)), *e),
    decreases *e,
{
    let ghost f0 = frame_view(*f);
    match e {
        Expression::AssignExpression { left, right } => {
            enter_expression(f, &**left);
            proof {
                lemma_growth_expr(f0, **left);
            }
            enter_expression(f, &**right);
        },
        Expression::TernaryExpression { condition, expr1, expr2 } => {
            enter_expression(f, &**condition);
            proof {
                lemma_growth_expr(f0, **condition);
            }
            enter_expression(f, &**expr1);
            proof {
                lemma_growth_expr(build_expr(f0, **condition), **expr1);
            }
            enter_expression(f, &**expr2);
        },
        Expression::BinaryExpression { left, right } => {
            enter_expression(f, &**left);
            proof {
                lemma_growth_expr(f0, **left);
            }
            enter_expression(f, &**right);
        },
        Expression::FunctionCallExpression { function_name, arguments } => {
            enter_expression(f, &**function_name);
            proof {
                lemma_growth_expr(f0, **function_name);
            }
            enter_expressions(f, arguments);
        },
        Expression::IfExpression { condition, if_statement, else_statement } => {
            enter_expression(f, &**condition);
            proof {
                lemma_growth_expr(f0, **condition);
            }
            let number = f.ifs + 1;
            let name = scope_name("#If_", number);
            let mut child = new_frame(name, SymbolTableType::Local);
            enter_block(&mut child, &**if_statement, &SymbolLocation::Unknown);
            f.ifs = number;
            attach_child(f, child);
            match else_statement {
                Option::Some(es) => {
                    let else_nm = scope_name("#Else_", number);
                    let mut other = new_frame(else_nm, SymbolTableType::Local);
                    enter_block(&mut other, &**es, &SymbolLocation::Unknown);
                    attach_child(f, other);
                },
                Option::None => {},
            }
            proof {
                assert(frame_view(*f) =~= build_expr(f0, *e));
            }
        },
        Expression::ForEachExpression { iterator, vector, statement, else_statement } => {
            check_identifier(f, vector);
            let number = f.fors + 1;
            let name = scope_name("#For_", number);
            let mut child = new_frame(name, SymbolTableType::Local);
            enter_expression(&mut child, &**iterator);
            proof {
                lemma_growth_expr(
                    fresh_frame(crate::model::for_name(number as nat), SymbolTableType::Local),
                    **iterator,
                );
            }
            enter_block(&mut child, &**statement, &SymbolLocation::Unknown);
            f.fors = number;
            attach_child(f, child);
            match else_statement {
                Option::Some(es) => {
                    let else_nm = scope_name("#Else_", number);
                    let mut other = new_frame(else_nm, SymbolTableType::Local);
                    enter_block(&mut other, &**es, &SymbolLocation::Unknown);
                    attach_child(f, other);
                },
                Option::None => {},
            }
            proof {
                assert(frame_view(*f) =~= build_expr(f0, *e));
            }
        },
        Expression::UnaryExpression { expression } => {
            enter_expression(f, &**expression);
        },
        Expression::Number { .. } => {},
        Expression::Identifier { value } => {
            check_identifier(f, value);
        },
    }
}

/// Visits each expression of an argument list, in order.
fn enter_expressions(f: &mut Frame, es: &Vec<Expression>)
    requires
        counters_room(frame_view(*old(f)), size_exprs(es@)),
    ensures
        frame_view(*final(f)) == build_exprs(frame_view(*old(f)), es@),
    decreases es@,
{
    let ghost f0 = frame_view(*f);
    let n = es.len();
    for i in 0..n
        invariant
            n == es.len(),
            counters_room(f0, size_exprs(es@)),
            frame_view(*f) == build_exprs(f0, es@.take(i as int)),
    {
        proof {
            lemma_size_exprs_prefix(es@, (i + 1) as int);
            assert(es@.take((i + 1) as int).drop_last() =~= es@.take(i as int));
            assert(es@.take((i + 1) as int).last() == es@[i as int]);
            lemma_growth_exprs(f0, es@.take(i as int));
        }
        enter_expression(f, &es[i]);
        proof {
            assert(frame_view(*f) == build_exprs(f0, es@.take((i + 1) as int)));
        }
    }
    proof {
        assert(es@.take(n as int) =~= es@);
    }
}

/// Builds the scope tree of a whole program.
pub(crate) fn build_tables(program: &Program) -> (t: SymbolTable)
    requires
        program_fits(*program),
    ensures
        table_view(t) == build_program(*program),
{
    let mut frame = new_frame("#Global".to_owned(), SymbolTableType::Global);
    match program {
        Program::GlobalStatements(statements) => {
            enter_statements(&mut frame, statements, &SymbolLocation::Memory);
        },
    }
    proof {
        assert(table_view(frame.table) =~= build_program(*program));
    }
    frame.table
}

} // verus!
