use symtab::ast::Expression;
use symtab::ast::Program;
use symtab::ast::Specifier;
use symtab::ast::Statement;
use symtab::ast::Type;
use symtab::make_symbol_tables;
use symtab::Location;
use symtab::Symbol;
use symtab::SymbolLocation;
use symtab::SymbolTable;
use symtab::SymbolTableType;
use symtab::SymbolType;
use symtab::SymbolUsage;

fn ident(name: &str) -> Expression {
    Expression::Identifier { value: String::from(name) }
}

fn num(value: u128) -> Expression {
    Expression::Number { value }
}

fn expr_stmt(expression: Expression) -> Statement {
    Statement::Expression { expression }
}

fn assign(left: Expression, right: Expression) -> Expression {
    Expression::AssignExpression { left: Box::new(left), right: Box::new(right) }
}

fn binary(left: Expression, right: Expression) -> Expression {
    Expression::BinaryExpression { left: Box::new(left), right: Box::new(right) }
}

fn init(typ: Type, qualifier: Option<Specifier>, name: &str, default: Option<Expression>) -> Statement {
    Statement::InitializerStatement {
        variable_type: typ,
        data_location: qualifier,
        variable: String::from(name),
        default,
    }
}

fn block(statements: Vec<Statement>) -> Statement {
    Statement::CompoundStatement { statements, return_value: None }
}

fn if_stmt(condition: Expression, then_body: Vec<Statement>, else_body: Option<Vec<Statement>>) -> Statement {
    expr_stmt(Expression::IfExpression {
        condition: Box::new(condition),
        if_statement: Box::new(block(then_body)),
        else_statement: else_body.map(|b| Box::new(block(b))),
    })
}

fn func(name: &str, parameters: Vec<Statement>, body: Vec<Statement>) -> Statement {
    Statement::FunctionStatement {
        function_name: String::from(name),
        parameters,
        statement: Box::new(block(body)),
    }
}

fn contract(name: &str, members: Vec<Statement>) -> Statement {
    Statement::ContractStatement {
        contract_name: String::from(name),
        members: Box::new(Statement::MemberStatement { statements: members }),
    }
}

fn program(statements: Vec<Statement>) -> Program {
    Program::GlobalStatements(statements)
}

fn symbol(name: &str, role: SymbolUsage, typ: SymbolType, loc: SymbolLocation) -> Symbol {
    Symbol::new(String::from(name), role, typ, loc)
}

fn error_message(result: Result<SymbolTable, symtab::SymbolTableError>) -> String {
    match result {
        Ok(_) => panic!("expected a validation error"),
        Err(e) => {
            assert_eq!(e.location, Location { row: 0, column: 0 });
            e.error
        }
    }
}

#[test]
fn scenario_global_use_without_declaration() {
    // `uint256 x = 3; y;` at global scope: the analyzer rejects `y`.
    let p = program(vec![
        init(Type::Uint256, None, "x", Some(num(3))),
        expr_stmt(ident("y")),
    ]);
    let message = error_message(make_symbol_tables(&p));
    assert_eq!(message, "Variable y is not declared, but used.");
}

#[test]
fn scenario_global_declaration_symbols() {
    // The builder half of the same program: `x` is declared at global
    // scope with the ambient memory location; a second program keeps the
    // unresolved `y` out so that the tree survives validation.
    let p = program(vec![init(Type::Uint256, None, "x", Some(num(3)))]);
    let table = make_symbol_tables(&p).unwrap();
    assert_eq!(table.name, "#Global");
    assert!(table.table_type == SymbolTableType::Global);
    assert_eq!(table.symbols.len(), 1);
    assert_eq!(
        table.symbols.get("x").unwrap(),
        &symbol("x", SymbolUsage::Declared, SymbolType::Uint256, SymbolLocation::Memory)
    );
    assert!(table.sub_tables.is_empty());
}

fn contract_with_branches(declare_x: bool) -> Program {
    let mut body = vec![init(Type::Uint256, None, "a", None)];
    if declare_x {
        body.push(init(Type::Uint256, None, "x", None));
    }
    body.push(if_stmt(
        binary(ident("a"), num(2)),
        vec![expr_stmt(assign(ident("x"), num(1)))],
        Some(vec![expr_stmt(assign(ident("x"), num(2)))]),
    ));
    program(vec![contract("C", vec![func("f", vec![], body)])])
}

#[test]
fn scenario_contract_function_branches_validate() {
    // `contract C { function f() { if (a < 2) { x = 1; } else { x = 2; } } }`
    // with `a` and `x` declared at function scope before the `if`.
    let table = make_symbol_tables(&contract_with_branches(true)).unwrap();
    assert_eq!(table.name, "#Global");
    assert_eq!(
        table.symbols.get("C").unwrap(),
        &symbol("C", SymbolUsage::Declared, SymbolType::Contract, SymbolLocation::Storage)
    );
    assert_eq!(table.sub_tables.len(), 1);
    let c = &table.sub_tables[0];
    assert_eq!(c.name, "C");
    assert!(c.table_type == SymbolTableType::Contract);
    assert_eq!(
        c.symbols.get("f").unwrap(),
        &symbol("f", SymbolUsage::Declared, SymbolType::Function, SymbolLocation::Storage)
    );
    assert_eq!(c.sub_tables.len(), 1);
    let f = &c.sub_tables[0];
    assert_eq!(f.name, "f");
    assert!(f.table_type == SymbolTableType::Function);
    assert_eq!(
        f.symbols.get("a").unwrap(),
        &symbol("a", SymbolUsage::Declared, SymbolType::Uint256, SymbolLocation::Memory)
    );
    assert_eq!(
        f.symbols.get("x").unwrap(),
        &symbol("x", SymbolUsage::Declared, SymbolType::Uint256, SymbolLocation::Memory)
    );
    assert_eq!(f.sub_tables.len(), 2);
    assert_eq!(f.sub_tables[0].name, "#If_1");
    assert!(f.sub_tables[0].table_type == SymbolTableType::Local);
    assert_eq!(f.sub_tables[1].name, "#Else_1");
    assert!(f.sub_tables[1].table_type == SymbolTableType::Local);
    // The branch bodies reference `x`, which each branch records as a use.
    assert_eq!(
        f.sub_tables[0].symbols.get("x").unwrap(),
        &symbol("x", SymbolUsage::Used, SymbolType::Unknown, SymbolLocation::Unknown)
    );
}

#[test]
fn scenario_contract_function_branches_missing_declaration() {
    // The same program without `x` declared anywhere fails on `x`.
    let message = error_message(make_symbol_tables(&contract_with_branches(false)));
    assert_eq!(message, "Variable x is not declared, but used.");
}

#[test]
fn resolves_through_enclosing_scopes() {
    // A use deep inside a contract resolves to a global declaration.
    let p = program(vec![
        init(Type::Uint256, None, "x", None),
        contract("C", vec![func("f", vec![], vec![expr_stmt(assign(ident("x"), num(1)))])]),
    ]);
    let table = make_symbol_tables(&p).unwrap();
    let f = &table.sub_tables[0].sub_tables[0];
    assert_eq!(
        f.symbols.get("x").unwrap(),
        &symbol("x", SymbolUsage::Used, SymbolType::Unknown, SymbolLocation::Unknown)
    );
}

#[test]
fn use_without_any_declaration_fails() {
    let p = program(vec![contract(
        "C",
        vec![func("f", vec![], vec![expr_stmt(ident("y"))])],
    )]);
    let message = error_message(make_symbol_tables(&p));
    assert_eq!(message, "Variable y is not declared, but used.");
}

#[test]
fn sibling_branch_declaration_does_not_resolve() {
    // Declaring `a` only inside the if-branch leaves the else-branch's
    // reference to `a` unresolved.
    let p = program(vec![contract(
        "C",
        vec![func(
            "f",
            vec![],
            vec![if_stmt(
                num(1),
                vec![init(Type::Uint256, None, "a", Some(num(1)))],
                Some(vec![expr_stmt(ident("a"))]),
            )],
        )],
    )]);
    let message = error_message(make_symbol_tables(&p));
    assert_eq!(message, "Variable a is not declared, but used.");
}

#[test]
fn used_entry_in_ancestor_does_not_resolve() {
    // `y` is referenced at global scope, which records a `Used` entry
    // there; a nested reference to `y` still fails, because only a
    // `Declared` ancestor entry resolves a use.
    let p = program(vec![
        expr_stmt(ident("y")),
        contract("C", vec![func("f", vec![], vec![expr_stmt(ident("y"))])]),
    ]);
    let message = error_message(make_symbol_tables(&p));
    assert_eq!(message, "Variable y is not declared, but used.");
}

#[test]
fn sequential_ifs_numbered_within_scope() {
    // Two sequential ifs in one function scope are `#If_1` and `#If_2`;
    // a function in a sibling contract restarts its own counter.
    let p = program(vec![
        contract(
            "C",
            vec![func(
                "f",
                vec![],
                vec![if_stmt(num(1), vec![], None), if_stmt(num(2), vec![], None)],
            )],
        ),
        contract("D", vec![func("g", vec![], vec![if_stmt(num(3), vec![], None)])]),
    ]);
    let table = make_symbol_tables(&p).unwrap();
    let f = &table.sub_tables[0].sub_tables[0];
    assert_eq!(f.sub_tables.len(), 2);
    assert_eq!(f.sub_tables[0].name, "#If_1");
    assert_eq!(f.sub_tables[1].name, "#If_2");
    let g = &table.sub_tables[1].sub_tables[0];
    assert_eq!(g.sub_tables.len(), 1);
    assert_eq!(g.sub_tables[0].name, "#If_1");
}

#[test]
fn if_numbers_reach_two_digits() {
    let mut body = Vec::new();
    for i in 0..12 {
        body.push(if_stmt(num(i as u128), vec![], None));
    }
    let p = program(vec![func("f", vec![], body)]);
    let table = make_symbol_tables(&p).unwrap();
    let f = &table.sub_tables[0];
    assert_eq!(f.sub_tables.len(), 12);
    assert_eq!(f.sub_tables[9].name, "#If_10");
    assert_eq!(f.sub_tables[11].name, "#If_12");
}

#[test]
fn unqualified_declarations_take_type_defaults() {
    // At function scope the ambient location is unknown, so `uint256`
    // falls back to memory and `string` to storage.
    let p = program(vec![func(
        "f",
        vec![],
        vec![
            init(Type::Uint256, None, "x", None),
            init(Type::String, None, "s", None),
            init(Type::Bool, None, "b", None),
            init(Type::Bytes32, None, "h", None),
        ],
    )]);
    let table = make_symbol_tables(&p).unwrap();
    let f = &table.sub_tables[0];
    assert_eq!(
        f.symbols.get("x").unwrap(),
        &symbol("x", SymbolUsage::Declared, SymbolType::Uint256, SymbolLocation::Memory)
    );
    assert_eq!(
        f.symbols.get("s").unwrap(),
        &symbol("s", SymbolUsage::Declared, SymbolType::String, SymbolLocation::Storage)
    );
    assert_eq!(
        f.symbols.get("b").unwrap(),
        &symbol("b", SymbolUsage::Declared, SymbolType::Bool, SymbolLocation::Memory)
    );
    assert_eq!(
        f.symbols.get("h").unwrap(),
        &symbol("h", SymbolUsage::Declared, SymbolType::Bytes32, SymbolLocation::Storage)
    );
}

#[test]
fn explicit_qualifier_wins_over_defaults() {
    let p = program(vec![func(
        "f",
        vec![],
        vec![
            init(Type::Uint256, Some(Specifier::Storage), "x", None),
            init(Type::String, Some(Specifier::Memory), "s", None),
        ],
    )]);
    let table = make_symbol_tables(&p).unwrap();
    let f = &table.sub_tables[0];
    assert_eq!(
        f.symbols.get("x").unwrap(),
        &symbol("x", SymbolUsage::Declared, SymbolType::Uint256, SymbolLocation::Storage)
    );
    assert_eq!(
        f.symbols.get("s").unwrap(),
        &symbol("s", SymbolUsage::Declared, SymbolType::String, SymbolLocation::Memory)
    );
}

#[test]
fn contract_members_declared_in_storage() {
    // Contract members are visited with an ambient storage location.
    let p = program(vec![contract("C", vec![init(Type::Uint256, None, "x", None)])]);
    let table = make_symbol_tables(&p).unwrap();
    let c = &table.sub_tables[0];
    assert_eq!(
        c.symbols.get("x").unwrap(),
        &symbol("x", SymbolUsage::Declared, SymbolType::Uint256, SymbolLocation::Storage)
    );
}

#[test]
fn compound_blocks_open_numbered_scopes() {
    // A `{ ... }` statement opens `#Compound_<n>`, and the ambient
    // location of the enclosing construct is handed down into it.
    let p = program(vec![
        block(vec![init(Type::Uint256, None, "q", None)]),
        block(vec![]),
    ]);
    let table = make_symbol_tables(&p).unwrap();
    assert_eq!(table.sub_tables.len(), 2);
    let b = &table.sub_tables[0];
    assert_eq!(b.name, "#Compound_1");
    assert!(b.table_type == SymbolTableType::Local);
    assert_eq!(
        b.symbols.get("q").unwrap(),
        &symbol("q", SymbolUsage::Declared, SymbolType::Uint256, SymbolLocation::Memory)
    );
    assert_eq!(table.sub_tables[1].name, "#Compound_2");
}

#[test]
fn for_each_scopes_and_loop_subject() {
    // The iterated collection is recorded as a use in the enclosing
    // scope; the loop opens `#For_1`, and its else-branch `#Else_1`.
    let p = program(vec![func(
        "f",
        vec![],
        vec![
            init(Type::Bytes, None, "xs", None),
            init(Type::Uint256, None, "i", None),
            expr_stmt(Expression::ForEachExpression {
                iterator: Box::new(ident("i")),
                vector: String::from("xs"),
                statement: Box::new(block(vec![])),
                else_statement: Some(Box::new(block(vec![]))),
            }),
        ],
    )]);
    let table = make_symbol_tables(&p).unwrap();
    let f = &table.sub_tables[0];
    assert_eq!(
        f.symbols.get("xs").unwrap(),
        &symbol("xs", SymbolUsage::Declared, SymbolType::Bytes, SymbolLocation::Storage)
    );
    assert_eq!(f.sub_tables.len(), 2);
    assert_eq!(f.sub_tables[0].name, "#For_1");
    assert_eq!(f.sub_tables[1].name, "#Else_1");
    assert_eq!(
        f.sub_tables[0].symbols.get("i").unwrap(),
        &symbol("i", SymbolUsage::Used, SymbolType::Unknown, SymbolLocation::Unknown)
    );
}

#[test]
fn parameters_declared_in_function_scope() {
    let p = program(vec![func(
        "bar",
        vec![init(Type::Uint256, None, "a", None)],
        vec![expr_stmt(Expression::TernaryExpression {
            condition: Box::new(ident("a")),
            expr1: Box::new(Expression::UnaryExpression { expression: Box::new(ident("a")) }),
            expr2: Box::new(Expression::FunctionCallExpression {
                function_name: Box::new(ident("bar")),
                arguments: vec![ident("a"), num(7)],
            }),
        })],
    )]);
    let table = make_symbol_tables(&p).unwrap();
    let bar = &table.sub_tables[0];
    assert_eq!(bar.name, "bar");
    assert_eq!(
        bar.symbols.get("a").unwrap(),
        &symbol("a", SymbolUsage::Declared, SymbolType::Uint256, SymbolLocation::Memory)
    );
    // The call target `bar` is a use that resolves to the global function
    // declaration.
    assert_eq!(
        bar.symbols.get("bar").unwrap(),
        &symbol("bar", SymbolUsage::Used, SymbolType::Unknown, SymbolLocation::Unknown)
    );
}

#[test]
fn deepest_first_error_wins() {
    // Both the nested function body and the global scope hold an
    // unresolved use; validation is deepest-first, so the nested one is
    // the error reported.
    let p = program(vec![
        func("f", vec![], vec![expr_stmt(ident("deep"))]),
        expr_stmt(ident("shallow")),
    ]);
    let message = error_message(make_symbol_tables(&p));
    assert_eq!(message, "Variable deep is not declared, but used.");
}

#[test]
fn first_use_in_scope_wins() {
    // A name referenced twice in one scope gets a single entry, and a
    // reference before a declaration leaves the `Used` entry in place.
    let p = program(vec![
        init(Type::Uint256, None, "x", None),
        func(
            "f",
            vec![],
            vec![
                expr_stmt(ident("x")),
                init(Type::Uint256, None, "x", None),
                expr_stmt(ident("x")),
            ],
        ),
    ]);
    let table = make_symbol_tables(&p).unwrap();
    let f = &table.sub_tables[0];
    assert_eq!(f.symbols.len(), 1);
    // The declaration overwrites the record but the entry keeps its place.
    assert_eq!(
        f.symbols.get("x").unwrap(),
        &symbol("x", SymbolUsage::Declared, SymbolType::Uint256, SymbolLocation::Memory)
    );
}

#[test]
fn empty_program_builds_empty_global_scope() {
    let table = make_symbol_tables(&program(vec![])).unwrap();
    assert_eq!(table.name, "#Global");
    assert!(table.table_type == SymbolTableType::Global);
    assert_eq!(table.symbols.len(), 0);
    assert!(table.sub_tables.is_empty());
}

#[test]
fn compound_trailing_value_is_visited_inside_the_block() {
    // `{ q }` records the trailing value's identifier inside the block's
    // own scope.
    let p = program(vec![
        init(Type::Uint256, None, "q", None),
        Statement::CompoundStatement {
            statements: vec![],
            return_value: Some(ident("q")),
        },
    ]);
    let table = make_symbol_tables(&p).unwrap();
    let b = &table.sub_tables[0];
    assert_eq!(b.name, "#Compound_1");
    assert_eq!(
        b.symbols.get("q").unwrap(),
        &symbol("q", SymbolUsage::Used, SymbolType::Unknown, SymbolLocation::Unknown)
    );
}

#[test]
fn compound_numbering_is_per_scope() {
    // A block nested inside another block numbers its own children from
    // one again: the outer block is `#Compound_1` at global scope, and
    // the inner one `#Compound_1` within the outer scope.
    let p = program(vec![block(vec![block(vec![])])]);
    let table = make_symbol_tables(&p).unwrap();
    let outer = &table.sub_tables[0];
    assert_eq!(outer.name, "#Compound_1");
    assert_eq!(outer.sub_tables.len(), 1);
    assert_eq!(outer.sub_tables[0].name, "#Compound_1");
}

#[test]
fn symbol_order_is_registration_order() {
    let p = program(vec![
        init(Type::Uint256, None, "b", None),
        init(Type::Uint256, None, "a", None),
        expr_stmt(ident("b")),
    ]);
    let table = make_symbol_tables(&p).unwrap();
    let names: Vec<&String> = table.symbols.keys().collect();
    assert_eq!(names, vec!["b", "a"]);
}
