//! Parser tests: files, functions, parameter lists, paths, types, blocks
//! and `if` expressions, each checked against the rendered syntax tree.

use tantalum::lexer::Lexer;
use tantalum::parser::{block, expression, identifier, parameter_list, path, ty, Parser};
use tantalum::source::SourceFileCollection;
use tantalum::syntax::PrettyPrint;

fn parse_with<F: FnOnce(&mut Parser)>(name: &str, source: &str, parse: F) -> String {
    let mut files = SourceFileCollection::new();
    let id = files.add_file(name.to_string(), source.to_string());
    let source_file = files.get_file(id).expect("file was just added");
    let mut parser = Parser::new(Lexer::new(source_file));
    parse(&mut parser);
    let tree = parser.finish();
    tree.pretty_print(0, &files)
}

#[test]
fn basic_whitespace_file() {
    let result = parse_with("basic_whitespace_file", " \t\n", |p| {
        let _ = tantalum::parser::file(p);
    });
    assert_eq!(
        result,
        "File @ #0 0..3\n  Whitespace @ #0 0..3 \" \\t\\n\"\n"
    );
}

#[test]
fn basic_function() {
    let result = parse_with("basic_function", "fn main() {}", |p| {
        let _ = tantalum::parser::file(p);
    });
    let expected = "File @ #0 0..12
  Function @ #0 0..12
    Fn @ #0 0..2 \"fn\"
    Whitespace @ #0 2..3 \" \"
    Identifier @ #0 3..7 \"main\"
    LParen @ #0 7..8 \"(\"
    ParameterList @ #0 8..8
    RParen @ #0 8..9 \")\"
    Whitespace @ #0 9..10 \" \"
    Block @ #0 10..12
      LBrace @ #0 10..11 \"{\"
      RBrace @ #0 11..12 \"}\"
";
    assert_eq!(result, expected);
}

#[test]
fn function_with_parameters() {
    let result = parse_with(
        "function_with_parameters",
        "fn add(a: i32, b: i32) {}",
        |p| {
            let _ = tantalum::parser::file(p);
        },
    );
    let expected = "File @ #0 0..25
  Function @ #0 0..25
    Fn @ #0 0..2 \"fn\"
    Whitespace @ #0 2..3 \" \"
    Identifier @ #0 3..6 \"add\"
    LParen @ #0 6..7 \"(\"
    ParameterList @ #0 7..21
      Parameter @ #0 7..13
        Identifier @ #0 7..8 \"a\"
        Colon @ #0 8..9 \":\"
        Whitespace @ #0 9..10 \" \"
        NamedType @ #0 10..13
          Path @ #0 10..13
            PathSegment @ #0 10..13
              Identifier @ #0 10..13 \"i32\"
      Comma @ #0 13..14 \",\"
      Whitespace @ #0 14..15 \" \"
      Parameter @ #0 15..21
        Identifier @ #0 15..16 \"b\"
        Colon @ #0 16..17 \":\"
        Whitespace @ #0 17..18 \" \"
        NamedType @ #0 18..21
          Path @ #0 18..21
            PathSegment @ #0 18..21
              Identifier @ #0 18..21 \"i32\"
    RParen @ #0 21..22 \")\"
    Whitespace @ #0 22..23 \" \"
    Block @ #0 23..25
      LBrace @ #0 23..24 \"{\"
      RBrace @ #0 24..25 \"}\"
";
    assert_eq!(result, expected);
}

#[test]
fn function_with_return_type() {
    let result = parse_with("function_with_return_type", "fn main(): i32 {}", |p| {
        let _ = tantalum::parser::file(p);
    });
    let expected = "File @ #0 0..17
  Function @ #0 0..17
    Fn @ #0 0..2 \"fn\"
    Whitespace @ #0 2..3 \" \"
    Identifier @ #0 3..7 \"main\"
    LParen @ #0 7..8 \"(\"
    ParameterList @ #0 8..8
    RParen @ #0 8..9 \")\"
    Colon @ #0 9..10 \":\"
    Whitespace @ #0 10..11 \" \"
    NamedType @ #0 11..14
      Path @ #0 11..14
        PathSegment @ #0 11..14
          Identifier @ #0 11..14 \"i32\"
    Whitespace @ #0 14..15 \" \"
    Block @ #0 15..17
      LBrace @ #0 15..16 \"{\"
      RBrace @ #0 16..17 \"}\"
";
    assert_eq!(result, expected);
}

#[test]
fn absolute_path() {
    let result = parse_with("absolute_path", "::hello::world", |p| {
        let _ = path(p);
    });
    let expected = "Path @ #0 0..14
  PathSeparator @ #0 0..2 \"::\"
  PathSegment @ #0 2..7
    Identifier @ #0 2..7 \"hello\"
  PathSeparator @ #0 7..9 \"::\"
  PathSegment @ #0 9..14
    Identifier @ #0 9..14 \"world\"
";
    assert_eq!(result, expected);
}

#[test]
fn basic_identifier() {
    let mut files = SourceFileCollection::new();
    let id = files.add_file("basic_identifier".to_string(), "hello".to_string());
    let source_file = files.get_file(id).expect("file was just added");
    let mut parser = Parser::new(Lexer::new(source_file));

    let ident = identifier(&mut parser);
    assert!(ident.is_some());
    let ident = ident.unwrap();

    let result = ident.pretty_print(0, &files);
    assert_eq!(result, "Identifier @ #0 0..5 \"hello\"\n");
}

#[test]
fn named_type() {
    let result = parse_with("named_type", "u8", |p| {
        let _ = ty(p);
    });
    let expected = "NamedType @ #0 0..2
  Path @ #0 0..2
    PathSegment @ #0 0..2
      Identifier @ #0 0..2 \"u8\"
";
    assert_eq!(result, expected);
}

#[test]
fn absolute_named_path() {
    let result = parse_with("absolute_named_path", "::u8", |p| {
        let _ = ty(p);
    });
    let expected = "NamedType @ #0 0..4
  Path @ #0 0..4
    PathSeparator @ #0 0..2 \"::\"
    PathSegment @ #0 2..4
      Identifier @ #0 2..4 \"u8\"
";
    assert_eq!(result, expected);
}

#[test]
fn pointer_type() {
    let result = parse_with("pointer_type", "*u8", |p| {
        let _ = ty(p);
    });
    let expected = "PointerType @ #0 0..3
  Star @ #0 0..1 \"*\"
  NamedType @ #0 1..3
    Path @ #0 1..3
      PathSegment @ #0 1..3
        Identifier @ #0 1..3 \"u8\"
";
    assert_eq!(result, expected);
}

#[test]
fn pointer_to_pointer_type() {
    let result = parse_with("pointer_to_pointer_type", "**u8", |p| {
        let _ = ty(p);
    });
    let expected = "PointerType @ #0 0..4
  Star @ #0 0..1 \"*\"
  PointerType @ #0 1..4
    Star @ #0 1..2 \"*\"
    NamedType @ #0 2..4
      Path @ #0 2..4
        PathSegment @ #0 2..4
          Identifier @ #0 2..4 \"u8\"
";
    assert_eq!(result, expected);
}

#[test]
fn reference_type() {
    let result = parse_with("reference_type", "&u8", |p| {
        let _ = ty(p);
    });
    let expected = "ReferenceType @ #0 0..3
  Ampersand @ #0 0..1 \"&\"
  NamedType @ #0 1..3
    Path @ #0 1..3
      PathSegment @ #0 1..3
        Identifier @ #0 1..3 \"u8\"
";
    assert_eq!(result, expected);
}

#[test]
fn basic_parameter_list() {
    let result = parse_with("basic_parameter_list", "a: i32, b: *i32, ...", |p| {
        let _ = parameter_list(p);
    });
    let expected = "ParameterList @ #0 0..20
  Parameter @ #0 0..6
    Identifier @ #0 0..1 \"a\"
    Colon @ #0 1..2 \":\"
    Whitespace @ #0 2..3 \" \"
    NamedType @ #0 3..6
      Path @ #0 3..6
        PathSegment @ #0 3..6
          Identifier @ #0 3..6 \"i32\"
  Comma @ #0 6..7 \",\"
  Whitespace @ #0 7..8 \" \"
  Parameter @ #0 8..15
    Identifier @ #0 8..9 \"b\"
    Colon @ #0 9..10 \":\"
    Whitespace @ #0 10..11 \" \"
    PointerType @ #0 11..15
      Star @ #0 11..12 \"*\"
      NamedType @ #0 12..15
        Path @ #0 12..15
          PathSegment @ #0 12..15
            Identifier @ #0 12..15 \"i32\"
  Comma @ #0 15..16 \",\"
  Whitespace @ #0 16..17 \" \"
  Variadic @ #0 17..20 \"...\"
";
    assert_eq!(result, expected);
}

#[test]
fn block_expression() {
    let result = parse_with("block_expression", "{ hello }", |p| {
        let _ = block(p);
    });
    let expected = "Block @ #0 0..9
  LBrace @ #0 0..1 \"{\"
  Whitespace @ #0 1..2 \" \"
  Variable @ #0 2..7
    Identifier @ #0 2..7 \"hello\"
  Whitespace @ #0 7..8 \" \"
  RBrace @ #0 8..9 \"}\"
";
    assert_eq!(result, expected);
}

#[test]
fn block_expression_with_statements() {
    let result = parse_with("block_expression_with_statements", "{ let x = 5; }", |p| {
        let _ = block(p);
    });
    let expected = "Block @ #0 0..14
  LBrace @ #0 0..1 \"{\"
  Whitespace @ #0 1..2 \" \"
  LetStatement @ #0 2..12
    Let @ #0 2..5 \"let\"
    Whitespace @ #0 5..6 \" \"
    Identifier @ #0 6..7 \"x\"
    Whitespace @ #0 7..8 \" \"
    Equals @ #0 8..9 \"=\"
    Whitespace @ #0 9..10 \" \"
    Literal @ #0 10..11
      IntegerLiteral @ #0 10..11 \"5\"
    Semicolon @ #0 11..12 \";\"
  Whitespace @ #0 12..13 \" \"
  RBrace @ #0 13..14 \"}\"
";
    assert_eq!(result, expected);
}

#[test]
fn if_expression() {
    let result = parse_with("if_expression", "if true {}", |p| {
        let _ = expression(p);
    });
    let expected = "IfExpression @ #0 0..10
  If @ #0 0..2 \"if\"
  Whitespace @ #0 2..3 \" \"
  Condition @ #0 3..8
    Literal @ #0 3..7
      True @ #0 3..7 \"true\"
    Whitespace @ #0 7..8 \" \"
  Block @ #0 8..10
    LBrace @ #0 8..9 \"{\"
    RBrace @ #0 9..10 \"}\"
";
    assert_eq!(result, expected);
}

#[test]
fn if_else_expression() {
    let result = parse_with("if_else_expression", "if true {} else {}", |p| {
        let _ = expression(p);
    });
    let expected = "IfExpression @ #0 0..18
  If @ #0 0..2 \"if\"
  Whitespace @ #0 2..3 \" \"
  Condition @ #0 3..8
    Literal @ #0 3..7
      True @ #0 3..7 \"true\"
    Whitespace @ #0 7..8 \" \"
  Block @ #0 8..10
    LBrace @ #0 8..9 \"{\"
    RBrace @ #0 9..10 \"}\"
  Whitespace @ #0 10..11 \" \"
  Else @ #0 11..15 \"else\"
  Whitespace @ #0 15..16 \" \"
  Block @ #0 16..18
    LBrace @ #0 16..17 \"{\"
    RBrace @ #0 17..18 \"}\"
";
    assert_eq!(result, expected);
}

#[test]
fn if_else_if_expression() {
    let result = parse_with("if_else_if_expression", "if true {} else if false {}", |p| {
        let _ = expression(p);
    });
    let expected = "IfExpression @ #0 0..27
  If @ #0 0..2 \"if\"
  Whitespace @ #0 2..3 \" \"
  Condition @ #0 3..8
    Literal @ #0 3..7
      True @ #0 3..7 \"true\"
    Whitespace @ #0 7..8 \" \"
  Block @ #0 8..10
    LBrace @ #0 8..9 \"{\"
    RBrace @ #0 9..10 \"}\"
  Whitespace @ #0 10..11 \" \"
  Else @ #0 11..15 \"else\"
  Whitespace @ #0 15..16 \" \"
  IfExpression @ #0 16..27
    If @ #0 16..18 \"if\"
    Whitespace @ #0 18..19 \" \"
    Condition @ #0 19..25
      Literal @ #0 19..24
        False @ #0 19..24 \"false\"
      Whitespace @ #0 24..25 \" \"
    Block @ #0 25..27
      LBrace @ #0 25..26 \"{\"
      RBrace @ #0 26..27 \"}\"
";
    assert_eq!(result, expected);
}

#[test]
fn test_binary_expression() {
    let result = parse_with("binary_expression", "1 + 2", |p| {
        let _ = expression(p);
    });
    let expected = "BinaryExpression @ #0 0..5
  Literal @ #0 0..1
    IntegerLiteral @ #0 0..1 \"1\"
  Whitespace @ #0 1..2 \" \"
  Plus @ #0 2..3 \"+\"
  Whitespace @ #0 3..4 \" \"
  Literal @ #0 4..5
    IntegerLiteral @ #0 4..5 \"2\"
";
    assert_eq!(result, expected);
}

#[test]
fn binary_expression_add_mul() {
    let result = parse_with("binary_expression_add_mul", "1 + 2 * 3", |p| {
        let _ = expression(p);
    });
    let expected = "BinaryExpression @ #0 0..9
  Literal @ #0 0..1
    IntegerLiteral @ #0 0..1 \"1\"
  Whitespace @ #0 1..2 \" \"
  Plus @ #0 2..3 \"+\"
  Whitespace @ #0 3..4 \" \"
  BinaryExpression @ #0 4..9
    Literal @ #0 4..5
      IntegerLiteral @ #0 4..5 \"2\"
    Whitespace @ #0 5..6 \" \"
    Star @ #0 6..7 \"*\"
    Whitespace @ #0 7..8 \" \"
    Literal @ #0 8..9
      IntegerLiteral @ #0 8..9 \"3\"
";
    assert_eq!(result, expected);
}

#[test]
fn binary_expression_mul_add() {
    let result = parse_with("binary_expression_mul_add", "1 * 2 + 3", |p| {
        let _ = expression(p);
    });
    let expected = "BinaryExpression @ #0 0..9
  BinaryExpression @ #0 0..6
    Literal @ #0 0..1
      IntegerLiteral @ #0 0..1 \"1\"
    Whitespace @ #0 1..2 \" \"
    Star @ #0 2..3 \"*\"
    Whitespace @ #0 3..4 \" \"
    Literal @ #0 4..5
      IntegerLiteral @ #0 4..5 \"2\"
    Whitespace @ #0 5..6 \" \"
  Plus @ #0 6..7 \"+\"
  Whitespace @ #0 7..8 \" \"
  Literal @ #0 8..9
    IntegerLiteral @ #0 8..9 \"3\"
";
    assert_eq!(result, expected);
}

#[test]
fn binary_expression_parentheses() {
    let result = parse_with("binary_expression_parentheses", "(1 + 2) * 3", |p| {
        let _ = expression(p);
    });
    let expected = "BinaryExpression @ #0 0..11
  Grouping @ #0 0..7
    LParen @ #0 0..1 \"(\"
    BinaryExpression @ #0 1..6
      Literal @ #0 1..2
        IntegerLiteral @ #0 1..2 \"1\"
      Whitespace @ #0 2..3 \" \"
      Plus @ #0 3..4 \"+\"
      Whitespace @ #0 4..5 \" \"
      Literal @ #0 5..6
        IntegerLiteral @ #0 5..6 \"2\"
    RParen @ #0 6..7 \")\"
  Whitespace @ #0 7..8 \" \"
  Star @ #0 8..9 \"*\"
  Whitespace @ #0 9..10 \" \"
  Literal @ #0 10..11
    IntegerLiteral @ #0 10..11 \"3\"
";
    assert_eq!(result, expected);
}

#[test]
fn test_examples() {
    // small example programs, each expected to lex and parse into a tree
    let examples = [
        ("basic.ta", "fn main(): i32 { return 0; }"),
        (
            "add.ta",
            "fn add(a: i32, b: i32): i32 { return a + b; }\nfn main(): i32 { return add(1, 2); }\n",
        ),
        (
            "branch.ta",
            "fn main(): i32 { let x = if true { 1 } else { 2 }; return x; }",
        ),
    ];
    for (name, source) in examples.iter() {
        assert!(compile_test(name, source));
    }
}

fn compile_test(name: &str, source: &str) -> bool {
    let mut files = SourceFileCollection::new();
    let file_id = files.add_file(name.to_string(), source.to_string());
    let source_file = match files.get_file(file_id) {
        Some(f) => f,
        None => return false,
    };
    let lexer = Lexer::new(source_file);
    let mut parser = Parser::new(lexer);
    parser.parse();
    let _ = parser.finish();
    true
}
