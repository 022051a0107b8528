//! Lexer tests: keyword and identifier classification.

use tantalum::lexer::Lexer;
use tantalum::source::SourceFileCollection;
use tantalum::syntax::SyntaxKind;

#[test]
fn keywords() {
    let mut files = SourceFileCollection::new();

    let file_id = files.add_file(
        "file.tan".to_string(),
        "fn let return if else true false".to_string(),
    );

    let file = files
        .get_file(file_id)
        .expect("file should exist since it was just added");

    let mut lexer = Lexer::new(file);

    let mut tokens = Vec::new();
    while let Some(token) = lexer.next_token() {
        if token.kind() == SyntaxKind::Whitespace {
            continue;
        }
        tokens.push(token);
    }

    assert_eq!(tokens.len(), 7);

    assert_eq!(tokens[0].kind(), SyntaxKind::Fn);
    assert_eq!(tokens[1].kind(), SyntaxKind::Let);
    assert_eq!(tokens[2].kind(), SyntaxKind::Return);
    assert_eq!(tokens[3].kind(), SyntaxKind::If);
    assert_eq!(tokens[4].kind(), SyntaxKind::Else);
    assert_eq!(tokens[5].kind(), SyntaxKind::True);
    assert_eq!(tokens[6].kind(), SyntaxKind::False);
}

#[test]
fn identifiers() {
    let mut files = SourceFileCollection::new();

    let file_id = files.add_file(
        "file.tan".to_string(),
        "a A _ a1 A1 _1 _a _A __AA01".to_string(),
    );

    let file = files
        .get_file(file_id)
        .expect("file should exist since it was just added");

    let mut lexer = Lexer::new(file);

    let mut tokens = Vec::new();
    while let Some(token) = lexer.next_token() {
        if token.kind() == SyntaxKind::Whitespace {
            continue;
        }
        tokens.push(token);
    }

    assert_eq!(tokens.len(), 9);

    assert_eq!(tokens[0].kind(), SyntaxKind::Identifier);
    assert_eq!(tokens[1].kind(), SyntaxKind::Identifier);
    assert_eq!(tokens[2].kind(), SyntaxKind::Identifier);
    assert_eq!(tokens[3].kind(), SyntaxKind::Identifier);
    assert_eq!(tokens[4].kind(), SyntaxKind::Identifier);
    assert_eq!(tokens[5].kind(), SyntaxKind::Identifier);
    assert_eq!(tokens[6].kind(), SyntaxKind::Identifier);
    assert_eq!(tokens[7].kind(), SyntaxKind::Identifier);
    assert_eq!(tokens[8].kind(), SyntaxKind::Identifier);
}

#[test]
fn punctuation_and_spans() {
    let mut files = SourceFileCollection::new();
    let file_id = files.add_file("file.tan".to_string(), "(){}<>=".to_string());
    let file = files.get_file(file_id).expect("file should exist");
    let mut lexer = Lexer::new(file);

    let kinds = [
        SyntaxKind::LParen,
        SyntaxKind::RParen,
        SyntaxKind::LBrace,
        SyntaxKind::RBrace,
        SyntaxKind::LAngle,
        SyntaxKind::RAngle,
        SyntaxKind::Equals,
    ];
    for (i, expected) in kinds.iter().enumerate() {
        let token = lexer.next_token().expect("token should exist");
        assert_eq!(token.kind(), *expected);
        assert_eq!(token.span().start(), i);
        assert_eq!(token.span().end(), i + 1);
    }
    assert!(lexer.next_token().is_none());
}

#[test]
fn peeking_does_not_consume() {
    let mut files = SourceFileCollection::new();
    let file_id = files.add_file("file.tan".to_string(), "fn main".to_string());
    let file = files.get_file(file_id).expect("file should exist");
    let lexer = Lexer::new(file);

    assert_eq!(lexer.peek_token(1).expect("first").kind(), SyntaxKind::Fn);
    assert_eq!(
        lexer.peek_token(2).expect("second").kind(),
        SyntaxKind::Whitespace
    );
    assert_eq!(
        lexer.peek_token(3).expect("third").kind(),
        SyntaxKind::Identifier
    );
    assert!(lexer.peek_token(4).is_none());
}
