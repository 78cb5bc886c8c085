#![allow(unused_imports, unused_variables, unused_mut, dead_code)]
use lang_frontend::parser::rules::member_access::MemberAccessRule;
use lang_frontend::parser::{ExprParser, ParserCursor};
use lang_frontend::token::{PositionRange, Token, TokenType};
fn create_token(token_type: TokenType) -> Token {
    Token::new(token_type, PositionRange::zero())
}

#[test]
fn test_member_access_rule_check_match_always_true() {
    let rule = MemberAccessRule {};
    let tokens = vec![
        create_token(TokenType::Identifier("obj".to_string())),
        create_token(TokenType::EOF),
    ];
    let cursor = ParserCursor { ptr: 0, tokens: &tokens };
    
    // MemberAccessRule always returns true for check_match
    assert!(rule.check_match(cursor));
}

#[test]
fn test_parse_simple_variable_access() {
    let rule = MemberAccessRule {};
    let tokens = vec![
        create_token(TokenType::Identifier("variable".to_string())),
        create_token(TokenType::EOF),
    ];
    let mut parser = ExprParser::new(tokens);
    
    let result = rule.parse(&mut parser);
    
    assert!(result.is_some());
    assert!(parser.diagnostics().is_empty(), "Expected no diagnostics for simple variable access");
}

#[test]
fn test_parse_direct_member_access() {
    let rule = MemberAccessRule {};
    let tokens = vec![
        create_token(TokenType::Identifier("obj".to_string())),
        create_token(TokenType::Dot),
        create_token(TokenType::Identifier("field".to_string())),
        create_token(TokenType::EOF),
    ];
    let mut parser = ExprParser::new(tokens);
    
    let result = rule.parse(&mut parser);
    
    assert!(result.is_some());
    assert!(parser.diagnostics().is_empty(), "Expected no diagnostics for direct member access");
}

#[test]
fn test_parse_indirect_member_access() {
    let rule = MemberAccessRule {};
    let tokens = vec![
        create_token(TokenType::Identifier("ptr".to_string())),
        create_token(TokenType::Arrow),
        create_token(TokenType::Identifier("value".to_string())),
        create_token(TokenType::EOF),
    ];
    let mut parser = ExprParser::new(tokens);
    
    let result = rule.parse(&mut parser);
    
    assert!(result.is_some());
    assert!(parser.diagnostics().is_empty(), "Expected no diagnostics for indirect member access");
}

#[test]
fn test_parse_array_access() {
    let rule = MemberAccessRule {};
    let tokens = vec![
        create_token(TokenType::Identifier("arr".to_string())),
        create_token(TokenType::LeftSquare),
        create_token(TokenType::IntLiteral(5)),
        create_token(TokenType::RightSquare),
        create_token(TokenType::EOF),
    ];
    let mut parser = ExprParser::new(tokens);
    
    let result = rule.parse(&mut parser);
    
    assert!(result.is_some());
    assert!(parser.diagnostics().is_empty(), "Expected no diagnostics for array access");
}

#[test]
fn test_parse_chained_member_access() {
    let rule = MemberAccessRule {};
    let tokens = vec![
        create_token(TokenType::Identifier("obj".to_string())),
        create_token(TokenType::Dot),
        create_token(TokenType::Identifier("nested".to_string())),
        create_token(TokenType::Dot),
        create_token(TokenType::Identifier("field".to_string())),
        create_token(TokenType::EOF),
    ];
    let mut parser = ExprParser::new(tokens);
    
    let result = rule.parse(&mut parser);
    
    assert!(result.is_some());
    assert!(parser.diagnostics().is_empty(), "Expected no diagnostics for chained member access");
}

#[test]
fn test_parse_mixed_access_types() {
    let rule = MemberAccessRule {};
    let tokens = vec![
        create_token(TokenType::Identifier("obj".to_string())),
        create_token(TokenType::Dot),
        create_token(TokenType::Identifier("array".to_string())),
        create_token(TokenType::LeftSquare),
        create_token(TokenType::IntLiteral(0)),
        create_token(TokenType::RightSquare),
        create_token(TokenType::Arrow),
        create_token(TokenType::Identifier("value".to_string())),
        create_token(TokenType::EOF),
    ];
    let mut parser = ExprParser::new(tokens);
    
    let result = rule.parse(&mut parser);
    
    assert!(result.is_some());
    assert!(parser.diagnostics().is_empty(), "Expected no diagnostics for mixed access types");
}

#[test]
fn test_parse_nested_array_access() {
    let rule = MemberAccessRule {};
    let tokens = vec![
        create_token(TokenType::Identifier("matrix".to_string())),
        create_token(TokenType::LeftSquare),
        create_token(TokenType::IntLiteral(1)),
        create_token(TokenType::RightSquare),
        create_token(TokenType::LeftSquare),
        create_token(TokenType::IntLiteral(3)),
        create_token(TokenType::RightSquare),
        create_token(TokenType::EOF),
    ];
    let mut parser = ExprParser::new(tokens);
    
    let result = rule.parse(&mut parser);
    
    assert!(result.is_some());
    assert!(parser.diagnostics().is_empty(), "Expected no diagnostics for nested array access");
}

#[test]
fn test_parse_array_access_with_variable_index() {
    let rule = MemberAccessRule {};
    let tokens = vec![
        create_token(TokenType::Identifier("arr".to_string())),
        create_token(TokenType::LeftSquare),
        create_token(TokenType::Identifier("index".to_string())),
        create_token(TokenType::RightSquare),
        create_token(TokenType::EOF),
    ];
    let mut parser = ExprParser::new(tokens);
    
    let result = rule.parse(&mut parser);
    
    assert!(result.is_some());
    assert!(parser.diagnostics().is_empty(), "Expected no diagnostics for array access with variable index");
}

#[test]
fn test_parse_array_access_with_expression_index() {
    let rule = MemberAccessRule {};
    let tokens = vec![
        create_token(TokenType::Identifier("arr".to_string())),
        create_token(TokenType::LeftSquare),
        create_token(TokenType::Identifier("i".to_string())),
        create_token(TokenType::Plus),
        create_token(TokenType::IntLiteral(1)),
        create_token(TokenType::RightSquare),
        create_token(TokenType::EOF),
    ];
    let mut parser = ExprParser::new(tokens);
    
    let result = rule.parse(&mut parser);
    
    assert!(result.is_some());
    assert!(parser.diagnostics().is_empty(), "Expected no diagnostics for array access with expression index");
}

#[test]
fn test_parse_complex_chaining() {
    let rule = MemberAccessRule {};
    let tokens = vec![
        create_token(TokenType::Identifier("world".to_string())),
        create_token(TokenType::Dot),
        create_token(TokenType::Identifier("players".to_string())),
        create_token(TokenType::LeftSquare),
        create_token(TokenType::IntLiteral(0)),
        create_token(TokenType::RightSquare),
        create_token(TokenType::Dot),
        create_token(TokenType::Identifier("inventory".to_string())),
        create_token(TokenType::Arrow),
        create_token(TokenType::Identifier("damage".to_string())),
        create_token(TokenType::EOF),
    ];
    let mut parser = ExprParser::new(tokens);
    
    let result = rule.parse(&mut parser);
    
    assert!(result.is_some());
    assert!(parser.diagnostics().is_empty(), "Expected no diagnostics for complex chaining");
}

#[test]
fn test_parse_missing_member_after_dot() {
    let rule = MemberAccessRule {};
    let tokens = vec![
        create_token(TokenType::Identifier("obj".to_string())),
        create_token(TokenType::Dot),
        create_token(TokenType::EOF),
    ];
    let mut parser = ExprParser::new(tokens);
    
    let result = rule.parse(&mut parser);
    
    // Should fail because identifier is required after dot
    assert!(result.is_none());
    assert!(!parser.diagnostics().is_empty(), "Expected diagnostic for missing member after dot");
}

#[test]
fn test_parse_missing_member_after_arrow() {
    let rule = MemberAccessRule {};
    let tokens = vec![
        create_token(TokenType::Identifier("ptr".to_string())),
        create_token(TokenType::Arrow),
        create_token(TokenType::EOF),
    ];
    let mut parser = ExprParser::new(tokens);
    
    let result = rule.parse(&mut parser);
    
    // Should fail because identifier is required after arrow
    assert!(result.is_none());
    assert!(!parser.diagnostics().is_empty(), "Expected diagnostic for missing member after arrow");
}

#[test]
fn test_parse_missing_array_index() {
    let rule = MemberAccessRule {};
    let tokens = vec![
        create_token(TokenType::Identifier("arr".to_string())),
        create_token(TokenType::LeftSquare),
        create_token(TokenType::RightSquare),
        create_token(TokenType::EOF),
    ];
    let mut parser = ExprParser::new(tokens);
    
    let result = rule.parse(&mut parser);
    
    // Should fail because expression is required for array index
    assert!(result.is_none());
    assert!(!parser.diagnostics().is_empty(), "Expected diagnostic for missing array index");
    assert!(parser.diagnostics().iter().any(|d| d.message.contains("expected expression")));
}

#[test]
fn test_parse_missing_closing_bracket() {
    let rule = MemberAccessRule {};
    let tokens = vec![
        create_token(TokenType::Identifier("arr".to_string())),
        create_token(TokenType::LeftSquare),
        create_token(TokenType::IntLiteral(5)),
        create_token(TokenType::EOF),
    ];
    let mut parser = ExprParser::new(tokens);
    
    let result = rule.parse(&mut parser);
    
    // Should succeed but have diagnostic for missing bracket
    assert!(result.is_some());
    assert!(!parser.diagnostics().is_empty(), "Expected diagnostic for missing closing bracket");
    assert!(parser.diagnostics().iter().any(|d| d.message.contains("']'")));
}

#[test]
fn test_parse_invalid_array_index() {
    let rule = MemberAccessRule {};
    let tokens = vec![
        create_token(TokenType::Identifier("arr".to_string())),
        create_token(TokenType::LeftSquare),
        create_token(TokenType::RightCurly), // Invalid expression
        create_token(TokenType::RightSquare),
        create_token(TokenType::EOF),
    ];
    let mut parser = ExprParser::new(tokens);
    
    let result = rule.parse(&mut parser);
    
    // Should fail because array index expression is invalid
    assert!(result.is_none());
    assert!(!parser.diagnostics().is_empty(), "Expected diagnostic for invalid array index");
    assert!(parser.diagnostics().iter().any(|d| d.message.contains("expected expression")));
}

#[test]
fn test_parse_literal_with_member_access() {
    let rule = MemberAccessRule {};
    let tokens = vec![
        create_token(TokenType::IntLiteral(42)),
        create_token(TokenType::Dot),
        create_token(TokenType::Identifier("field".to_string())),
        create_token(TokenType::EOF),
    ];
    let mut parser = ExprParser::new(tokens);
    
    let result = rule.parse(&mut parser);
    
    assert!(result.is_some());
    assert!(parser.diagnostics().is_empty(), "Expected no diagnostics for literal with member access");
}

#[test]
fn test_parse_parenthesized_expression_with_access() {
    let rule = MemberAccessRule {};
    let tokens = vec![
        create_token(TokenType::LeftParen),
        create_token(TokenType::Identifier("x".to_string())),
        create_token(TokenType::Plus),
        create_token(TokenType::Identifier("y".to_string())),
        create_token(TokenType::RightParen),
        create_token(TokenType::Dot),
        create_token(TokenType::Identifier("field".to_string())),
        create_token(TokenType::EOF),
    ];
    let mut parser = ExprParser::new(tokens);
    
    let result = rule.parse(&mut parser);
    
    assert!(result.is_some());
    assert!(parser.diagnostics().is_empty(), "Expected no diagnostics for parenthesized expression with access");
}

#[test]
fn test_parse_string_literal_with_array_access() {
    let rule = MemberAccessRule {};
    let tokens = vec![
        create_token(TokenType::StringLiteral("hello".to_string())),
        create_token(TokenType::LeftSquare),
        create_token(TokenType::IntLiteral(0)),
        create_token(TokenType::RightSquare),
        create_token(TokenType::EOF),
    ];
    let mut parser = ExprParser::new(tokens);
    
    let result = rule.parse(&mut parser);
    
    assert!(result.is_some());
    assert!(parser.diagnostics().is_empty(), "Expected no diagnostics for string literal with array access");
}
