#![allow(unused_imports, unused_variables, unused_mut, dead_code)]
use lang_frontend::parser::rules::item::ItemRule;
use lang_frontend::parser::{ExprParser, ParserCursor};
use lang_frontend::token::{PositionRange, Token, TokenType};
fn create_token(token_type: TokenType) -> Token {
    Token::new(token_type, PositionRange::zero())
}

#[test]
fn test_item_rule_check_match_main() {
    let rule = ItemRule {};
    let tokens = vec![
        create_token(TokenType::Main),
        create_token(TokenType::EOF),
    ];
    let cursor = ParserCursor { ptr: 0, tokens: &tokens };
    
    assert!(rule.check_match(cursor));
}

#[test]
fn test_item_rule_check_match_function() {
    let rule = ItemRule {};
    let tokens = vec![
        create_token(TokenType::Fn),
        create_token(TokenType::EOF),
    ];
    let cursor = ParserCursor { ptr: 0, tokens: &tokens };
    
    assert!(rule.check_match(cursor));
}

#[test]
fn test_item_rule_check_match_struct() {
    let rule = ItemRule {};
    let tokens = vec![
        create_token(TokenType::Struct),
        create_token(TokenType::EOF),
    ];
    let cursor = ParserCursor { ptr: 0, tokens: &tokens };
    
    assert!(rule.check_match(cursor));
}

#[test]
fn test_item_rule_check_match_impl() {
    let rule = ItemRule {};
    let tokens = vec![
        create_token(TokenType::Impl),
        create_token(TokenType::EOF),
    ];
    let cursor = ParserCursor { ptr: 0, tokens: &tokens };
    
    assert!(rule.check_match(cursor));
}

#[test]
fn test_item_rule_check_match_no_match() {
    let rule = ItemRule {};
    let tokens = vec![
        create_token(TokenType::Let),
        create_token(TokenType::EOF),
    ];
    let cursor = ParserCursor { ptr: 0, tokens: &tokens };
    
    assert!(!rule.check_match(cursor));
}

#[test]
fn test_parse_main_item() {
    let rule = ItemRule {};
    let tokens = vec![
        create_token(TokenType::Main),
        create_token(TokenType::LeftCurly),
        create_token(TokenType::RightCurly),
        create_token(TokenType::EOF),
    ];
    let mut parser = ExprParser::new(tokens);
    
    let result = rule.parse(&mut parser);
    
    assert!(result.is_some());
    assert!(parser.diagnostics().is_empty(), "Expected no diagnostics for valid main item");
}

#[test]
fn test_parse_function_item() {
    let rule = ItemRule {};
    let tokens = vec![
        create_token(TokenType::Fn),
        create_token(TokenType::Identifier("test".to_string())),
        create_token(TokenType::LeftParen),
        create_token(TokenType::RightParen),
        create_token(TokenType::Arrow),
        create_token(TokenType::Int),
        create_token(TokenType::LeftCurly),
        create_token(TokenType::RightCurly),
        create_token(TokenType::EOF),
    ];
    let mut parser = ExprParser::new(tokens);
    
    let result = rule.parse(&mut parser);
    
    assert!(result.is_some());
    assert!(parser.diagnostics().is_empty(), "Expected no diagnostics for valid function item");
}

#[test]
fn test_parse_struct_item() {
    let rule = ItemRule {};
    let tokens = vec![
        create_token(TokenType::Struct),
        create_token(TokenType::Identifier("TestStruct".to_string())),
        create_token(TokenType::LeftCurly),
        create_token(TokenType::RightCurly),
        create_token(TokenType::EOF),
    ];
    let mut parser = ExprParser::new(tokens);
    
    let result = rule.parse(&mut parser);
    
    assert!(result.is_some());
    assert!(parser.diagnostics().is_empty(), "Expected no diagnostics for valid struct item");
}

#[test]
fn test_parse_impl_item() {
    let rule = ItemRule {};
    let tokens = vec![
        create_token(TokenType::Impl),
        create_token(TokenType::Identifier("TestStruct".to_string())),
        create_token(TokenType::LeftCurly),
        create_token(TokenType::RightCurly),
        create_token(TokenType::EOF),
    ];
    let mut parser = ExprParser::new(tokens);
    
    let result = rule.parse(&mut parser);
    
    assert!(result.is_some());
    assert!(parser.diagnostics().is_empty(), "Expected no diagnostics for valid impl item");
}

#[test]
fn test_parse_no_match() {
    let rule = ItemRule {};
    let tokens = vec![
        create_token(TokenType::Let),
        create_token(TokenType::Int),
        create_token(TokenType::Identifier("x".to_string())),
        create_token(TokenType::EOF),
    ];
    let mut parser = ExprParser::new(tokens);
    
    let result = rule.parse(&mut parser);
    
    assert!(result.is_none());
}
