use ccx::lexer::Token;
use ccx::parser::{mark_token, word_token, Ast, Exp, Function, ParseError, Parser, Statement};

fn ident(value: &str) -> Token {
    Token::Identifier(value.to_string())
}

fn constant(value: &str) -> Token {
    Token::Constant(value.to_string())
}

fn lit(value: &str) -> Token {
    Token::Literal(value.to_string())
}

fn program() -> Vec<Token> {
    vec![
        ident("int"),
        ident("my_func"),
        lit("("),
        ident("void"),
        lit(")"),
        lit("{"),
        ident("return"),
        constant("420"),
        lit(";"),
        lit("}"),
    ]
}

#[test]
fn parse_with_extra_tokens() {
    let tokens = vec![
        ident("int"),
        ident("my_func"),
        lit("("),
        ident("void"),
        lit(")"),
        lit("{"),
        ident("return"),
        constant("420"),
        lit(";"),
        lit("}"),
        ident("foo"),
        ident("bar"),
    ];
    match Parser::new(&tokens).parse() {
        Err(ParseError::UnexpectedToken(token)) => assert_eq!(token, ident("foo")),
        other => panic!("{:?}", other),
    }
}

#[test]
fn parse_successfully() {
    let tokens = vec![
        ident("int"),
        ident("my_func"),
        lit("("),
        ident("void"),
        lit(")"),
        lit("{"),
        ident("return"),
        constant("420"),
        lit(";"),
        lit("}"),
    ];
    let mut parser = Parser::new(&tokens);
    let ast = parser.parse().unwrap();
    assert_eq!(
        ast.to_string(),
        "Program(\n  Function(\n  name=\"my_func\",\n  body=Return(Constant(420))\n)\n)"
    );
}

#[test]
fn parse_function_with_missing_token() {
    let tokens = vec![
        ident("int"),
        ident("my_func"),
        ident("void"),
        lit(")"),
        lit("{"),
        ident("return"),
        constant("420"),
        lit(";"),
        lit("}"),
    ];
    let mut parser = Parser::new(&tokens);
    match parser.parse_function() {
        Err(ParseError::TokenMismatch { expected, actual }) => {
            assert_eq!(expected, lit("("));
            assert_eq!(actual, ident("void"));
        },
        other => panic!("{:?}", other),
    }
}

#[test]
fn parse_function_with_invalid_name() {
    let tokens = vec![
        ident("int"),
        constant("3"),
        lit("("),
        ident("void"),
        lit(")"),
        lit("{"),
        ident("return"),
        constant("420"),
        lit(";"),
        lit("}"),
    ];
    let mut parser = Parser::new(&tokens);
    match parser.parse_function() {
        Err(ParseError::InvalidFunctionName(token)) => assert_eq!(token, constant("3")),
        other => panic!("{:?}", other),
    }
}

#[test]
fn parse_function_success() {
    let tokens = vec![
        ident("int"),
        ident("my_func"),
        lit("("),
        ident("void"),
        lit(")"),
        lit("{"),
        ident("return"),
        constant("420"),
        lit(";"),
        lit("}"),
    ];
    let mut parser = Parser::new(&tokens);
    let stmt = parser.parse_function().unwrap();
    assert_eq!(
        stmt.to_string(),
        "Function(\n  name=\"my_func\",\n  body=Return(Constant(420))\n)"
    );
}

#[test]
fn parse_statement_with_missing_expression() {
    let tokens = vec![ident("return"), lit(";")];
    let mut parser = Parser::new(&tokens);
    match parser.parse_statement() {
        Err(ParseError::NotAConstant(token)) => assert_eq!(token, lit(";")),
        other => panic!("{:?}", other),
    }
}

#[test]
fn parse_statement_with_missing_semicolon() {
    let tokens = vec![ident("bork"), constant("1234")];
    let mut parser = Parser::new(&tokens);
    match parser.parse_statement() {
        Err(ParseError::TokenMismatch { expected, actual }) => {
            assert_eq!(expected, ident("return"));
            assert_eq!(actual, ident("bork"));
        },
        other => panic!("{:?}", other),
    }
}

#[test]
fn parse_statement_with_missing_identifier() {
    let tokens = vec![ident("bork"), constant("1234"), lit(";")];
    let mut parser = Parser::new(&tokens);
    match parser.parse_statement() {
        Err(ParseError::TokenMismatch { expected, actual }) => {
            assert_eq!(expected, ident("return"));
            assert_eq!(actual, ident("bork"));
        },
        other => panic!("{:?}", other),
    }
}

#[test]
fn parse_statement_success() {
    let tokens = vec![ident("return"), constant("1234"), lit(";")];
    let mut parser = Parser::new(&tokens);
    let stmt = parser.parse_statement().unwrap();
    assert_eq!(stmt.to_string(), "Return(Constant(1234))");
}

#[test]
fn parse_exp_with_error() {
    let tokens = vec![Token::Identifier("bark".to_string())];
    let mut parser = Parser::new(&tokens);
    match parser.parse_exp() {
        Err(ParseError::NotAConstant(token)) => assert_eq!(token, ident("bark")),
        other => panic!("{:?}", other),
    }
}

#[test]
fn parse_exp_with_constant() {
    let tokens = vec![Token::Constant("100".to_string())];
    let mut parser = Parser::new(&tokens);
    let exp = parser.parse_exp().unwrap();
    assert_eq!(exp.to_string(), "Constant(100)");
}

#[test]
fn a_statement_that_ends_before_its_semicolon() {
    let tokens = vec![ident("return"), constant("1234")];
    let mut parser = Parser::new(&tokens);
    match parser.parse_statement() {
        Err(ParseError::MissingToken(expected)) => assert_eq!(expected, lit(";")),
        other => panic!("{:?}", other),
    }
}

#[test]
fn input_that_ends_before_the_constant() {
    let tokens = vec![ident("return")];
    let mut parser = Parser::new(&tokens);
    match parser.parse_statement() {
        Err(ParseError::MissingConstant) => {},
        other => panic!("{:?}", other),
    }
    let none: Vec<Token> = Vec::new();
    match Parser::new(&none).parse_exp() {
        Err(ParseError::MissingConstant) => {},
        other => panic!("{:?}", other),
    }
}

#[test]
fn input_that_ends_before_the_name() {
    let tokens = vec![ident("int")];
    match Parser::new(&tokens).parse() {
        Err(ParseError::MissingFunctionName) => {},
        other => panic!("{:?}", other),
    }
    assert_eq!(Parser::new(&tokens).parse_name().unwrap(), "int");
    let mut parser = Parser::new(&tokens);
    assert!(parser.expect(ident("int")).is_ok());
    match parser.parse_name() {
        Err(ParseError::MissingFunctionName) => {},
        other => panic!("{:?}", other),
    }
}

#[test]
fn empty_input_misses_its_first_token() {
    let tokens: Vec<Token> = Vec::new();
    match Parser::new(&tokens).parse() {
        Err(ParseError::MissingToken(expected)) => assert_eq!(expected, ident("int")),
        other => panic!("{:?}", other),
    }
}

#[test]
fn every_prefix_of_a_program_is_rejected() {
    let whole = program();
    for length in 0..whole.len() {
        let tokens: Vec<Token> = whole[..length].to_vec();
        assert!(Parser::new(&tokens).parse().is_err(), "{} tokens", length);
    }
    assert!(Parser::new(&whole).parse().is_ok());
}

#[test]
fn one_trailing_token_is_rejected() {
    let mut tokens = program();
    tokens.push(lit(";"));
    match Parser::new(&tokens).parse() {
        Err(ParseError::UnexpectedToken(token)) => assert_eq!(token, lit(";")),
        other => panic!("{:?}", other),
    }
    assert!(Parser::new(&tokens).parse_function().is_ok());
}

#[test]
fn the_parameter_list_must_open_after_the_name() {
    for wrong in [lit(")"), lit("{"), ident("("), constant("0"), ident("void")] {
        let mut tokens = program();
        tokens[2] = wrong.clone();
        match Parser::new(&tokens).parse() {
            Err(ParseError::TokenMismatch { expected, actual }) => {
                assert_eq!(expected, lit("("));
                assert_eq!(actual, wrong);
            },
            other => panic!("{:?}", other),
        }
    }
    let tokens = vec![ident("int"), ident("main")];
    match Parser::new(&tokens).parse_function() {
        Err(ParseError::MissingToken(expected)) => assert_eq!(expected, lit("(")),
        other => panic!("{:?}", other),
    }
}

#[test]
fn a_mismatch_consumes_the_token() {
    let tokens = vec![ident("a"), ident("b"), ident("c")];
    let mut parser = Parser::new(&tokens);
    assert!(parser.expect(ident("x")).is_err());
    assert!(parser.expect(ident("b")).is_ok());
    assert!(parser.parse_exp().is_err());
    match parser.expect(ident("c")) {
        Err(ParseError::MissingToken(expected)) => assert_eq!(expected, ident("c")),
        other => panic!("{:?}", other),
    }
}

#[test]
fn keywords_are_compared_by_kind_and_text() {
    let tokens = vec![lit("int"), constant("return"), ident("Return")];
    let mut parser = Parser::new(&tokens);
    assert!(parser.expect(word_token("int")).is_err());
    assert!(parser.expect(word_token("return")).is_err());
    assert!(parser.expect(word_token("return")).is_err());
    assert_eq!(word_token("int"), ident("int"));
    assert_eq!(mark_token("("), lit("("));
}

#[test]
fn a_tree_written_by_hand_renders_as_a_parsed_one() {
    let ast = Ast {
        func: Function {
            name: "main".to_string(),
            body: Statement::Return(Exp::Constant("101".to_string())),
        },
    };
    assert_eq!(
        ast.to_string(),
        "Program(\n  Function(\n  name=\"main\",\n  body=Return(Constant(101))\n)\n)"
    );
}

#[test]
fn the_constant_is_kept_as_text() {
    let mut tokens = program();
    tokens[7] = constant("00099999999999999999999999999");
    let ast = Parser::new(&tokens).parse().unwrap();
    match ast.func.body {
        Statement::Return(Exp::Constant(value)) => {
            assert_eq!(value, "00099999999999999999999999999")
        },
    }
    assert_eq!(ast.func.name, "my_func");
}
