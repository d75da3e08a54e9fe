use lib::inject::{script_macros, Site};
use lib::tokens::{macro_tokens, TokKind};
use lib::inject::Site::{Call, Def};
use lib::tokens::TokKind::{Close, Ident, Literal, Open, Punct};

fn summary(rules: &str) -> Vec<(TokKind, String, Site)> {
    macro_tokens(rules).into_iter().map(|t| (t.kind, t.text, t.site)).collect()
}

fn tok(kind: TokKind, text: &str, site: Site) -> (TokKind, String, Site) {
    (kind, text.to_string(), site)
}

#[test]
fn printf_rules_tokens() {
    let expected = vec![
        tok(Open, "(", Def),
        tok(Punct, "$", Def),
        tok(Open, "(", Def),
        tok(Punct, "$", Def),
        tok(Ident, "arg", Def),
        tok(Punct, ":", Def),
        tok(Ident, "tt", Def),
        tok(Close, ")", Def),
        tok(Punct, "*", Def),
        tok(Close, ")", Def),
        tok(Punct, "=>", Def),
        tok(Open, "{", Def),
        tok(Ident, "println", Call),
        tok(Punct, "!", Def),
        tok(Open, "(", Def),
        tok(Punct, "$", Def),
        tok(Open, "(", Def),
        tok(Punct, "$", Def),
        tok(Ident, "arg", Def),
        tok(Close, ")", Def),
        tok(Punct, "*", Def),
        tok(Close, ")", Def),
        tok(Close, "}", Def),
        tok(Punct, ";", Def),
    ];
    assert_eq!(summary("($($arg:tt)*) => { println!($($arg)*) };"), expected);
}

#[test]
fn literals_paths_and_whitespace() {
    assert_eq!(
        summary("std::any::type_name_of_val(&$e)"),
        vec![
            tok(Ident, "std", Call),
            tok(Punct, "::", Call),
            tok(Ident, "any", Call),
            tok(Punct, "::", Call),
            tok(Ident, "type_name_of_val", Call),
            tok(Open, "(", Def),
            tok(Punct, "&", Def),
            tok(Punct, "$", Def),
            tok(Ident, "e", Def),
            tok(Close, ")", Def),
        ]
    );
    assert_eq!(
        summary("  print!(\" {:?}\", $rest)\n\texit(0)"),
        vec![
            tok(Ident, "print", Call),
            tok(Punct, "!", Def),
            tok(Open, "(", Def),
            tok(Literal, "\" {:?}\"", Def),
            tok(Punct, ",", Def),
            tok(Punct, "$", Def),
            tok(Ident, "rest", Def),
            tok(Close, ")", Def),
            tok(Ident, "exit", Call),
            tok(Open, "(", Def),
            tok(Literal, "0", Def),
            tok(Close, ")", Def),
        ]
    );
}

#[test]
fn edge_cases_of_the_lexer() {
    assert!(macro_tokens("").is_empty());
    assert!(macro_tokens(" \n\t ").is_empty());
    assert_eq!(summary("\"open"), vec![tok(Literal, "\"open", Def)]);
    assert_eq!(summary("a1_b 42x"), vec![
        tok(Ident, "a1_b", Def),
        tok(Literal, "42", Def),
        tok(Ident, "x", Def),
    ]);
    assert_eq!(summary("= > :"), vec![tok(Punct, "=", Def), tok(Punct, ">", Def), tok(Punct, ":", Def)]);
}

#[test]
fn every_helper_macro_has_balanced_groups() {
    for m in script_macros() {
        let mut depth: i32 = 0;
        for t in macro_tokens(m.rules) {
            match t.kind {
                TokKind::Open => depth += 1,
                TokKind::Close => depth -= 1,
                _ => {}
            }
            assert!(depth >= 0, "{}", m.name);
        }
        assert_eq!(depth, 0, "{}", m.name);
    }
}

#[test]
fn joining_marks_follow_the_name_they_join() {
    assert_eq!(
        summary("let __s: String = $e.into();"),
        vec![
            tok(Ident, "let", Def),
            tok(Ident, "__s", Def),
            tok(Punct, ":", Def),
            tok(Ident, "String", Call),
            tok(Punct, "=", Def),
            tok(Punct, "$", Def),
            tok(Ident, "e", Def),
            tok(Punct, ".", Call),
            tok(Ident, "into", Call),
            tok(Open, "(", Def),
            tok(Close, ")", Def),
            tok(Punct, ";", Def),
        ]
    );
    assert_eq!(
        summary("(&$cond).is_truthy()"),
        vec![
            tok(Open, "(", Def),
            tok(Punct, "&", Def),
            tok(Punct, "$", Def),
            tok(Ident, "cond", Def),
            tok(Close, ")", Def),
            tok(Punct, ".", Def),
            tok(Ident, "is_truthy", Call),
            tok(Open, "(", Def),
            tok(Close, ")", Def),
        ]
    );
    assert_eq!(summary("a::b"), vec![tok(Ident, "a", Def), tok(Punct, "::", Def), tok(Ident, "b", Def)]);
    assert_eq!(summary(".into"), vec![tok(Punct, ".", Def), tok(Ident, "into", Call)]);
}
