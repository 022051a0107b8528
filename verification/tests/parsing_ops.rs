//! Parser tests for the prefix, postfix and infix operators and for
//! operator precedence, checked against the rendered syntax tree.

use tantalum::lexer::Lexer;
use tantalum::parser::{
    consume_infix_op, consume_postfix_op, consume_prefix_op, expression, skip_whitespace, Parser,
};
use tantalum::source::SourceFileCollection;
use tantalum::syntax::{PrettyPrint, SyntaxKind};

fn parse_with<F: FnOnce(&mut Parser)>(name: &str, source: &str, parse: F) -> String {
    let mut files = SourceFileCollection::new();
    let id = files.add_file(name.to_string(), source.to_string());
    let source_file = files.get_file(id).expect("file was just added");
    let mut parser = Parser::new(Lexer::new(source_file));
    parse(&mut parser);
    let tree = parser.finish();
    tree.pretty_print(0, &files)
}

#[test]
fn infix_operators() {
    let result = parse_with("operators", "* / % + - << >> < <= > >= == != & ^ | && || =", |p| {
        let open = p.open(SyntaxKind::File);
        while !p.at_end() {
            skip_whitespace(p);
            let _ = consume_infix_op(p).expect("expected infix operator");
            skip_whitespace(p);
        }
        let _ = p.close(open);
    });
    let expected = "File @ #0 0..45
  Star @ #0 0..1 \"*\"
  Whitespace @ #0 1..2 \" \"
  Slash @ #0 2..3 \"/\"
  Whitespace @ #0 3..4 \" \"
  Percent @ #0 4..5 \"%\"
  Whitespace @ #0 5..6 \" \"
  Plus @ #0 6..7 \"+\"
  Whitespace @ #0 7..8 \" \"
  Minus @ #0 8..9 \"-\"
  Whitespace @ #0 9..10 \" \"
  ShiftLeft @ #0 10..12 \"<<\"
  Whitespace @ #0 12..13 \" \"
  ShiftRight @ #0 13..15 \">>\"
  Whitespace @ #0 15..16 \" \"
  LAngle @ #0 16..17 \"<\"
  Whitespace @ #0 17..18 \" \"
  LessThanOrEqual @ #0 18..20 \"<=\"
  Whitespace @ #0 20..21 \" \"
  RAngle @ #0 21..22 \">\"
  Whitespace @ #0 22..23 \" \"
  GreaterThanOrEqual @ #0 23..25 \">=\"
  Whitespace @ #0 25..26 \" \"
  Equality @ #0 26..28 \"==\"
  Whitespace @ #0 28..29 \" \"
  Inequality @ #0 29..31 \"!=\"
  Whitespace @ #0 31..32 \" \"
  Ampersand @ #0 32..33 \"&\"
  Whitespace @ #0 33..34 \" \"
  Caret @ #0 34..35 \"^\"
  Whitespace @ #0 35..36 \" \"
  Pipe @ #0 36..37 \"|\"
  Whitespace @ #0 37..38 \" \"
  And @ #0 38..40 \"&&\"
  Whitespace @ #0 40..41 \" \"
  Or @ #0 41..43 \"||\"
  Whitespace @ #0 43..44 \" \"
  Equals @ #0 44..45 \"=\"
";
    assert_eq!(result, expected);
}

#[test]
fn precedence() {
    let result = parse_with("precedence", "1 + 2 * 3 1 * 2 + 3 1 + 2 >> 3 1 >> 2 + 3 1 <= 2 << 3 1 << 2 <= 3 1 <= 2 == 3 1 == 2 <= 3 1 == 2 & 3 1 & 2 == 3 1 & 2 ^ 3 1 ^ 2 & 3 1 ^ 2 | 3 1 | 2 ^ 3 1 | 2 && 3 1 && 2 | 3 1 && 2 || 3 1 || 2 && 3 1 || 2 = 3 1 = 2 || 3", |p| {
        let open = p.open(SyntaxKind::File);
        while !p.at_end() {
            let _ = expression(p);
        }
        let _ = p.close(open);
    });
    let expected = "File @ #0 0..219
  BinaryExpression @ #0 0..10
    Literal @ #0 0..1
      IntegerLiteral @ #0 0..1 \"1\"
    Whitespace @ #0 1..2 \" \"
    Plus @ #0 2..3 \"+\"
    Whitespace @ #0 3..4 \" \"
    BinaryExpression @ #0 4..10
      Literal @ #0 4..5
        IntegerLiteral @ #0 4..5 \"2\"
      Whitespace @ #0 5..6 \" \"
      Star @ #0 6..7 \"*\"
      Whitespace @ #0 7..8 \" \"
      Literal @ #0 8..9
        IntegerLiteral @ #0 8..9 \"3\"
      Whitespace @ #0 9..10 \" \"
  BinaryExpression @ #0 10..20
    BinaryExpression @ #0 10..16
      Literal @ #0 10..11
        IntegerLiteral @ #0 10..11 \"1\"
      Whitespace @ #0 11..12 \" \"
      Star @ #0 12..13 \"*\"
      Whitespace @ #0 13..14 \" \"
      Literal @ #0 14..15
        IntegerLiteral @ #0 14..15 \"2\"
      Whitespace @ #0 15..16 \" \"
    Plus @ #0 16..17 \"+\"
    Whitespace @ #0 17..18 \" \"
    Literal @ #0 18..19
      IntegerLiteral @ #0 18..19 \"3\"
    Whitespace @ #0 19..20 \" \"
  BinaryExpression @ #0 20..31
    BinaryExpression @ #0 20..26
      Literal @ #0 20..21
        IntegerLiteral @ #0 20..21 \"1\"
      Whitespace @ #0 21..22 \" \"
      Plus @ #0 22..23 \"+\"
      Whitespace @ #0 23..24 \" \"
      Literal @ #0 24..25
        IntegerLiteral @ #0 24..25 \"2\"
      Whitespace @ #0 25..26 \" \"
    ShiftRight @ #0 26..28 \">>\"
    Whitespace @ #0 28..29 \" \"
    Literal @ #0 29..30
      IntegerLiteral @ #0 29..30 \"3\"
    Whitespace @ #0 30..31 \" \"
  BinaryExpression @ #0 31..42
    Literal @ #0 31..32
      IntegerLiteral @ #0 31..32 \"1\"
    Whitespace @ #0 32..33 \" \"
    ShiftRight @ #0 33..35 \">>\"
    Whitespace @ #0 35..36 \" \"
    BinaryExpression @ #0 36..42
      Literal @ #0 36..37
        IntegerLiteral @ #0 36..37 \"2\"
      Whitespace @ #0 37..38 \" \"
      Plus @ #0 38..39 \"+\"
      Whitespace @ #0 39..40 \" \"
      Literal @ #0 40..41
        IntegerLiteral @ #0 40..41 \"3\"
      Whitespace @ #0 41..42 \" \"
  BinaryExpression @ #0 42..54
    Literal @ #0 42..43
      IntegerLiteral @ #0 42..43 \"1\"
    Whitespace @ #0 43..44 \" \"
    LessThanOrEqual @ #0 44..46 \"<=\"
    Whitespace @ #0 46..47 \" \"
    BinaryExpression @ #0 47..54
      Literal @ #0 47..48
        IntegerLiteral @ #0 47..48 \"2\"
      Whitespace @ #0 48..49 \" \"
      ShiftLeft @ #0 49..51 \"<<\"
      Whitespace @ #0 51..52 \" \"
      Literal @ #0 52..53
        IntegerLiteral @ #0 52..53 \"3\"
      Whitespace @ #0 53..54 \" \"
  BinaryExpression @ #0 54..66
    BinaryExpression @ #0 54..61
      Literal @ #0 54..55
        IntegerLiteral @ #0 54..55 \"1\"
      Whitespace @ #0 55..56 \" \"
      ShiftLeft @ #0 56..58 \"<<\"
      Whitespace @ #0 58..59 \" \"
      Literal @ #0 59..60
        IntegerLiteral @ #0 59..60 \"2\"
      Whitespace @ #0 60..61 \" \"
    LessThanOrEqual @ #0 61..63 \"<=\"
    Whitespace @ #0 63..64 \" \"
    Literal @ #0 64..65
      IntegerLiteral @ #0 64..65 \"3\"
    Whitespace @ #0 65..66 \" \"
  BinaryExpression @ #0 66..78
    BinaryExpression @ #0 66..73
      Literal @ #0 66..67
        IntegerLiteral @ #0 66..67 \"1\"
      Whitespace @ #0 67..68 \" \"
      LessThanOrEqual @ #0 68..70 \"<=\"
      Whitespace @ #0 70..71 \" \"
      Literal @ #0 71..72
        IntegerLiteral @ #0 71..72 \"2\"
      Whitespace @ #0 72..73 \" \"
    Equality @ #0 73..75 \"==\"
    Whitespace @ #0 75..76 \" \"
    Literal @ #0 76..77
      IntegerLiteral @ #0 76..77 \"3\"
    Whitespace @ #0 77..78 \" \"
  BinaryExpression @ #0 78..90
    Literal @ #0 78..79
      IntegerLiteral @ #0 78..79 \"1\"
    Whitespace @ #0 79..80 \" \"
    Equality @ #0 80..82 \"==\"
    Whitespace @ #0 82..83 \" \"
    BinaryExpression @ #0 83..90
      Literal @ #0 83..84
        IntegerLiteral @ #0 83..84 \"2\"
      Whitespace @ #0 84..85 \" \"
      LessThanOrEqual @ #0 85..87 \"<=\"
      Whitespace @ #0 87..88 \" \"
      Literal @ #0 88..89
        IntegerLiteral @ #0 88..89 \"3\"
      Whitespace @ #0 89..90 \" \"
  BinaryExpression @ #0 90..101
    BinaryExpression @ #0 90..97
      Literal @ #0 90..91
        IntegerLiteral @ #0 90..91 \"1\"
      Whitespace @ #0 91..92 \" \"
      Equality @ #0 92..94 \"==\"
      Whitespace @ #0 94..95 \" \"
      Literal @ #0 95..96
        IntegerLiteral @ #0 95..96 \"2\"
      Whitespace @ #0 96..97 \" \"
    Ampersand @ #0 97..98 \"&\"
    Whitespace @ #0 98..99 \" \"
    Literal @ #0 99..100
      IntegerLiteral @ #0 99..100 \"3\"
    Whitespace @ #0 100..101 \" \"
  BinaryExpression @ #0 101..112
    Literal @ #0 101..102
      IntegerLiteral @ #0 101..102 \"1\"
    Whitespace @ #0 102..103 \" \"
    Ampersand @ #0 103..104 \"&\"
    Whitespace @ #0 104..105 \" \"
    BinaryExpression @ #0 105..112
      Literal @ #0 105..106
        IntegerLiteral @ #0 105..106 \"2\"
      Whitespace @ #0 106..107 \" \"
      Equality @ #0 107..109 \"==\"
      Whitespace @ #0 109..110 \" \"
      Literal @ #0 110..111
        IntegerLiteral @ #0 110..111 \"3\"
      Whitespace @ #0 111..112 \" \"
  BinaryExpression @ #0 112..122
    BinaryExpression @ #0 112..118
      Literal @ #0 112..113
        IntegerLiteral @ #0 112..113 \"1\"
      Whitespace @ #0 113..114 \" \"
      Ampersand @ #0 114..115 \"&\"
      Whitespace @ #0 115..116 \" \"
      Literal @ #0 116..117
        IntegerLiteral @ #0 116..117 \"2\"
      Whitespace @ #0 117..118 \" \"
    Caret @ #0 118..119 \"^\"
    Whitespace @ #0 119..120 \" \"
    Literal @ #0 120..121
      IntegerLiteral @ #0 120..121 \"3\"
    Whitespace @ #0 121..122 \" \"
  BinaryExpression @ #0 122..132
    Literal @ #0 122..123
      IntegerLiteral @ #0 122..123 \"1\"
    Whitespace @ #0 123..124 \" \"
    Caret @ #0 124..125 \"^\"
    Whitespace @ #0 125..126 \" \"
    BinaryExpression @ #0 126..132
      Literal @ #0 126..127
        IntegerLiteral @ #0 126..127 \"2\"
      Whitespace @ #0 127..128 \" \"
      Ampersand @ #0 128..129 \"&\"
      Whitespace @ #0 129..130 \" \"
      Literal @ #0 130..131
        IntegerLiteral @ #0 130..131 \"3\"
      Whitespace @ #0 131..132 \" \"
  BinaryExpression @ #0 132..142
    BinaryExpression @ #0 132..138
      Literal @ #0 132..133
        IntegerLiteral @ #0 132..133 \"1\"
      Whitespace @ #0 133..134 \" \"
      Caret @ #0 134..135 \"^\"
      Whitespace @ #0 135..136 \" \"
      Literal @ #0 136..137
        IntegerLiteral @ #0 136..137 \"2\"
      Whitespace @ #0 137..138 \" \"
    Pipe @ #0 138..139 \"|\"
    Whitespace @ #0 139..140 \" \"
    Literal @ #0 140..141
      IntegerLiteral @ #0 140..141 \"3\"
    Whitespace @ #0 141..142 \" \"
  BinaryExpression @ #0 142..152
    Literal @ #0 142..143
      IntegerLiteral @ #0 142..143 \"1\"
    Whitespace @ #0 143..144 \" \"
    Pipe @ #0 144..145 \"|\"
    Whitespace @ #0 145..146 \" \"
    BinaryExpression @ #0 146..152
      Literal @ #0 146..147
        IntegerLiteral @ #0 146..147 \"2\"
      Whitespace @ #0 147..148 \" \"
      Caret @ #0 148..149 \"^\"
      Whitespace @ #0 149..150 \" \"
      Literal @ #0 150..151
        IntegerLiteral @ #0 150..151 \"3\"
      Whitespace @ #0 151..152 \" \"
  BinaryExpression @ #0 152..163
    BinaryExpression @ #0 152..158
      Literal @ #0 152..153
        IntegerLiteral @ #0 152..153 \"1\"
      Whitespace @ #0 153..154 \" \"
      Pipe @ #0 154..155 \"|\"
      Whitespace @ #0 155..156 \" \"
      Literal @ #0 156..157
        IntegerLiteral @ #0 156..157 \"2\"
      Whitespace @ #0 157..158 \" \"
    And @ #0 158..160 \"&&\"
    Whitespace @ #0 160..161 \" \"
    Literal @ #0 161..162
      IntegerLiteral @ #0 161..162 \"3\"
    Whitespace @ #0 162..163 \" \"
  BinaryExpression @ #0 163..174
    Literal @ #0 163..164
      IntegerLiteral @ #0 163..164 \"1\"
    Whitespace @ #0 164..165 \" \"
    And @ #0 165..167 \"&&\"
    Whitespace @ #0 167..168 \" \"
    BinaryExpression @ #0 168..174
      Literal @ #0 168..169
        IntegerLiteral @ #0 168..169 \"2\"
      Whitespace @ #0 169..170 \" \"
      Pipe @ #0 170..171 \"|\"
      Whitespace @ #0 171..172 \" \"
      Literal @ #0 172..173
        IntegerLiteral @ #0 172..173 \"3\"
      Whitespace @ #0 173..174 \" \"
  BinaryExpression @ #0 174..186
    BinaryExpression @ #0 174..181
      Literal @ #0 174..175
        IntegerLiteral @ #0 174..175 \"1\"
      Whitespace @ #0 175..176 \" \"
      And @ #0 176..178 \"&&\"
      Whitespace @ #0 178..179 \" \"
      Literal @ #0 179..180
        IntegerLiteral @ #0 179..180 \"2\"
      Whitespace @ #0 180..181 \" \"
    Or @ #0 181..183 \"||\"
    Whitespace @ #0 183..184 \" \"
    Literal @ #0 184..185
      IntegerLiteral @ #0 184..185 \"3\"
    Whitespace @ #0 185..186 \" \"
  BinaryExpression @ #0 186..198
    Literal @ #0 186..187
      IntegerLiteral @ #0 186..187 \"1\"
    Whitespace @ #0 187..188 \" \"
    Or @ #0 188..190 \"||\"
    Whitespace @ #0 190..191 \" \"
    BinaryExpression @ #0 191..198
      Literal @ #0 191..192
        IntegerLiteral @ #0 191..192 \"2\"
      Whitespace @ #0 192..193 \" \"
      And @ #0 193..195 \"&&\"
      Whitespace @ #0 195..196 \" \"
      Literal @ #0 196..197
        IntegerLiteral @ #0 196..197 \"3\"
      Whitespace @ #0 197..198 \" \"
  BinaryExpression @ #0 198..209
    BinaryExpression @ #0 198..205
      Literal @ #0 198..199
        IntegerLiteral @ #0 198..199 \"1\"
      Whitespace @ #0 199..200 \" \"
      Or @ #0 200..202 \"||\"
      Whitespace @ #0 202..203 \" \"
      Literal @ #0 203..204
        IntegerLiteral @ #0 203..204 \"2\"
      Whitespace @ #0 204..205 \" \"
    Equals @ #0 205..206 \"=\"
    Whitespace @ #0 206..207 \" \"
    Literal @ #0 207..208
      IntegerLiteral @ #0 207..208 \"3\"
    Whitespace @ #0 208..209 \" \"
  BinaryExpression @ #0 209..219
    Literal @ #0 209..210
      IntegerLiteral @ #0 209..210 \"1\"
    Whitespace @ #0 210..211 \" \"
    Equals @ #0 211..212 \"=\"
    Whitespace @ #0 212..213 \" \"
    BinaryExpression @ #0 213..219
      Literal @ #0 213..214
        IntegerLiteral @ #0 213..214 \"2\"
      Whitespace @ #0 214..215 \" \"
      Or @ #0 215..217 \"||\"
      Whitespace @ #0 217..218 \" \"
      Literal @ #0 218..219
        IntegerLiteral @ #0 218..219 \"3\"
";
    assert_eq!(result, expected);
}

#[test]
fn postfix_operators() {
    let result = parse_with("operators", ".* .&", |p| {
        let open = p.open(SyntaxKind::File);
        while !p.at_end() {
            skip_whitespace(p);
            let _ = consume_postfix_op(p).expect("expected postfix operator");
            skip_whitespace(p);
        }
        let _ = p.close(open);
    });
    let expected = "File @ #0 0..5
  Deref @ #0 0..2 \".*\"
  Whitespace @ #0 2..3 \" \"
  Ref @ #0 3..5 \".&\"
";
    assert_eq!(result, expected);
}

#[test]
fn deref() {
    let result = parse_with("deref", "identifier.*", |p| {
        let _ = expression(p);
    });
    let expected = "PostfixExpression @ #0 0..12
  Variable @ #0 0..10
    Identifier @ #0 0..10 \"identifier\"
  Deref @ #0 10..12 \".*\"
";
    assert_eq!(result, expected);
}

#[test]
fn ref_deref() {
    let result = parse_with("ref_deref", "identifier.&.*", |p| {
        let _ = expression(p);
    });
    let expected = "PostfixExpression @ #0 0..14
  PostfixExpression @ #0 0..12
    Variable @ #0 0..10
      Identifier @ #0 0..10 \"identifier\"
    Ref @ #0 10..12 \".&\"
  Deref @ #0 12..14 \".*\"
";
    assert_eq!(result, expected);
}

#[test]
fn prefix_operators() {
    let result = parse_with("operators", "- !", |p| {
        let open = p.open(SyntaxKind::File);
        while !p.at_end() {
            skip_whitespace(p);
            let _ = consume_prefix_op(p);
            skip_whitespace(p);
        }
        let _ = p.close(open);
    });
    let expected = "File @ #0 0..3
  Minus @ #0 0..1 \"-\"
  Whitespace @ #0 1..2 \" \"
  Bang @ #0 2..3 \"!\"
";
    assert_eq!(result, expected);
}

#[test]
fn minus_bang() {
    let result = parse_with("operators", "- ! 5", |p| {
        let _ = expression(p);
    });
    let expected = "PrefixExpression @ #0 0..5
  Minus @ #0 0..1 \"-\"
  Whitespace @ #0 1..2 \" \"
  PrefixExpression @ #0 2..5
    Bang @ #0 2..3 \"!\"
    Whitespace @ #0 3..4 \" \"
    Literal @ #0 4..5
      IntegerLiteral @ #0 4..5 \"5\"
";
    assert_eq!(result, expected);
}

#[test]
fn bang_minus() {
    let result = parse_with("operators", "! - 5", |p| {
        let _ = expression(p);
    });
    let expected = "PrefixExpression @ #0 0..5
  Bang @ #0 0..1 \"!\"
  Whitespace @ #0 1..2 \" \"
  PrefixExpression @ #0 2..5
    Minus @ #0 2..3 \"-\"
    Whitespace @ #0 3..4 \" \"
    Literal @ #0 4..5
      IntegerLiteral @ #0 4..5 \"5\"
";
    assert_eq!(result, expected);
}
