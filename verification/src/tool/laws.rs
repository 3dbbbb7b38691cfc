//! What the calculator makes of a text, stated over the characters of the text.

use vstd::prelude::*;

use super::arithmetic::{
    is_number, is_number_char, is_space, number_len, op_views, program_of, read_expr, read_factor,
    read_more_factors, read_more_terms, read_term, symbol, tokens_of, Op, OpView, Program,
    ProgramView, Reading, TokenView,
};
use super::builtins::CalculatorTool;
use super::grammar::{
    law_expressions_compile, lemma_expr_is_read, lemma_factor_is_term, lemma_read_expr_is_tree,
    lemma_term_is_expr, lemma_term_is_read, Tree,
};
use super::{lists, schema_views, DuplicateTool, Tool, ToolSchema, ToolSchemaView};
use crate::error::ToolErrorView;

verus! {

// --- characters and tokens ---

/// A decimal digit.
pub open spec fn is_digit(c: char) -> bool {
    '0' <= c && c <= '9'
}

/// Whether a text is made of digits alone. It may be empty.
pub open spec fn all_digits(text: Seq<char>) -> bool {
    forall|i: int| 0 <= i < text.len() ==> is_digit(#[trigger] text[i])
}

/// Whether a text is a number: digits, with a point before, after or among them, or
/// with none.
pub open spec fn number_text(text: Seq<char>) -> bool {
    ||| text.len() > 0 && all_digits(text)
    ||| exists|whole: Seq<char>, part: Seq<char>|
        #![trigger whole + seq!['.'] + part]
        all_digits(whole) && all_digits(part) && whole.len() + part.len() > 0 && text == whole
            + seq!['.'] + part
}

/// Which characters mean what: five are white space, digits and the point make up
/// numbers, six are symbols, and every other character is foreign.
pub proof fn law_characters(c: char)
    ensures
        is_space(c) <==> (c == ' ' || c == '\t' || c == '\n' || c == '\x0C' || c == '\r'),
        is_number_char(c) <==> (is_digit(c) || c == '.'),
        symbol(c) is Plus <==> c == '+',
        symbol(c) is Minus <==> c == '-',
        symbol(c) is Star <==> c == '*',
        symbol(c) is Slash <==> c == '/',
        symbol(c) is Open <==> c == '(',
        symbol(c) is Close <==> c == ')',
        !(symbol(c) is Number),
{
}

proof fn lemma_number_len_stops(a: Seq<char>, c: char, b: Seq<char>)
    requires
        !is_number_char(c),
    ensures
        number_len(a + seq![c] + b) == number_len(a),
        number_len(a) <= a.len(),
    decreases a.len(),
{
    let all = a + seq![c] + b;
    if a.len() > 0 {
        lemma_number_len_stops(a.drop_first(), c, b);
        assert(all.drop_first() =~= a.drop_first() + seq![c] + b);
    }
}

proof fn lemma_tokens_split(a: Seq<char>, c: char, b: Seq<char>)
    requires
        !is_number_char(c),
    ensures
        tokens_of(a + seq![c] + b) == tokens_of(a) + tokens_of(seq![c] + b),
    decreases a.len(),
{
    let all = a + seq![c] + b;
    if a.len() == 0 {
        assert(all =~= seq![c] + b);
        assert(Seq::<TokenView>::empty() + tokens_of(seq![c] + b) =~= tokens_of(seq![c] + b));
    } else if is_number_char(a[0]) && !is_space(a[0]) {
        let n = number_len(a) as int;
        lemma_number_len_stops(a, c, b);
        lemma_number_len_stops(a.drop_first(), c, b);
        assert(n >= 1);
        lemma_tokens_split(a.skip(n), c, b);
        assert(all.take(n) =~= a.take(n));
        assert(all.skip(n) =~= a.skip(n) + seq![c] + b);
        assert(tokens_of(all) =~= tokens_of(a) + tokens_of(seq![c] + b));
    } else {
        lemma_tokens_split(a.drop_first(), c, b);
        assert(all.drop_first() =~= a.drop_first() + seq![c] + b);
        assert(tokens_of(all) =~= tokens_of(a) + tokens_of(seq![c] + b));
    }
}

/// White space only separates: the tokens of a text with white space in it are those
/// of the parts.
pub proof fn law_white_space_separates(a: Seq<char>, c: char, b: Seq<char>)
    requires
        c == ' ' || c == '\t' || c == '\n' || c == '\x0C' || c == '\r',
    ensures
        tokens_of(a + seq![c] + b) == tokens_of(a) + tokens_of(b),
{
    lemma_tokens_split(a, c, b);
    assert((seq![c] + b).drop_first() =~= b);
}

/// Every character that is neither white space nor part of a number is a token of its
/// own, between the tokens of what stands around it.
pub proof fn law_symbols_separate(a: Seq<char>, c: char, b: Seq<char>)
    requires
        c != ' ' && c != '\t' && c != '\n' && c != '\x0C' && c != '\r',
        !is_digit(c) && c != '.',
    ensures
        tokens_of(a + seq![c] + b) == tokens_of(a) + seq![symbol(c)] + tokens_of(b),
{
    lemma_tokens_split(a, c, b);
    assert((seq![c] + b).drop_first() =~= b);
    assert(tokens_of(a) + (seq![symbol(c)] + tokens_of(b)) =~= tokens_of(a) + seq![symbol(c)]
        + tokens_of(b));
}

/// Digits and points that stand together are one token, with all of its characters.
pub proof fn law_numbers_keep_their_text(text: Seq<char>)
    requires
        text.len() > 0,
        forall|i: int| 0 <= i < text.len() ==> is_digit(#[trigger] text[i]) || text[i] == '.',
    ensures
        tokens_of(text) == seq![TokenView::Number(text)],
{
    lemma_number_len_is_all(text);
    assert(is_digit(text[0]) || text[0] == '.');
    assert(is_number_char(text[0]) && !is_space(text[0]));
    assert(text.take(text.len() as int) =~= text);
    assert(text.skip(text.len() as int).len() == 0);
    assert(tokens_of(text.skip(text.len() as int)) =~= seq![]);
    assert(seq![TokenView::Number(text)] + Seq::<TokenView>::empty() =~= seq![
        TokenView::Number(text),
    ]);
}

proof fn lemma_number_len_is_all(text: Seq<char>)
    requires
        forall|i: int| 0 <= i < text.len() ==> is_digit(#[trigger] text[i]) || text[i] == '.',
    ensures
        number_len(text) == text.len(),
    decreases text.len(),
{
    if text.len() > 0 {
        assert(is_digit(text[0]) || text[0] == '.');
        let tail = text.drop_first();
        assert forall|i: int| 0 <= i < tail.len() implies is_digit(#[trigger] tail[i]) || tail[i]
            == '.' by {
            assert(tail[i] == text[i + 1]);
        }
        lemma_number_len_is_all(tail);
    }
}

/// A run of digits and points is a number exactly when it has a digit and at most one
/// point.
pub proof fn law_numbers_have_a_digit_and_at_most_one_point(text: Seq<char>)
    requires
        forall|i: int| 0 <= i < text.len() ==> is_digit(#[trigger] text[i]) || text[i] == '.',
    ensures
        is_number(text) <==> number_text(text),
{
    if is_number(text) {
        if text.contains('.') {
            let k = text.index_of('.');
            let whole = text.take(k);
            let part = text.skip(k + 1);
            assert(text[k] == '.');
            assert(text =~= whole + seq!['.'] + part);
            let d = choose|i: int| 0 <= i < text.len() && #[trigger] text[i] != '.';
            assert(d != k);
            assert forall|i: int| 0 <= i < whole.len() implies is_digit(#[trigger] whole[i]) by {
                assert(whole[i] == text[i]);
            }
            assert forall|i: int| 0 <= i < part.len() implies is_digit(#[trigger] part[i]) by {
                assert(part[i] == text[k + 1 + i]);
            }
        } else {
            assert forall|i: int| 0 <= i < text.len() implies is_digit(#[trigger] text[i]) by {
                assert(text.contains(text[i]));
            }
        }
    }
    if number_text(text) {
        if text.len() > 0 && all_digits(text) {
            assert(is_digit(text[0]));
            assert forall|i: int, j: int| 0 <= i < j < text.len() implies !(#[trigger] text[i]
                == '.' && #[trigger] text[j] == '.') by {
                assert(is_digit(text[i]));
            }
            assert(text[0] != '.');
        } else {
            let (whole, part) = choose|whole: Seq<char>, part: Seq<char>|
                #![trigger whole + seq!['.'] + part]
                all_digits(whole) && all_digits(part) && whole.len() + part.len() > 0 && text
                    == whole + seq!['.'] + part;
            let k = whole.len() as int;
            assert forall|i: int| 0 <= i < text.len() && i != k implies (#[trigger] text[i])
                != '.' by {
                if i < k {
                    assert(text[i] == whole[i]);
                } else {
                    assert(text[i] == part[i - k - 1]);
                }
            }
            let other = if k > 0 {
                0int
            } else {
                1int
            };
            assert(text[other] != '.');
        }
    }
}

proof fn lemma_number_text_chars(text: Seq<char>)
    requires
        number_text(text),
    ensures
        text.len() > 0,
        forall|i: int| 0 <= i < text.len() ==> is_digit(#[trigger] text[i]) || text[i] == '.',
        is_number(text),
{
    if !(text.len() > 0 && all_digits(text)) {
        let (whole, part) = choose|whole: Seq<char>, part: Seq<char>|
            #![trigger whole + seq!['.'] + part]
            all_digits(whole) && all_digits(part) && whole.len() + part.len() > 0 && text == whole
                + seq!['.'] + part;
        let k = whole.len() as int;
        assert forall|i: int| 0 <= i < text.len() implies is_digit(#[trigger] text[i]) || text[i]
            == '.' by {
            if i < k {
                assert(text[i] == whole[i]);
            } else if i > k {
                assert(text[i] == part[i - k - 1]);
            }
        }
    }
    law_numbers_have_a_digit_and_at_most_one_point(text);
}

// --- expressions ---

/// Whether a text compiles without a fault.
pub open spec fn compiles(text: Seq<char>) -> bool {
    program_of(text).fault is None
}

/// A text in parentheses.
pub open spec fn in_parentheses(text: Seq<char>) -> Seq<char> {
    seq!['('] + text + seq![')']
}

/// Whether a text is a factor: a number, a factor with a sign in front, or an
/// expression in parentheses.
pub open spec fn factor_text(text: Seq<char>) -> bool
    decreases text.len(),
{
    ||| number_text(text)
    ||| text.len() > 0 && (text[0] == '-' || text[0] == '+') && factor_text(text.drop_first())
    ||| text.len() >= 2 && text == in_parentheses(text.subrange(1, text.len() - 1)) && compiles(
        text.subrange(1, text.len() - 1),
    )
}

/// Whether `op` is what the operator `c` does.
pub open spec fn operates(c: char, op: OpView) -> bool {
    ||| c == '+' && op == OpView::Add
    ||| c == '-' && op == OpView::Sub
    ||| c == '*' && op == OpView::Mul
    ||| c == '/' && op == OpView::Div
}

/// One further factor of a product: the operator in front of it, what that does, and
/// the factor.
pub struct Further {
    pub operator: char,
    pub op: OpView,
    pub factor: Seq<char>,
}

/// A product: a factor, and further factors with `*` and `/` in front.
pub open spec fn product(first: Seq<char>, rest: Seq<Further>) -> Seq<char>
    decreases rest.len(),
{
    if rest.len() == 0 {
        first
    } else {
        product(first, rest.drop_last()) + seq![rest.last().operator] + rest.last().factor
    }
}

/// The operations of a product: those of the factors, and each operator right behind
/// its factor.
pub open spec fn product_ops(first: Seq<char>, rest: Seq<Further>) -> Seq<OpView>
    decreases rest.len(),
{
    if rest.len() == 0 {
        program_of(first).ops
    } else {
        product_ops(first, rest.drop_last()) + program_of(rest.last().factor).ops + seq![
            rest.last().op,
        ]
    }
}

/// Whether these are the factors of a product.
pub open spec fn is_product(first: Seq<char>, rest: Seq<Further>) -> bool {
    &&& factor_text(first)
    &&& forall|i: int|
        0 <= i < rest.len() ==> factor_text((#[trigger] rest[i]).factor) && operates(
            rest[i].operator,
            rest[i].op,
        ) && (rest[i].operator == '*' || rest[i].operator == '/')
}

proof fn lemma_factor_compiles(text: Seq<char>, tree: Tree)
    requires
        tree.is_factor(),
        tokens_of(text) == tree.tokens(),
    ensures
        tree.is_term(),
        tree.is_expr(),
        program_of(text) == (ProgramView { ops: tree.ops(), fault: None }),
{
    lemma_factor_is_term(tree);
    lemma_term_is_expr(tree);
    law_expressions_compile(text, tree);
}

proof fn lemma_expression_tree(text: Seq<char>) -> (tree: Tree)
    requires
        compiles(text),
    ensures
        tree.is_expr(),
        tokens_of(text) == tree.tokens(),
        program_of(text).ops == tree.ops(),
{
    let tokens = tokens_of(text);
    let tree = lemma_read_expr_is_tree(tokens);
    assert(tree.tokens() + read_expr(tokens).rest =~= tree.tokens());
    tree
}

proof fn lemma_first_symbol(c: char, text: Seq<char>)
    requires
        c == '+' || c == '-' || c == '(',
    ensures
        tokens_of(seq![c] + text) == seq![symbol(c)] + tokens_of(text),
{
    assert((seq![c] + text).drop_first() =~= text);
}

proof fn lemma_tokens_in_parentheses(text: Seq<char>)
    ensures
        tokens_of(in_parentheses(text)) == seq![TokenView::Open] + (tokens_of(text) + seq![
            TokenView::Close,
        ]),
{
    let closed = text + seq![')'];
    assert(in_parentheses(text) =~= seq!['('] + closed);
    lemma_first_symbol('(', closed);
    law_symbols_separate(text, ')', seq![]);
    assert(closed =~= text + seq![')'] + seq![]);
    assert(tokens_of(closed) =~= tokens_of(text) + seq![TokenView::Close]);
}

proof fn lemma_factor_tree(text: Seq<char>) -> (tree: Tree)
    requires
        factor_text(text),
    ensures
        tree.is_factor(),
        tree.is_term(),
        tree.is_expr(),
        tokens_of(text) == tree.tokens(),
        program_of(text).ops == tree.ops(),
        compiles(text),
    decreases text.len(),
{
    let tree = if number_text(text) {
        lemma_number_text_chars(text);
        law_numbers_keep_their_text(text);
        Tree::Number(text)
    } else if text[0] == '-' && factor_text(text.drop_first()) {
        let inner = lemma_factor_tree(text.drop_first());
        assert(text =~= seq!['-'] + text.drop_first());
        lemma_first_symbol('-', text.drop_first());
        Tree::Negated(Box::new(inner))
    } else if text[0] == '+' && factor_text(text.drop_first()) {
        let inner = lemma_factor_tree(text.drop_first());
        assert(text =~= seq!['+'] + text.drop_first());
        lemma_first_symbol('+', text.drop_first());
        Tree::Signed(Box::new(inner))
    } else {
        let inside = text.subrange(1, text.len() - 1);
        let inner = lemma_expression_tree(inside);
        lemma_tokens_in_parentheses(inside);
        Tree::Grouped(Box::new(inner))
    };
    lemma_factor_compiles(text, tree);
    tree
}

proof fn lemma_product_tree(first: Seq<char>, rest: Seq<Further>) -> (tree: Tree)
    requires
        is_product(first, rest),
    ensures
        tree.is_term(),
        tokens_of(product(first, rest)) == tree.tokens(),
        tree.ops() == product_ops(first, rest),
    decreases rest.len(),
{
    if rest.len() == 0 {
        lemma_factor_tree(first)
    } else {
        let last = rest.last();
        assert(last == rest[rest.len() - 1]);
        let before = rest.drop_last();
        assert(is_product(first, before)) by {
            assert forall|i: int| 0 <= i < before.len() implies factor_text(
                (#[trigger] before[i]).factor,
            ) && operates(before[i].operator, before[i].op) && (before[i].operator == '*'
                || before[i].operator == '/') by {
                assert(before[i] == rest[i]);
            }
        }
        let left = lemma_product_tree(first, before);
        let right = lemma_factor_tree(last.factor);
        law_symbols_separate(product(first, before), last.operator, last.factor);
        let tree = if last.operator == '*' {
            Tree::Product(Box::new(left), Box::new(right))
        } else {
            Tree::Quotient(Box::new(left), Box::new(right))
        };
        assert(tokens_of(product(first, rest)) =~= tree.tokens());
        assert(tree.ops() =~= product_ops(first, rest));
        tree
    }
}

/// A number compiles to being pushed, with its own text.
pub proof fn law_a_number_is_pushed(text: Seq<char>)
    requires
        number_text(text),
    ensures
        program_of(text) == (ProgramView { ops: seq![OpView::Push(text)], fault: None }),
{
    lemma_number_text_chars(text);
    law_numbers_keep_their_text(text);
    lemma_factor_compiles(text, Tree::Number(text));
}

/// Parentheses add no operation of their own.
pub proof fn law_parentheses_group(text: Seq<char>)
    requires
        compiles(text),
    ensures
        program_of(in_parentheses(text)) == program_of(text),
{
    let inner = lemma_expression_tree(text);
    lemma_tokens_in_parentheses(text);
    lemma_factor_compiles(in_parentheses(text), Tree::Grouped(Box::new(inner)));
}

/// A minus sign in front of a factor negates it; a plus sign changes nothing.
pub proof fn law_signs(factor: Seq<char>)
    requires
        factor_text(factor),
    ensures
        program_of(seq!['-'] + factor) == (ProgramView {
            ops: program_of(factor).ops + seq![OpView::Neg],
            fault: None,
        }),
        program_of(seq!['+'] + factor) == program_of(factor),
{
    let inner = lemma_factor_tree(factor);
    lemma_first_symbol('-', factor);
    lemma_first_symbol('+', factor);
    lemma_factor_compiles(seq!['-'] + factor, Tree::Negated(Box::new(inner)));
    lemma_factor_compiles(seq!['+'] + factor, Tree::Signed(Box::new(inner)));
    assert(inner.ops().push(OpView::Neg) =~= inner.ops() + seq![OpView::Neg]);
}

/// Products are computed from left to right: each `*` and `/` takes all that stands
/// before it and the one factor behind it.
pub proof fn law_products_group_to_the_left(first: Seq<char>, rest: Seq<Further>)
    requires
        is_product(first, rest),
    ensures
        program_of(product(first, rest)) == (ProgramView {
            ops: product_ops(first, rest),
            fault: None,
        }),
{
    let tree = lemma_product_tree(first, rest);
    lemma_term_is_expr(tree);
    law_expressions_compile(product(first, rest), tree);
}

/// `+` and `-` bind least and group to the left: each takes the whole expression
/// before it and the whole product behind it.
pub proof fn law_sums_group_to_the_left(
    before: Seq<char>,
    operator: char,
    op: OpView,
    first: Seq<char>,
    rest: Seq<Further>,
)
    requires
        compiles(before),
        operator == '+' || operator == '-',
        operates(operator, op),
        is_product(first, rest),
    ensures
        program_of(before + seq![operator] + product(first, rest)) == (ProgramView {
            ops: program_of(before).ops + product_ops(first, rest) + seq![op],
            fault: None,
        }),
{
    let text = before + seq![operator] + product(first, rest);
    let left = lemma_expression_tree(before);
    let right = lemma_product_tree(first, rest);
    law_symbols_separate(before, operator, product(first, rest));
    let tree = if operator == '+' {
        Tree::Sum(Box::new(left), Box::new(right))
    } else {
        Tree::Difference(Box::new(left), Box::new(right))
    };
    assert(tokens_of(text) =~= tree.tokens());
    law_expressions_compile(text, tree);
    assert(tree.ops() =~= program_of(before).ops + product_ops(first, rest) + seq![op]);
}

// --- faults ---

/// A text without tokens lacks a number.
pub proof fn law_nothing_is_no_expression()
    ensures
        program_of(seq![]) == (ProgramView {
            ops: seq![],
            fault: Some(ToolErrorView::InvalidInput("expected a number"@)),
        }),
{
    let none = Seq::<TokenView>::empty();
    let nothing = Reading { ops: seq![], rest: none, fault: None };
    let first = nothing.faulty("expected a number"@);
    assert(read_factor(none) == first);
    assert(read_term(none) == first);
    assert(read_expr(none) == first);
}

/// A sum that breaks off behind its operator lacks a number, once all before it has
/// been computed.
pub proof fn law_sums_need_a_second_operand(before: Seq<char>, operator: char)
    requires
        compiles(before),
        operator == '+' || operator == '-',
    ensures
        program_of(before + seq![operator]) == (ProgramView {
            ops: program_of(before).ops,
            fault: Some(ToolErrorView::InvalidInput("expected a number"@)),
        }),
{
    let tree = lemma_expression_tree(before);
    let sign = symbol(operator);
    let rest = seq![sign];
    assert(before + seq![operator] =~= before + seq![operator] + seq![]);
    law_symbols_separate(before, operator, seq![]);
    assert(tokens_of(before + seq![operator]) =~= tree.tokens() + rest);
    lemma_expr_is_read(tree, rest);
    let none = Seq::<TokenView>::empty();
    assert(rest.drop_first() =~= none);
    let nothing = Reading { ops: seq![], rest: none, fault: None };
    let missing = nothing.faulty("expected a number"@);
    assert(read_factor(none) == missing);
    assert(read_term(none) == missing);
    let left = Reading { ops: tree.ops(), rest, fault: None };
    let op = if operator == '+' {
        OpView::Add
    } else {
        OpView::Sub
    };
    let next = left.joined(missing, op);
    assert(tree.ops() + Seq::<OpView>::empty() =~= tree.ops());
    assert(read_more_terms(next, 0) == next);
    assert(read_more_terms(left, 1) == next);
}

/// A product that breaks off behind its operator lacks a number, once all before it
/// has been computed.
pub proof fn law_products_need_a_second_operand(
    first: Seq<char>,
    rest: Seq<Further>,
    operator: char,
)
    requires
        is_product(first, rest),
        operator == '*' || operator == '/',
    ensures
        program_of(product(first, rest) + seq![operator]) == (ProgramView {
            ops: product_ops(first, rest),
            fault: Some(ToolErrorView::InvalidInput("expected a number"@)),
        }),
{
    let text = product(first, rest) + seq![operator];
    let tree = lemma_product_tree(first, rest);
    let left_over = seq![symbol(operator)];
    assert(text =~= text + seq![]);
    law_symbols_separate(product(first, rest), operator, seq![]);
    assert(tokens_of(text) =~= tree.tokens() + left_over);
    lemma_term_is_read(tree, left_over);
    let none = Seq::<TokenView>::empty();
    assert(left_over.drop_first() =~= none);
    let nothing = Reading { ops: seq![], rest: none, fault: None };
    let missing = nothing.faulty("expected a number"@);
    assert(read_factor(none) == missing);
    let left = Reading { ops: tree.ops(), rest: left_over, fault: None };
    let op = if operator == '*' {
        OpView::Mul
    } else {
        OpView::Div
    };
    let next = left.joined(missing, op);
    assert(tree.ops() + Seq::<OpView>::empty() =~= tree.ops());
    assert(read_more_factors(next, 0) == next);
    assert(read_more_factors(left, 1) == next);
    assert(read_more_terms(next, tokens_of(text).len()) == next);
}

/// A parenthesis that is never closed is missed at the end, once all inside has been
/// computed.
pub proof fn law_parentheses_must_close(text: Seq<char>)
    requires
        compiles(text),
    ensures
        program_of(seq!['('] + text) == (ProgramView {
            ops: program_of(text).ops,
            fault: Some(ToolErrorView::InvalidInput("missing ')'"@)),
        }),
{
    let tree = lemma_expression_tree(text);
    lemma_first_symbol('(', text);
    let tokens = tokens_of(seq!['('] + text);
    assert(tokens.drop_first() =~= tree.tokens());
    lemma_expr_is_read(tree, seq![]);
    assert(tree.tokens() + Seq::<TokenView>::empty() =~= tree.tokens());
    let inner = read_expr(tree.tokens());
    assert(inner == Reading { ops: tree.ops(), rest: seq![], fault: None });
    let stopped = inner.faulty("missing ')'"@);
    assert(read_factor(tokens) == stopped);
    assert(read_more_factors(stopped, tokens.len()) == stopped);
    assert(read_more_terms(stopped, tokens.len()) == stopped);
}

/// What cannot go on an expression is left over behind it: a closing parenthesis, an
/// opening one, or a foreign character, whatever follows.
pub proof fn law_expressions_take_up_all_of_the_text(
    before: Seq<char>,
    c: char,
    after: Seq<char>,
)
    requires
        compiles(before),
        c != ' ' && c != '\t' && c != '\n' && c != '\x0C' && c != '\r',
        !is_digit(c) && c != '.',
        c != '+' && c != '-' && c != '*' && c != '/',
    ensures
        program_of(before + seq![c] + after) == (ProgramView {
            ops: program_of(before).ops,
            fault: Some(ToolErrorView::InvalidInput("unexpected trailing input"@)),
        }),
{
    let text = before + seq![c] + after;
    let tree = lemma_expression_tree(before);
    law_symbols_separate(before, c, after);
    let rest = seq![symbol(c)] + tokens_of(after);
    assert(tokens_of(text) =~= tree.tokens() + rest);
    lemma_expr_is_read(tree, rest);
    let left = Reading { ops: tree.ops(), rest, fault: None };
    assert(read_more_terms(left, rest.len()) == left);
}

/// A text that starts with what no operand starts with lacks a number.
pub proof fn law_operands_start_expressions(c: char, after: Seq<char>)
    requires
        c != ' ' && c != '\t' && c != '\n' && c != '\x0C' && c != '\r',
        !is_digit(c) && c != '.',
        c != '+' && c != '-' && c != '(',
    ensures
        program_of(seq![c] + after) == (ProgramView {
            ops: seq![],
            fault: Some(ToolErrorView::InvalidInput("expected a number"@)),
        }),
{
    let tokens = tokens_of(seq![c] + after);
    assert((seq![c] + after)[0] == c);
    let nothing = Reading { ops: seq![], rest: tokens, fault: None };
    let stopped = nothing.faulty("expected a number"@);
    assert(tokens[0] == symbol(c));
    assert(read_factor(tokens) == stopped);
    assert(read_more_factors(stopped, tokens.len()) == stopped);
    assert(read_more_terms(stopped, tokens.len()) == stopped);
}

/// A run of digits and points that is no number is a fault.
pub proof fn law_bad_numbers_are_faults(text: Seq<char>)
    requires
        text.len() > 0,
        forall|i: int| 0 <= i < text.len() ==> is_digit(#[trigger] text[i]) || text[i] == '.',
        !number_text(text),
    ensures
        program_of(text) == (ProgramView {
            ops: seq![],
            fault: Some(ToolErrorView::InvalidInput("invalid number"@)),
        }),
{
    law_numbers_keep_their_text(text);
    law_numbers_have_a_digit_and_at_most_one_point(text);
    let tokens = tokens_of(text);
    let nothing = Reading { ops: seq![], rest: tokens, fault: None };
    let stopped = nothing.faulty("invalid number"@);
    assert(read_factor(tokens) == stopped);
    assert(read_more_factors(stopped, tokens.len()) == stopped);
    assert(read_more_terms(stopped, tokens.len()) == stopped);
}

/// A division by zero comes before any fault of the text, a fault before any result,
/// and a result is the number on top of the stack.
pub proof fn law_what_a_program_comes_to(program: ProgramView, number: Seq<char>)
    ensures
        program.result(None) == Err::<Seq<char>, ToolErrorView>(
            ToolErrorView::ExecutionFailed("division by zero"@),
        ),
        program.fault matches Some(fault) ==> program.result(Some(number)) == Err::<
            Seq<char>,
            ToolErrorView,
        >(fault),
        program.fault is None ==> program.result(Some(number)) == Ok::<Seq<char>, ToolErrorView>(
            "{\"result\":"@ + number + "}"@,
        ),
{
}

// --- listings ---

/// A listing advertises of each tool what the tool says of itself, in the order of
/// the names.
pub proof fn law_listings_tell_what_tools_say<T: Tool>(
    schemas: Seq<ToolSchemaView>,
    tools: Map<Seq<char>, T>,
    i: int,
)
    requires
        lists(schemas, tools),
        0 <= i < schemas.len(),
    ensures
        tools.contains_key(schemas[i].name),
        schemas[i].name == tools[schemas[i].name].name_text(),
        schemas[i].description == tools[schemas[i].name].description_text(),
        schemas[i].parameters == tools[schemas[i].name].parameters_text(),
{
}

/// Every tool is listed.
pub proof fn law_listings_are_complete<T: Tool>(
    schemas: Seq<ToolSchemaView>,
    tools: Map<Seq<char>, T>,
    name: Seq<char>,
)
    requires
        lists(schemas, tools),
        tools.contains_key(name),
    ensures
        exists|i: int| 0 <= i < schemas.len() && (#[trigger] schemas[i]).name == name,
{
}

/// The views of schemas keep everything that they hold, each at its place.
pub proof fn law_schema_views(schema: ToolSchema, schemas: Seq<ToolSchema>)
    ensures
        schema@.name == schema.name@,
        schema@.description == schema.description@,
        schema@.parameters == schema.parameters@,
        schema_views(schemas).len() == schemas.len(),
        forall|i: int| 0 <= i < schemas.len() ==> #[trigger] schema_views(schemas)[i] == schemas[i]@,
{
}

/// The views of programs keep every operation at its place, and the fault.
pub proof fn law_program_views(program: Program, op: Op, ops: Seq<Op>)
    ensures
        op matches Op::Push(text) ==> op@ == OpView::Push(text@),
        op matches Op::Neg ==> op@ == OpView::Neg,
        op matches Op::Add ==> op@ == OpView::Add,
        op matches Op::Sub ==> op@ == OpView::Sub,
        op matches Op::Mul ==> op@ == OpView::Mul,
        op matches Op::Div ==> op@ == OpView::Div,
        op_views(ops).len() == ops.len(),
        forall|i: int| 0 <= i < ops.len() ==> #[trigger] op_views(ops)[i] == ops[i]@,
        program@.ops == op_views(program.ops@),
        program@.fault is Some <==> program.fault is Some,
        program.fault matches Some(fault) ==> program@.fault == Some(fault@),
{
}

/// How the calculator presents itself to the model, and how a name that is taken is
/// reported.
pub proof fn law_the_calculator_presents_itself(calculator: CalculatorTool, name: Seq<char>)
    ensures
        calculator.name_text() == "calculator"@,
        calculator.description_text()
            == "Evaluate a basic arithmetic expression (supports + - * /, parentheses)."@,
        calculator.parameters_text()
            == "{\"properties\":{\"expression\":{\"description\":\"An arithmetic expression, e.g. \\\"2 + 3 * (4 - 1)\\\"\",\"type\":\"string\"}},\"required\":[\"expression\"],\"type\":\"object\"}"@,
        DuplicateTool::text(name) == "a tool named '"@ + name + "' is already registered"@,
{
}

} // verus!
