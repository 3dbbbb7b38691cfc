//! Arithmetic expressions: `+ - * /`, parentheses and unary `+`/`-`, compiled to
//! stack programs.
//!
//! Grammar: `expr := term (('+'|'-') term)*`, `term := factor (('*'|'/') factor)*`,
//! `factor := ('-'|'+') factor | '(' expr ')' | number`.
//!
//! An expression is read from left to right, and evaluation keeps pace with the
//! reading. A program therefore holds the operations up to the first fault of the
//! text: whoever runs it meets a division by zero that comes before the fault
//! before meeting the fault.

use vstd::prelude::*;
use vstd::string::{StrSliceExecFns, StringExecFns};

use crate::error::{ToolError, ToolErrorView};
use crate::json::Json;
use crate::text::chars_of;

verus! {

broadcast use vstd::string::group_string_axioms;

/// One operation of a stack program.
#[derive(Debug, PartialEq, Eq)]
pub enum Op {
    /// Push the number with this text: digits with at most one `.` among them.
    Push(String),
    /// Negate the top of the stack.
    Neg,
    /// Replace the two topmost numbers by their sum.
    Add,
    /// Replace the two topmost numbers by the lower one minus the upper one.
    Sub,
    /// Replace the two topmost numbers by their product.
    Mul,
    /// Replace the two topmost numbers by the lower one divided by the upper one.
    /// Fails where the upper one is zero.
    Div,
}

/// What an [`Op`] says.
pub enum OpView {
    Push(Seq<char>),
    Neg,
    Add,
    Sub,
    Mul,
    Div,
}

impl View for Op {
    type V = OpView;

    open spec fn view(&self) -> OpView {
        match self {
            Op::Push(text) => OpView::Push(text@),
            Op::Neg => OpView::Neg,
            Op::Add => OpView::Add,
            Op::Sub => OpView::Sub,
            Op::Mul => OpView::Mul,
            Op::Div => OpView::Div,
        }
    }
}

/// What a sequence of operations says.
pub open spec fn op_views(ops: Seq<Op>) -> Seq<OpView> {
    ops.map_values(|op: Op| op@)
}

/// A compiled expression: operations to run in order, and the fault of the text
/// that is met once they have all succeeded. Without a fault, the one number left
/// on the stack is the value of the expression.
#[derive(Debug, PartialEq, Eq)]
pub struct Program {
    pub ops: Vec<Op>,
    pub fault: Option<ToolError>,
}

/// What a [`Program`] says.
pub struct ProgramView {
    pub ops: Seq<OpView>,
    pub fault: Option<ToolErrorView>,
}

impl View for Program {
    type V = ProgramView;

    open spec fn view(&self) -> ProgramView {
        ProgramView {
            ops: op_views(self.ops@),
            fault: match self.fault {
                Some(error) => Some(error@),
                None => None,
            },
        }
    }
}

impl ProgramView {
    /// What an expression comes to, once its operations have been run. `top` is the
    /// JSON text of the number on top of the stack, and `None` where a division by
    /// zero stopped the run.
    pub open spec fn result(self, top: Option<Seq<char>>) -> Result<Seq<char>, ToolErrorView> {
        match (top, self.fault) {
            (None, _) => Err(ToolErrorView::ExecutionFailed("division by zero"@)),
            (Some(_), Some(fault)) => Err(fault),
            (Some(number), None) => Ok("{\"result\":"@ + number + "}"@),
        }
    }
}

impl Program {
    /// What the expression comes to, once its operations have been run. `top` is the
    /// number on top of the stack (`null` where the stack is empty), and `None` where
    /// a division by zero stopped the run.
    pub fn conclude(&self, top: Option<&Json>) -> (outcome: Result<Json, ToolError>)
        ensures
            match (outcome, self@.result(
                match top {
                    Some(number) => Some(number@),
                    None => None,
                },
            )) {
                (Ok(json), Ok(text)) => json@ == text,
                (Err(error), Err(why)) => error@ == why,
                _ => false,
            },
    {
        match top {
            None => Err(ToolError::ExecutionFailed("division by zero".to_owned())),
            Some(number) => match &self.fault {
                Some(fault) => Err(fault.clone()),
                None => {
                    let text = "{\"result\":".to_owned().concat(number.text()).concat("}");
                    Ok(Json::of_compact(text.as_str()))
                },
            },
        }
    }
}

// --- tokens ---

/// White space between tokens.
pub open spec fn is_space(c: char) -> bool {
    c == ' ' || c == '\t' || c == '\n' || c == '\x0C' || c == '\r'
}

/// A character of a number.
pub open spec fn is_number_char(c: char) -> bool {
    ('0' <= c && c <= '9') || c == '.'
}

/// One token of an expression.
enum Token {
    Number(String),
    Plus,
    Minus,
    Star,
    Slash,
    Open,
    Close,
    Other,
}

/// What a token says.
pub enum TokenView {
    /// A longest run of digits and dots.
    Number(Seq<char>),
    Plus,
    Minus,
    Star,
    Slash,
    Open,
    Close,
    /// A character that no expression contains.
    Other,
}

impl View for Token {
    type V = TokenView;

    closed spec fn view(&self) -> TokenView {
        match self {
            Token::Number(text) => TokenView::Number(text@),
            Token::Plus => TokenView::Plus,
            Token::Minus => TokenView::Minus,
            Token::Star => TokenView::Star,
            Token::Slash => TokenView::Slash,
            Token::Open => TokenView::Open,
            Token::Close => TokenView::Close,
            Token::Other => TokenView::Other,
        }
    }
}

/// The token of a character that is neither space nor part of a number.
pub open spec fn symbol(c: char) -> TokenView {
    if c == '+' {
        TokenView::Plus
    } else if c == '-' {
        TokenView::Minus
    } else if c == '*' {
        TokenView::Star
    } else if c == '/' {
        TokenView::Slash
    } else if c == '(' {
        TokenView::Open
    } else if c == ')' {
        TokenView::Close
    } else {
        TokenView::Other
    }
}

/// How many characters at the beginning of `text` belong to a number.
pub open spec fn number_len(text: Seq<char>) -> nat
    decreases text.len(),
{
    if text.len() > 0 && is_number_char(text[0]) {
        1 + number_len(text.drop_first())
    } else {
        0
    }
}

proof fn lemma_number_len(text: Seq<char>)
    ensures
        number_len(text) <= text.len(),
        forall|i: int| 0 <= i < number_len(text) ==> is_number_char(#[trigger] text[i]),
        number_len(text) < text.len() ==> !is_number_char(text[number_len(text) as int]),
    decreases text.len(),
{
    if text.len() > 0 && is_number_char(text[0]) {
        let tail = text.drop_first();
        lemma_number_len(tail);
        assert forall|i: int| 0 <= i < number_len(text) implies is_number_char(
            #[trigger] text[i],
        ) by {
            if i > 0 {
                assert(text[i] == tail[i - 1]);
            }
        }
        if number_len(text) < text.len() {
            assert(text[number_len(text) as int] == tail[number_len(tail) as int]);
        }
    }
}

/// The tokens of a text.
pub open spec fn tokens_of(text: Seq<char>) -> Seq<TokenView>
    decreases text.len(),
{
    if text.len() == 0 {
        seq![]
    } else if is_space(text[0]) {
        tokens_of(text.drop_first())
    } else if is_number_char(text[0]) {
        let n = number_len(text);
        if n <= text.len() {
            seq![TokenView::Number(text.take(n as int))] + tokens_of(text.skip(n as int))
        } else {
            seq![]
        }
    } else {
        seq![symbol(text[0])] + tokens_of(text.drop_first())
    }
}

/// What a sequence of tokens says.
spec fn token_views(tokens: Seq<Token>) -> Seq<TokenView> {
    tokens.map_values(|token: Token| token@)
}

fn symbol_token(c: char) -> (token: Token)
    ensures
        token@ == symbol(c),
{
    match c {
        '+' => Token::Plus,
        '-' => Token::Minus,
        '*' => Token::Star,
        '/' => Token::Slash,
        '(' => Token::Open,
        ')' => Token::Close,
        _ => Token::Other,
    }
}

fn space(c: char) -> (yes: bool)
    ensures
        yes == is_space(c),
{
    c == ' ' || c == '\t' || c == '\n' || c == '\x0C' || c == '\r'
}

fn number_char(c: char) -> (yes: bool)
    ensures
        yes == is_number_char(c),
{
    let code: u32 = c as u32;
    (48 <= code && code <= 57) || c == '.'
}

fn tokenize(text: &str) -> (tokens: Vec<Token>)
    ensures
        token_views(tokens@) == tokens_of(text@),
{
    let chars = chars_of(text);
    let mut tokens: Vec<Token> = Vec::new();
    let mut pos: usize = 0;
    proof {
        assert(text@.skip(0) =~= text@);
    }
    while pos < chars.len()
        invariant
            chars@ == text@,
            pos <= chars@.len(),
            tokens_of(text@) == token_views(tokens@) + tokens_of(text@.skip(pos as int)),
        decreases chars@.len() - pos,
    {
        let ghost before = token_views(tokens@);
        let ghost left = text@.skip(pos as int);
        let c: char = chars[pos];
        assert(left.drop_first() =~= text@.skip(pos + 1));
        if space(c) {
            pos = pos + 1;
        } else if number_char(c) {
            let start: usize = pos;
            proof {
                lemma_number_len(left);
            }
            while pos < chars.len() && number_char(chars[pos])
                invariant
                    chars@ == text@,
                    start <= pos <= chars@.len(),
                    left == text@.skip(start as int),
                    pos - start <= number_len(left) <= left.len(),
                    forall|i: int|
                        0 <= i < number_len(left) ==> is_number_char(#[trigger] left[i]),
                    number_len(left) < left.len() ==> !is_number_char(
                        left[number_len(left) as int],
                    ),
                decreases chars@.len() - pos,
            {
                assert(text@[pos as int] == left[pos - start]);
                pos = pos + 1;
            }
            proof {
                if pos - start < number_len(left) {
                    assert(is_number_char(left[pos - start]));
                    assert(left[pos - start] == text@[pos as int]);
                }
                assert(left.take(pos - start) =~= text@.subrange(start as int, pos as int));
                assert(left.skip(pos - start) =~= text@.skip(pos as int));
            }
            tokens.push(Token::Number(text.substring_char(start, pos).to_owned()));
            proof {
                assert(token_views(tokens@) =~= before.push(
                    TokenView::Number(left.take(pos - start)),
                ));
                assert(token_views(tokens@) + tokens_of(text@.skip(pos as int)) =~= before
                    + tokens_of(left));
            }
        } else {
            tokens.push(symbol_token(c));
            pos = pos + 1;
            proof {
                assert(token_views(tokens@) =~= before.push(symbol(c)));
                assert(token_views(tokens@) + tokens_of(text@.skip(pos as int)) =~= before
                    + tokens_of(left));
            }
        }
    }
    proof {
        assert(text@.skip(pos as int).len() == 0);
        assert(token_views(tokens@) + seq![] =~= token_views(tokens@));
    }
    tokens
}

// --- grammar ---

/// Whether a run of digits and dots is a number: it has a digit, and at most one dot.
pub open spec fn is_number(text: Seq<char>) -> bool {
    &&& exists|i: int| 0 <= i < text.len() && #[trigger] text[i] != '.'
    &&& forall|i: int, j: int|
        0 <= i < j < text.len() ==> !(#[trigger] text[i] == '.' && #[trigger] text[j] == '.')
}

/// A step of the reading: the operations so far, the tokens still to be read, and
/// the fault that stopped the reading, if one did.
pub struct Reading {
    pub ops: Seq<OpView>,
    pub rest: Seq<TokenView>,
    pub fault: Option<ToolErrorView>,
}

impl Reading {
    /// This reading continued by `next`, with `op` at the end where no fault came.
    pub open spec fn joined(self, next: Reading, op: OpView) -> Reading {
        Reading {
            ops: if next.fault is None {
                (self.ops + next.ops).push(op)
            } else {
                self.ops + next.ops
            },
            ..next
        }
    }

    /// This reading stopped by the fault `why`.
    pub open spec fn faulty(self, why: Seq<char>) -> Reading {
        Reading { fault: Some(ToolErrorView::InvalidInput(why)), ..self }
    }
}

/// Reads a factor: a signed factor, an expression in parentheses or a number.
pub open spec fn read_factor(tokens: Seq<TokenView>) -> Reading
    decreases tokens.len(), 0nat,
{
    let nothing = Reading { ops: seq![], rest: tokens, fault: None };
    if tokens.len() == 0 {
        nothing.faulty("expected a number"@)
    } else {
        let after = tokens.drop_first();
        match tokens[0] {
            TokenView::Minus => nothing.joined(read_factor(after), OpView::Neg),
            TokenView::Plus => read_factor(after),
            TokenView::Open => {
                let inner = read_expr(after);
                if inner.fault is Some {
                    inner
                } else if inner.rest.len() > 0 && inner.rest[0] is Close {
                    Reading { rest: inner.rest.drop_first(), ..inner }
                } else {
                    inner.faulty("missing ')'"@)
                }
            },
            TokenView::Number(text) => if is_number(text) {
                Reading { ops: seq![OpView::Push(text)], rest: after, fault: None }
            } else {
                nothing.faulty("invalid number"@)
            },
            _ => nothing.faulty("expected a number"@),
        }
    }
}

/// Reads a term: factors with `*` and `/` between them, grouped from the left.
pub open spec fn read_term(tokens: Seq<TokenView>) -> Reading
    decreases tokens.len(), 2nat,
{
    read_more_factors(read_factor(tokens), tokens.len())
}

/// Reads the further factors of a term of which `left` has been read. At most
/// `bound` tokens are still to be read.
pub open spec fn read_more_factors(left: Reading, bound: nat) -> Reading
    decreases bound, 1nat,
{
    if left.fault is None && 0 < left.rest.len() <= bound {
        let after = left.rest.drop_first();
        let fewer = (left.rest.len() - 1) as nat;
        match left.rest[0] {
            TokenView::Star => read_more_factors(
                left.joined(read_factor(after), OpView::Mul),
                fewer,
            ),
            TokenView::Slash => read_more_factors(
                left.joined(read_factor(after), OpView::Div),
                fewer,
            ),
            _ => left,
        }
    } else {
        left
    }
}

/// Reads an expression: terms with `+` and `-` between them, grouped from the left.
pub open spec fn read_expr(tokens: Seq<TokenView>) -> Reading
    decreases tokens.len(), 4nat,
{
    read_more_terms(read_term(tokens), tokens.len())
}

/// Reads the further terms of an expression of which `left` has been read. At most
/// `bound` tokens are still to be read.
pub open spec fn read_more_terms(left: Reading, bound: nat) -> Reading
    decreases bound, 3nat,
{
    if left.fault is None && 0 < left.rest.len() <= bound {
        let after = left.rest.drop_first();
        let fewer = (left.rest.len() - 1) as nat;
        match left.rest[0] {
            TokenView::Plus => read_more_terms(left.joined(read_term(after), OpView::Add), fewer),
            TokenView::Minus => read_more_terms(left.joined(read_term(after), OpView::Sub), fewer),
            _ => left,
        }
    } else {
        left
    }
}

/// The program of a text: one expression that takes up all of it.
pub open spec fn program_of(text: Seq<char>) -> ProgramView {
    let reading = read_expr(tokens_of(text));
    ProgramView {
        ops: reading.ops,
        fault: if reading.fault is None && reading.rest.len() > 0 {
            Some(ToolErrorView::InvalidInput("unexpected trailing input"@))
        } else {
            reading.fault
        },
    }
}

/// Reading never adds tokens, and a part that is read without a fault takes up one
/// token or more.
proof fn lemma_factor_shrinks(tokens: Seq<TokenView>)
    ensures
        read_factor(tokens).rest.len() <= tokens.len(),
        read_factor(tokens).fault is None ==> read_factor(tokens).rest.len() < tokens.len(),
    decreases tokens.len(), 0nat,
{
    if tokens.len() > 0 {
        let after = tokens.drop_first();
        match tokens[0] {
            TokenView::Minus => lemma_factor_shrinks(after),
            TokenView::Plus => lemma_factor_shrinks(after),
            TokenView::Open => lemma_expr_shrinks(after),
            _ => {},
        }
    }
}

proof fn lemma_term_shrinks(tokens: Seq<TokenView>)
    ensures
        read_term(tokens).rest.len() <= tokens.len(),
        read_term(tokens).fault is None ==> read_term(tokens).rest.len() < tokens.len(),
    decreases tokens.len(), 2nat,
{
    lemma_factor_shrinks(tokens);
    lemma_more_factors_shrinks(read_factor(tokens), tokens.len());
}

proof fn lemma_more_factors_shrinks(left: Reading, bound: nat)
    ensures
        read_more_factors(left, bound).rest.len() <= left.rest.len(),
    decreases bound, 1nat,
{
    if left.fault is None && 0 < left.rest.len() <= bound {
        let after = left.rest.drop_first();
        let fewer = (left.rest.len() - 1) as nat;
        match left.rest[0] {
            TokenView::Star => {
                lemma_factor_shrinks(after);
                lemma_more_factors_shrinks(left.joined(read_factor(after), OpView::Mul), fewer);
            },
            TokenView::Slash => {
                lemma_factor_shrinks(after);
                lemma_more_factors_shrinks(left.joined(read_factor(after), OpView::Div), fewer);
            },
            _ => {},
        }
    }
}

proof fn lemma_expr_shrinks(tokens: Seq<TokenView>)
    ensures
        read_expr(tokens).rest.len() <= tokens.len(),
        read_expr(tokens).fault is None ==> read_expr(tokens).rest.len() < tokens.len(),
    decreases tokens.len(), 4nat,
{
    lemma_term_shrinks(tokens);
    lemma_more_terms_shrinks(read_term(tokens), tokens.len());
}

proof fn lemma_more_terms_shrinks(left: Reading, bound: nat)
    ensures
        read_more_terms(left, bound).rest.len() <= left.rest.len(),
    decreases bound, 3nat,
{
    if left.fault is None && 0 < left.rest.len() <= bound {
        let after = left.rest.drop_first();
        let fewer = (left.rest.len() - 1) as nat;
        match left.rest[0] {
            TokenView::Plus => {
                lemma_term_shrinks(after);
                lemma_more_terms_shrinks(left.joined(read_term(after), OpView::Add), fewer);
            },
            TokenView::Minus => {
                lemma_term_shrinks(after);
                lemma_more_terms_shrinks(left.joined(read_term(after), OpView::Sub), fewer);
            },
            _ => {},
        }
    }
}

// --- compiler ---

/// A recursive-descent reader of tokens that emits operations as it goes.
struct Parser {
    tokens: Vec<Token>,
    pos: usize,
    ops: Vec<Op>,
}

impl Parser {
    spec fn wf(&self) -> bool {
        self.pos <= self.tokens@.len()
    }

    /// The tokens still to be read.
    spec fn rest(&self) -> Seq<TokenView> {
        token_views(self.tokens@).skip(self.pos as int)
    }

    /// Whether a step from `before` to this state, with this outcome, is `reading`.
    spec fn did(&self, before: Parser, reading: Reading, outcome: Result<(), ToolError>) -> bool {
        &&& self.wf()
        &&& self.tokens == before.tokens
        &&& op_views(self.ops@) == op_views(before.ops@) + reading.ops
        &&& match outcome {
            Ok(()) => reading.fault is None && self.rest() == reading.rest,
            Err(error) => reading.fault == Some(error@),
        }
    }

    /// Whether the next token is the one for `c`; if so, moves past it.
    fn eat(&mut self, c: char) -> (eaten: bool)
        requires
            old(self).wf(),
            symbol(c) !is Other,
        ensures
            final(self).wf(),
            final(self).tokens == old(self).tokens,
            final(self).ops == old(self).ops,
            eaten == (old(self).rest().len() > 0 && old(self).rest()[0] == symbol(c)),
            eaten ==> final(self).rest() == old(self).rest().drop_first(),
            !eaten ==> final(self).pos == old(self).pos,
    {
        if self.pos >= self.tokens.len() {
            return false;
        }
        assert(self.rest()[0] == self.tokens@[self.pos as int]@);
        let found: bool = match (&self.tokens[self.pos], c) {
            (Token::Plus, '+') => true,
            (Token::Minus, '-') => true,
            (Token::Star, '*') => true,
            (Token::Slash, '/') => true,
            (Token::Open, '(') => true,
            (Token::Close, ')') => true,
            _ => false,
        };
        if found {
            self.pos = self.pos + 1;
            assert(self.rest() =~= old(self).rest().drop_first());
        }
        found
    }

    fn emit(&mut self, op: Op)
        ensures
            final(self).tokens == old(self).tokens,
            final(self).pos == old(self).pos,
            op_views(final(self).ops@) == op_views(old(self).ops@).push(op@),
    {
        self.ops.push(op);
        assert(op_views(self.ops@) =~= op_views(old(self).ops@).push(op@));
    }

    fn expr(&mut self) -> (outcome: Result<(), ToolError>)
        requires
            old(self).wf(),
        ensures
            final(self).did(*old(self), read_expr(old(self).rest()), outcome),
        decreases old(self).rest().len(), 4nat,
    {
        let ghost start = *self;
        let ghost all = self.rest();
        proof {
            lemma_term_shrinks(all);
        }
        match self.term() {
            Ok(()) => {},
            Err(error) => return Err(error),
        }
        let ghost mut left = read_term(all);
        let ghost mut bound = all.len();
        loop
            invariant
                self.wf(),
                self.tokens == start.tokens,
                left.fault is None,
                left.rest == self.rest(),
                self.rest().len() < all.len(),
                self.rest().len() <= bound,
                op_views(self.ops@) == op_views(start.ops@) + left.ops,
                read_expr(all) == read_more_terms(left, bound),
                all == start.rest(),
                start == *old(self),
            decreases self.rest().len(),
        {
            let ghost after = left.rest.drop_first();
            if self.eat('+') {
                proof {
                    lemma_term_shrinks(after);
                }
                match self.term() {
                    Ok(()) => {},
                    Err(error) => {
                        proof {
                            let next = left.joined(read_term(after), OpView::Add);
                            assert(op_views(self.ops@) =~= op_views(start.ops@) + next.ops);
                            assert(read_more_terms(next, (left.rest.len() - 1) as nat) == next);
                        }
                        return Err(error);
                    },
                }
                self.emit(Op::Add);
                proof {
                    let next = left.joined(read_term(after), OpView::Add);
                    assert(op_views(self.ops@) =~= op_views(start.ops@) + next.ops);
                    bound = (left.rest.len() - 1) as nat;
                    left = next;
                }
            } else if self.eat('-') {
                proof {
                    lemma_term_shrinks(after);
                }
                match self.term() {
                    Ok(()) => {},
                    Err(error) => {
                        proof {
                            let next = left.joined(read_term(after), OpView::Sub);
                            assert(op_views(self.ops@) =~= op_views(start.ops@) + next.ops);
                            assert(read_more_terms(next, (left.rest.len() - 1) as nat) == next);
                        }
                        return Err(error);
                    },
                }
                self.emit(Op::Sub);
                proof {
                    let next = left.joined(read_term(after), OpView::Sub);
                    assert(op_views(self.ops@) =~= op_views(start.ops@) + next.ops);
                    bound = (left.rest.len() - 1) as nat;
                    left = next;
                }
            } else {
                return Ok(());
            }
        }
    }

    fn term(&mut self) -> (outcome: Result<(), ToolError>)
        requires
            old(self).wf(),
        ensures
            final(self).did(*old(self), read_term(old(self).rest()), outcome),
        decreases old(self).rest().len(), 2nat,
    {
        let ghost start = *self;
        let ghost all = self.rest();
        proof {
            lemma_factor_shrinks(all);
        }
        match self.factor() {
            Ok(()) => {},
            Err(error) => return Err(error),
        }
        let ghost mut left = read_factor(all);
        let ghost mut bound = all.len();
        loop
            invariant
                self.wf(),
                self.tokens == start.tokens,
                left.fault is None,
                left.rest == self.rest(),
                self.rest().len() < all.len(),
                self.rest().len() <= bound,
                op_views(self.ops@) == op_views(start.ops@) + left.ops,
                read_term(all) == read_more_factors(left, bound),
                all == start.rest(),
                start == *old(self),
            decreases self.rest().len(),
        {
            let ghost after = left.rest.drop_first();
            if self.eat('*') {
                proof {
                    lemma_factor_shrinks(after);
                }
                match self.factor() {
                    Ok(()) => {},
                    Err(error) => {
                        proof {
                            let next = left.joined(read_factor(after), OpView::Mul);
                            assert(op_views(self.ops@) =~= op_views(start.ops@) + next.ops);
                            assert(read_more_factors(next, (left.rest.len() - 1) as nat) == next);
                        }
                        return Err(error);
                    },
                }
                self.emit(Op::Mul);
                proof {
                    let next = left.joined(read_factor(after), OpView::Mul);
                    assert(op_views(self.ops@) =~= op_views(start.ops@) + next.ops);
                    bound = (left.rest.len() - 1) as nat;
                    left = next;
                }
            } else if self.eat('/') {
                proof {
                    lemma_factor_shrinks(after);
                }
                match self.factor() {
                    Ok(()) => {},
                    Err(error) => {
                        proof {
                            let next = left.joined(read_factor(after), OpView::Div);
                            assert(op_views(self.ops@) =~= op_views(start.ops@) + next.ops);
                            assert(read_more_factors(next, (left.rest.len() - 1) as nat) == next);
                        }
                        return Err(error);
                    },
                }
                self.emit(Op::Div);
                proof {
                    let next = left.joined(read_factor(after), OpView::Div);
                    assert(op_views(self.ops@) =~= op_views(start.ops@) + next.ops);
                    bound = (left.rest.len() - 1) as nat;
                    left = next;
                }
            } else {
                return Ok(());
            }
        }
    }

    fn factor(&mut self) -> (outcome: Result<(), ToolError>)
        requires
            old(self).wf(),
        ensures
            final(self).did(*old(self), read_factor(old(self).rest()), outcome),
        decreases old(self).rest().len(), 0nat,
    {
        let ghost start = *self;
        let ghost after = self.rest().drop_first();
        if self.eat('-') {
            match self.factor() {
                Ok(()) => {},
                Err(error) => {
                    assert(Seq::<OpView>::empty() + read_factor(after).ops =~= read_factor(
                        after,
                    ).ops);
                    return Err(error);
                },
            }
            self.emit(Op::Neg);
            assert(op_views(self.ops@) =~= op_views(start.ops@) + (Seq::<OpView>::empty()
                + read_factor(after).ops).push(OpView::Neg));
            return Ok(());
        }
        if self.eat('+') {
            return self.factor();
        }
        if self.eat('(') {
            match self.expr() {
                Ok(()) => {},
                Err(error) => return Err(error),
            }
            if !self.eat(')') {
                return Err(ToolError::InvalidInput("missing ')'".to_owned()));
            }
            return Ok(());
        }
        self.number()
    }

    fn number(&mut self) -> (outcome: Result<(), ToolError>)
        requires
            old(self).wf(),
            old(self).rest().len() > 0 ==> old(self).rest()[0] !is Minus && old(self).rest()[0]
                !is Plus && old(self).rest()[0] !is Open,
        ensures
            final(self).did(*old(self), read_factor(old(self).rest()), outcome),
    {
        proof {
            assert(op_views(self.ops@) + Seq::<OpView>::empty() =~= op_views(self.ops@));
        }
        if self.pos >= self.tokens.len() {
            return Err(ToolError::InvalidInput("expected a number".to_owned()));
        }
        assert(self.rest()[0] == self.tokens@[self.pos as int]@);
        let text: String = match &self.tokens[self.pos] {
            Token::Number(text) => text.clone(),
            _ => return Err(ToolError::InvalidInput("expected a number".to_owned())),
        };
        if !number_text(text.as_str()) {
            return Err(ToolError::InvalidInput("invalid number".to_owned()));
        }
        self.pos = self.pos + 1;
        assert(self.rest() =~= old(self).rest().drop_first());
        let ghost written = text@;
        self.emit(Op::Push(text));
        assert(op_views(self.ops@) =~= op_views(old(self).ops@) + seq![OpView::Push(written)]);
        Ok(())
    }
}

/// Whether a run of digits and dots is a number.
fn number_text(text: &str) -> (yes: bool)
    ensures
        yes == is_number(text@),
{
    let chars = chars_of(text);
    let mut digit: bool = false;
    let mut dot: bool = false;
    let ghost mut dot_at: int = 0;
    let mut i: usize = 0;
    while i < chars.len()
        invariant
            chars@ == text@,
            i <= chars@.len(),
            digit == (exists|k: int| 0 <= k < i && #[trigger] text@[k] != '.'),
            dot ==> 0 <= dot_at < i && text@[dot_at] == '.',
            !dot ==> forall|k: int| 0 <= k < i ==> #[trigger] text@[k] != '.',
            forall|j: int, k: int|
                0 <= j < k < i ==> !(#[trigger] text@[j] == '.' && #[trigger] text@[k] == '.'),
        decreases chars@.len() - i,
    {
        if chars[i] == '.' {
            if dot {
                assert(text@[dot_at] == '.' && text@[i as int] == '.');
                return false;
            }
            dot = true;
            proof {
                dot_at = i as int;
            }
        } else {
            digit = true;
            assert(text@[i as int] != '.');
        }
        i = i + 1;
    }
    digit
}

/// Compile a full expression and require all input to be consumed.
pub fn compile(expression: &str) -> (program: Program)
    ensures
        program@ == program_of(expression@),
{
    let tokens = tokenize(expression);
    let ghost words = token_views(tokens@);
    let mut parser = Parser { tokens, pos: 0, ops: Vec::new() };
    proof {
        assert(parser.rest() =~= words);
        assert(op_views(parser.ops@) =~= seq![]);
    }
    let outcome = parser.expr();
    proof {
        assert(op_views(parser.ops@) =~= read_expr(words).ops);
    }
    let fault: Option<ToolError> = match outcome {
        Err(error) => Some(error),
        Ok(()) => if parser.pos != parser.tokens.len() {
            Some(ToolError::InvalidInput("unexpected trailing input".to_owned()))
        } else {
            None
        },
    };
    Program { ops: parser.ops, fault }
}

} // verus!
