//! What compiled arithmetic expressions are: the trees of the grammar, and the
//! laws that tie them to the programs.

use vstd::prelude::*;

use super::arithmetic::{
    is_number, program_of, read_expr, read_factor, read_more_factors, read_more_terms, read_term,
    tokens_of, OpView, Reading, TokenView,
};

verus! {

/// The tree of an arithmetic expression.
pub enum Tree {
    Number(Seq<char>),
    /// A factor with a minus sign in front.
    Negated(Box<Tree>),
    /// A factor with a plus sign in front.
    Signed(Box<Tree>),
    /// An expression in parentheses.
    Grouped(Box<Tree>),
    Product(Box<Tree>, Box<Tree>),
    Quotient(Box<Tree>, Box<Tree>),
    Sum(Box<Tree>, Box<Tree>),
    Difference(Box<Tree>, Box<Tree>),
}

impl Tree {
    /// `factor := ('-'|'+') factor | '(' expr ')' | number`.
    pub open spec fn is_factor(self) -> bool
        decreases self, 0nat,
    {
        match self {
            Tree::Number(text) => is_number(text),
            Tree::Negated(inner) => inner.is_factor(),
            Tree::Signed(inner) => inner.is_factor(),
            Tree::Grouped(inner) => inner.is_expr(),
            _ => false,
        }
    }

    /// `term := factor (('*'|'/') factor)*`.
    pub open spec fn is_term(self) -> bool
        decreases self, 1nat,
    {
        match self {
            Tree::Product(left, right) => left.is_term() && right.is_factor(),
            Tree::Quotient(left, right) => left.is_term() && right.is_factor(),
            _ => self.is_factor(),
        }
    }

    /// `expr := term (('+'|'-') term)*`.
    pub open spec fn is_expr(self) -> bool
        decreases self, 2nat,
    {
        match self {
            Tree::Sum(left, right) => left.is_expr() && right.is_term(),
            Tree::Difference(left, right) => left.is_expr() && right.is_term(),
            _ => self.is_term(),
        }
    }

    /// The tree written down.
    pub open spec fn tokens(self) -> Seq<TokenView>
        decreases self,
    {
        match self {
            Tree::Number(text) => seq![TokenView::Number(text)],
            Tree::Negated(inner) => seq![TokenView::Minus] + inner.tokens(),
            Tree::Signed(inner) => seq![TokenView::Plus] + inner.tokens(),
            Tree::Grouped(inner) => seq![TokenView::Open] + (inner.tokens()
                + seq![TokenView::Close]),
            Tree::Product(left, right) => left.tokens() + (seq![TokenView::Star] + right.tokens()),
            Tree::Quotient(left, right) => left.tokens() + (seq![TokenView::Slash]
                + right.tokens()),
            Tree::Sum(left, right) => left.tokens() + (seq![TokenView::Plus] + right.tokens()),
            Tree::Difference(left, right) => left.tokens() + (seq![TokenView::Minus]
                + right.tokens()),
        }
    }

    /// The operations that compute the tree: operands first, from left to right.
    pub open spec fn ops(self) -> Seq<OpView>
        decreases self,
    {
        match self {
            Tree::Number(text) => seq![OpView::Push(text)],
            Tree::Negated(inner) => inner.ops().push(OpView::Neg),
            Tree::Signed(inner) => inner.ops(),
            Tree::Grouped(inner) => inner.ops(),
            Tree::Product(left, right) => (left.ops() + right.ops()).push(OpView::Mul),
            Tree::Quotient(left, right) => (left.ops() + right.ops()).push(OpView::Div),
            Tree::Sum(left, right) => (left.ops() + right.ops()).push(OpView::Add),
            Tree::Difference(left, right) => (left.ops() + right.ops()).push(OpView::Sub),
        }
    }

    /// The tree fully read, with `rest` still to come.
    pub open spec fn read(self, rest: Seq<TokenView>) -> Reading {
        Reading { ops: self.ops(), rest, fault: None }
    }
}

pub(crate) proof fn lemma_factor_is_term(tree: Tree)
    requires
        tree.is_factor(),
    ensures
        tree.is_term(),
{
}

pub(crate) proof fn lemma_term_is_expr(tree: Tree)
    requires
        tree.is_term(),
    ensures
        tree.is_expr(),
{
    match tree {
        Tree::Sum(..) => {
            assert(!tree.is_factor());
        },
        Tree::Difference(..) => {
            assert(!tree.is_factor());
        },
        _ => {},
    }
}

// --- every tree is read as itself ---

/// How far the bound lies above the number of tokens left makes no difference.
proof fn lemma_factors_bound(left: Reading, bound: nat)
    requires
        left.rest.len() <= bound,
    ensures
        read_more_factors(left, bound) == read_more_factors(left, left.rest.len()),
{
}

/// How far the bound lies above the number of tokens left makes no difference.
proof fn lemma_terms_bound(left: Reading, bound: nat)
    requires
        left.rest.len() <= bound,
    ensures
        read_more_terms(left, bound) == read_more_terms(left, left.rest.len()),
{
}

proof fn lemma_factor_is_read(tree: Tree, rest: Seq<TokenView>)
    requires
        tree.is_factor(),
    ensures
        read_factor(tree.tokens() + rest) == tree.read(rest),
    decreases tree, 0nat,
{
    let all = tree.tokens() + rest;
    match tree {
        Tree::Number(text) => {
            assert(all.drop_first() =~= rest);
        },
        Tree::Negated(inner) => {
            lemma_factor_is_read(*inner, rest);
            assert(all.drop_first() =~= inner.tokens() + rest);
            assert(Seq::<OpView>::empty() + inner.ops() =~= inner.ops());
        },
        Tree::Signed(inner) => {
            lemma_factor_is_read(*inner, rest);
            assert(all.drop_first() =~= inner.tokens() + rest);
        },
        Tree::Grouped(inner) => {
            let closed = seq![TokenView::Close] + rest;
            lemma_expr_is_read(*inner, closed);
            assert(all.drop_first() =~= inner.tokens() + closed);
            assert(closed.drop_first() =~= rest);
        },
        _ => {},
    }
}

pub(crate) proof fn lemma_term_is_read(tree: Tree, rest: Seq<TokenView>)
    requires
        tree.is_term(),
    ensures
        read_term(tree.tokens() + rest) == read_more_factors(tree.read(rest), rest.len()),
    decreases tree, 1nat,
{
    let all = tree.tokens() + rest;
    match tree {
        Tree::Product(left, right) => {
            let later = seq![TokenView::Star] + right.tokens() + rest;
            lemma_term_is_read(*left, later);
            lemma_factor_is_read(*right, rest);
            assert(all =~= left.tokens() + later);
            assert(later.drop_first() =~= right.tokens() + rest);
            assert(left.read(later).joined(right.read(rest), OpView::Mul) == tree.read(rest));
            lemma_factors_bound(tree.read(rest), (later.len() - 1) as nat);
        },
        Tree::Quotient(left, right) => {
            let later = seq![TokenView::Slash] + right.tokens() + rest;
            lemma_term_is_read(*left, later);
            lemma_factor_is_read(*right, rest);
            assert(all =~= left.tokens() + later);
            assert(later.drop_first() =~= right.tokens() + rest);
            assert(left.read(later).joined(right.read(rest), OpView::Div) == tree.read(rest));
            lemma_factors_bound(tree.read(rest), (later.len() - 1) as nat);
        },
        _ => {
            lemma_factor_is_read(tree, rest);
            lemma_factors_bound(tree.read(rest), all.len());
        },
    }
}

pub(crate) proof fn lemma_expr_is_read(tree: Tree, rest: Seq<TokenView>)
    requires
        tree.is_expr(),
        rest.len() > 0 ==> rest[0] !is Star && rest[0] !is Slash,
    ensures
        read_expr(tree.tokens() + rest) == read_more_terms(tree.read(rest), rest.len()),
    decreases tree, 2nat,
{
    let all = tree.tokens() + rest;
    match tree {
        Tree::Sum(left, right) => {
            let later = seq![TokenView::Plus] + right.tokens() + rest;
            lemma_expr_is_read(*left, later);
            lemma_term_is_read(*right, rest);
            assert(all =~= left.tokens() + later);
            assert(later.drop_first() =~= right.tokens() + rest);
            assert(left.read(later).joined(right.read(rest), OpView::Add) == tree.read(rest));
            lemma_terms_bound(tree.read(rest), (later.len() - 1) as nat);
        },
        Tree::Difference(left, right) => {
            let later = seq![TokenView::Minus] + right.tokens() + rest;
            lemma_expr_is_read(*left, later);
            lemma_term_is_read(*right, rest);
            assert(all =~= left.tokens() + later);
            assert(later.drop_first() =~= right.tokens() + rest);
            assert(left.read(later).joined(right.read(rest), OpView::Sub) == tree.read(rest));
            lemma_terms_bound(tree.read(rest), (later.len() - 1) as nat);
        },
        _ => {
            lemma_term_is_read(tree, rest);
            lemma_terms_bound(tree.read(rest), all.len());
        },
    }
}

// --- whatever is read without a fault is a tree ---

proof fn lemma_read_factor_is_tree(tokens: Seq<TokenView>) -> (tree: Tree)
    requires
        read_factor(tokens).fault is None,
    ensures
        tree.is_factor(),
        tokens == tree.tokens() + read_factor(tokens).rest,
        read_factor(tokens).ops == tree.ops(),
    decreases tokens.len(), 0nat,
{
    let after = tokens.drop_first();
    let reading = read_factor(tokens);
    assert(tokens =~= seq![tokens[0]] + after);
    match tokens[0] {
        TokenView::Minus => {
            assert(tokens[0] == TokenView::Minus);
            let inner = lemma_read_factor_is_tree(after);
            let tree = Tree::Negated(Box::new(inner));
            assert(tokens =~= tree.tokens() + reading.rest);
            assert(Seq::<OpView>::empty() + inner.ops() =~= inner.ops());
            tree
        },
        TokenView::Plus => {
            assert(tokens[0] == TokenView::Plus);
            let inner = lemma_read_factor_is_tree(after);
            let tree = Tree::Signed(Box::new(inner));
            assert(tokens =~= tree.tokens() + reading.rest);
            tree
        },
        TokenView::Open => {
            let inner = lemma_read_expr_is_tree(after);
            let tree = Tree::Grouped(Box::new(inner));
            let open = read_expr(after).rest;
            assert(tokens[0] == TokenView::Open);
            assert(open[0] == TokenView::Close);
            assert(open =~= seq![TokenView::Close] + open.drop_first());
            assert(tokens =~= tree.tokens() + reading.rest);
            tree
        },
        TokenView::Number(text) => {
            let tree = Tree::Number(text);
            assert(tokens =~= tree.tokens() + reading.rest);
            tree
        },
        _ => Tree::Number(seq![]),
    }
}

proof fn lemma_read_term_is_tree(tokens: Seq<TokenView>) -> (tree: Tree)
    requires
        read_term(tokens).fault is None,
    ensures
        tree.is_term(),
        tokens == tree.tokens() + read_term(tokens).rest,
        read_term(tokens).ops == tree.ops(),
    decreases tokens.len(), 2nat,
{
    let first = read_factor(tokens);
    if first.fault is Some {
        assert(read_more_factors(first, tokens.len()) == first);
    }
    let tree = lemma_read_factor_is_tree(tokens);
    lemma_factor_is_term(tree);
    lemma_more_factors_are_tree(tokens, tree, first, tokens.len())
}

proof fn lemma_more_factors_are_tree(
    tokens: Seq<TokenView>,
    so_far: Tree,
    left: Reading,
    bound: nat,
) -> (tree: Tree)
    requires
        so_far.is_term(),
        left.fault is None,
        left.ops == so_far.ops(),
        tokens == so_far.tokens() + left.rest,
        read_more_factors(left, bound).fault is None,
    ensures
        tree.is_term(),
        tokens == tree.tokens() + read_more_factors(left, bound).rest,
        read_more_factors(left, bound).ops == tree.ops(),
    decreases bound, 1nat,
{
    if 0 < left.rest.len() <= bound && (left.rest[0] is Star || left.rest[0] is Slash) {
        let after = left.rest.drop_first();
        let fewer = (left.rest.len() - 1) as nat;
        let factor = read_factor(after);
        let op = if left.rest[0] is Star {
            OpView::Mul
        } else {
            OpView::Div
        };
        let next = left.joined(factor, op);
        if factor.fault is Some {
            assert(read_more_factors(next, fewer) == next);
        }
        let right = lemma_read_factor_is_tree(after);
        let wider = if left.rest[0] is Star {
            Tree::Product(Box::new(so_far), Box::new(right))
        } else {
            Tree::Quotient(Box::new(so_far), Box::new(right))
        };
        assert(left.rest =~= seq![left.rest[0]] + after);
        assert(tokens =~= wider.tokens() + next.rest);
        lemma_more_factors_are_tree(tokens, wider, next, fewer)
    } else {
        so_far
    }
}

pub(crate) proof fn lemma_read_expr_is_tree(tokens: Seq<TokenView>) -> (tree: Tree)
    requires
        read_expr(tokens).fault is None,
    ensures
        tree.is_expr(),
        tokens == tree.tokens() + read_expr(tokens).rest,
        read_expr(tokens).ops == tree.ops(),
    decreases tokens.len(), 4nat,
{
    let first = read_term(tokens);
    if first.fault is Some {
        assert(read_more_terms(first, tokens.len()) == first);
    }
    let tree = lemma_read_term_is_tree(tokens);
    lemma_term_is_expr(tree);
    lemma_more_terms_are_tree(tokens, tree, first, tokens.len())
}

proof fn lemma_more_terms_are_tree(
    tokens: Seq<TokenView>,
    so_far: Tree,
    left: Reading,
    bound: nat,
) -> (tree: Tree)
    requires
        so_far.is_expr(),
        left.fault is None,
        left.ops == so_far.ops(),
        tokens == so_far.tokens() + left.rest,
        read_more_terms(left, bound).fault is None,
    ensures
        tree.is_expr(),
        tokens == tree.tokens() + read_more_terms(left, bound).rest,
        read_more_terms(left, bound).ops == tree.ops(),
    decreases bound, 3nat,
{
    if 0 < left.rest.len() <= bound && (left.rest[0] is Plus || left.rest[0] is Minus) {
        let after = left.rest.drop_first();
        let fewer = (left.rest.len() - 1) as nat;
        let term = read_term(after);
        let op = if left.rest[0] is Plus {
            OpView::Add
        } else {
            OpView::Sub
        };
        let next = left.joined(term, op);
        if term.fault is Some {
            assert(read_more_terms(next, fewer) == next);
        }
        let right = lemma_read_term_is_tree(after);
        let wider = if left.rest[0] is Plus {
            Tree::Sum(Box::new(so_far), Box::new(right))
        } else {
            Tree::Difference(Box::new(so_far), Box::new(right))
        };
        assert(left.rest =~= seq![left.rest[0]] + after);
        assert(tokens =~= wider.tokens() + next.rest);
        lemma_more_terms_are_tree(tokens, wider, next, fewer)
    } else {
        so_far
    }
}

/// Every expression of the grammar compiles, without a fault, to its own operations.
pub proof fn law_expressions_compile(text: Seq<char>, tree: Tree)
    requires
        tree.is_expr(),
        tokens_of(text) == tree.tokens(),
    ensures
        program_of(text).ops == tree.ops(),
        program_of(text).fault is None,
{
    let rest = Seq::<TokenView>::empty();
    lemma_expr_is_read(tree, rest);
    assert(tree.tokens() + rest =~= tree.tokens());
}

/// Nothing else does: a text that compiles without a fault is an expression of the
/// grammar, and the operations are those of its tree.
pub proof fn law_only_expressions_compile(text: Seq<char>)
    requires
        program_of(text).fault is None,
    ensures
        exists|tree: Tree| #[trigger]
            tree.is_expr() && tokens_of(text) == tree.tokens() && program_of(text).ops
                == tree.ops(),
{
    let tokens = tokens_of(text);
    let tree = lemma_read_expr_is_tree(tokens);
    assert(tree.tokens() + read_expr(tokens).rest =~= tree.tokens());
    assert(tree.is_expr() && tokens == tree.tokens() && program_of(text).ops == tree.ops());
}

// --- stack discipline ---

/// The height of the stack after `ops` run on a stack of the given height, and
/// `None` where an operation finds too few numbers.
pub open spec fn height_after(ops: Seq<OpView>, height: nat) -> Option<nat>
    decreases ops.len(),
{
    if ops.len() == 0 {
        Some(height)
    } else {
        match height_after(ops.drop_last(), height) {
            None => None,
            Some(before) => match ops.last() {
                OpView::Push(_) => Some(before + 1),
                OpView::Neg => if before >= 1 {
                    Some(before)
                } else {
                    None
                },
                _ => if before >= 2 {
                    Some((before - 1) as nat)
                } else {
                    None
                },
            },
        }
    }
}

proof fn lemma_heights_add(first: Seq<OpView>, second: Seq<OpView>, height: nat)
    requires
        height_after(first, height) is Some,
    ensures
        height_after(first + second, height) == height_after(
            second,
            height_after(first, height)->0,
        ),
    decreases second.len(),
{
    if second.len() == 0 {
        assert(first + second =~= first);
    } else {
        assert((first + second).drop_last() =~= first + second.drop_last());
        lemma_heights_add(first, second.drop_last(), height);
    }
}

/// The operations of a reading never find too few numbers; without a fault they
/// leave exactly one number more.
spec fn balanced(reading: Reading, height: nat) -> bool {
    match height_after(reading.ops, height) {
        None => false,
        Some(after) => after >= height && (reading.fault is None ==> after == height + 1),
    }
}

proof fn lemma_joined_is_balanced(left: Reading, right: Reading, op: OpView, height: nat)
    requires
        op !is Push,
        op !is Neg,
        left.fault is None,
        balanced(left, height),
        balanced(right, height + 1),
    ensures
        balanced(left.joined(right, op), height),
{
    lemma_heights_add(left.ops, right.ops, height);
    if right.fault is None {
        let ops = (left.ops + right.ops).push(op);
        assert(ops.drop_last() =~= left.ops + right.ops);
    }
}

proof fn lemma_factor_is_balanced(tokens: Seq<TokenView>, height: nat)
    ensures
        balanced(read_factor(tokens), height),
    decreases tokens.len(), 0nat,
{
    assert(height_after(seq![], height) == Some(height));
    if tokens.len() > 0 {
        let after = tokens.drop_first();
        match tokens[0] {
            TokenView::Minus => {
                lemma_factor_is_balanced(after, height);
                let inner = read_factor(after).ops;
                assert(Seq::<OpView>::empty() + inner =~= inner);
                assert(inner.push(OpView::Neg).drop_last() =~= inner);
            },
            TokenView::Plus => lemma_factor_is_balanced(after, height),
            TokenView::Open => lemma_expr_is_balanced(after, height),
            TokenView::Number(text) => {
                let ops = seq![OpView::Push(text)];
                assert(ops.drop_last() =~= seq![]);
            },
            _ => {},
        }
    }
}

proof fn lemma_term_is_balanced(tokens: Seq<TokenView>, height: nat)
    ensures
        balanced(read_term(tokens), height),
    decreases tokens.len(), 2nat,
{
    lemma_factor_is_balanced(tokens, height);
    lemma_more_factors_are_balanced(read_factor(tokens), tokens.len(), height);
}

proof fn lemma_more_factors_are_balanced(left: Reading, bound: nat, height: nat)
    requires
        balanced(left, height),
    ensures
        balanced(read_more_factors(left, bound), height),
    decreases bound, 1nat,
{
    if left.fault is None && 0 < left.rest.len() <= bound {
        let after = left.rest.drop_first();
        let fewer = (left.rest.len() - 1) as nat;
        let factor = read_factor(after);
        lemma_factor_is_balanced(after, height + 1);
        if left.rest[0] is Star {
            lemma_joined_is_balanced(left, factor, OpView::Mul, height);
            lemma_more_factors_are_balanced(left.joined(factor, OpView::Mul), fewer, height);
        } else if left.rest[0] is Slash {
            lemma_joined_is_balanced(left, factor, OpView::Div, height);
            lemma_more_factors_are_balanced(left.joined(factor, OpView::Div), fewer, height);
        }
    }
}

proof fn lemma_expr_is_balanced(tokens: Seq<TokenView>, height: nat)
    ensures
        balanced(read_expr(tokens), height),
    decreases tokens.len(), 4nat,
{
    lemma_term_is_balanced(tokens, height);
    lemma_more_terms_are_balanced(read_term(tokens), tokens.len(), height);
}

proof fn lemma_more_terms_are_balanced(left: Reading, bound: nat, height: nat)
    requires
        balanced(left, height),
    ensures
        balanced(read_more_terms(left, bound), height),
    decreases bound, 3nat,
{
    if left.fault is None && 0 < left.rest.len() <= bound {
        let after = left.rest.drop_first();
        let fewer = (left.rest.len() - 1) as nat;
        let term = read_term(after);
        lemma_term_is_balanced(after, height + 1);
        if left.rest[0] is Plus {
            lemma_joined_is_balanced(left, term, OpView::Add, height);
            lemma_more_terms_are_balanced(left.joined(term, OpView::Add), fewer, height);
        } else if left.rest[0] is Minus {
            lemma_joined_is_balanced(left, term, OpView::Sub, height);
            lemma_more_terms_are_balanced(left.joined(term, OpView::Sub), fewer, height);
        }
    }
}

/// No program of any text takes a number from an empty stack, and a program without
/// a fault leaves exactly one number, its value.
pub proof fn law_programs_leave_one_number(text: Seq<char>)
    ensures
        height_after(program_of(text).ops, 0) is Some,
        program_of(text).fault is None ==> height_after(program_of(text).ops, 0) == Some(1nat),
{
    lemma_expr_is_balanced(tokens_of(text), 0);
}

} // verus!
