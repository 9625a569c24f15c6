//! The expression evaluator.
//!
//! A display text is preprocessed exactly: every pi symbol becomes the
//! decimal expansion of the 64-bit constant and every square-root symbol
//! becomes the token `sqrt`. The expanded text is then handed to the `meval`
//! crate, which parses it as a conventional infix expression (`+ - * / ^`
//! with `^` right-associative, parentheses, decimal literals, and the named
//! unary functions `sin cos tan log ln sqrt`, among others of its builtin
//! context; `log` is bound to the base-10 logarithm, `ln` is natural) and
//! evaluates it in 64-bit floating point. Division by zero follows IEEE
//! semantics and yields an infinite value, not a failure. Any parse
//! failure or unknown symbol is the single failure outcome, `None`; so is
//! a blank (non-empty, all-whitespace) text, which is turned away before
//! the call because the delegate's tokenizer cannot take it.

use vstd::prelude::*;

verus! {

/// The decimal expansion that replaces the pi symbol: the shortest
/// round-trip decimal form of the 64-bit constant.
pub open spec fn pi_digits() -> Seq<char> {
    seq!['3', '.', '1', '4', '1', '5', '9', '2', '6', '5', '3', '5', '8', '9', '7', '9', '3']
}

/// The function name that replaces the square-root symbol.
pub open spec fn sqrt_word() -> Seq<char> {
    seq!['s', 'q', 'r', 't']
}

/// What one display character contributes to the evaluated text.
pub open spec fn token_expansion(c: char) -> Seq<char> {
    if c == '\u{3c0}' {
        pi_digits()
    } else if c == '\u{221a}' {
        sqrt_word()
    } else {
        seq![c]
    }
}

/// The display text with the pi and square-root symbols expanded; nothing
/// else is rewritten.
pub open spec fn preprocessed(s: Seq<char>) -> Seq<char>
    decreases s.len(),
{
    if s.len() == 0 {
        Seq::empty()
    } else {
        preprocessed(s.drop_last()) + token_expansion(s.last())
    }
}

/// Expand the pi and square-root symbols of `expr` for the evaluator.
pub fn preprocess(expr: &Vec<char>) -> (out: Vec<char>)
    ensures
        out@ == preprocessed(expr@),
{
    let mut out: Vec<char> = Vec::new();
    let mut i: usize = 0;
    while i < expr.len()
        invariant
            i <= expr@.len(),
            out@ == preprocessed(expr@.subrange(0, i as int)),
        decreases expr@.len() - i,
    {
        let c = expr[i];
        proof {
            assert(expr@.subrange(0, i as int + 1).drop_last() =~= expr@.subrange(0, i as int));
        }
        if c == '\u{3c0}' {
            out.push('3');
            out.push('.');
            out.push('1');
            out.push('4');
            out.push('1');
            out.push('5');
            out.push('9');
            out.push('2');
            out.push('6');
            out.push('5');
            out.push('3');
            out.push('5');
            out.push('8');
            out.push('9');
            out.push('7');
            out.push('9');
            out.push('3');
        } else if c == '\u{221a}' {
            out.push('s');
            out.push('q');
            out.push('r');
            out.push('t');
        } else {
            out.push(c);
        }
        proof {
            assert(out@ =~= preprocessed(expr@.subrange(0, i as int + 1)));
        }
        i = i + 1;
    }
    proof {
        assert(expr@.subrange(0, expr@.len() as int) =~= expr@);
    }
    out
}

/// `c` is one of the four whitespace characters the delegated tokenizer
/// strips.
pub open spec fn is_eval_space(c: char) -> bool {
    c == ' ' || c == '\t' || c == '\r' || c == '\n'
}

/// `s` is blank: non-empty and whitespace alone. This is the one shape of
/// text the delegated tokenizer cannot take, so the evaluator turns it away
/// itself.
pub open spec fn is_blank(s: Seq<char>) -> bool {
    s.len() > 0 && forall|i: int| 0 <= i < s.len() ==> is_eval_space(s[i])
}

/// Whether a text is blank: non-empty whitespace alone.
fn is_blank_text(v: &Vec<char>) -> (r: bool)
    ensures
        r == is_blank(v@),
{
    if v.len() == 0 {
        return false;
    }
    let mut i: usize = 0;
    while i < v.len()
        invariant
            i <= v@.len(),
            v@.len() > 0,
            forall|j: int| 0 <= j < i ==> is_eval_space(v@[j]),
        decreases v@.len() - i,
    {
        let c = v[i];
        if !(c == ' ' || c == '\t' || c == '\r' || c == '\n') {
            proof {
                assert(!is_eval_space(v@[i as int]));
            }
            return false;
        }
        i = i + 1;
    }
    true
}

/// The text the expression evaluator renders for an expanded, non-blank
/// input, or `None` where evaluation fails. The outcome is a function of
/// the text alone: the evaluation context is fixed.
pub uninterp spec fn eval_outcome(expr: Seq<char>) -> Option<Seq<char>>;

/// Relies on `meval::eval_str_with_context`, handed meval's builtin context
/// extended with `log` bound to the base-10 logarithm: it parses the text
/// as an infix arithmetic expression and evaluates it in 64-bit floating
/// point, deterministically in the text alone; a failure of parsing or of
/// name lookup is an `Err`. The call is never made on a blank (non-empty,
/// all-whitespace) text, the one input on which the tokenizer panics
/// instead of failing. The rendering of a 64-bit result is never empty.
#[verifier::external_body]
fn eval_text(expr: &Vec<char>) -> (r: Option<Vec<char>>)
    requires
        !is_blank(expr@),
    ensures
        r matches Some(out) ==> eval_outcome(expr@) == Some(out@) && out@.len() > 0,
        r is None ==> eval_outcome(expr@) is None,
{
    let text: String = expr.iter().collect();
    let mut context = meval::Context::new();
    context.func("log", |x| x.log10());
    match meval::eval_str_with_context(&text, &context) {
        Ok(value) => Some(format!("{}", value).chars().collect()),
        Err(_) => None,
    }
}

/// What the whole evaluator owes a display text: symbol expansion, then
/// expression evaluation, with a blank expansion already a failure.
pub open spec fn display_eval(s: Seq<char>) -> Option<Seq<char>> {
    if is_blank(preprocessed(s)) {
        None
    } else {
        eval_outcome(preprocessed(s))
    }
}

/// Evaluate a display text: expand the symbols, then run the expression
/// evaluator. `None` is the single evaluation-failure outcome; a blank
/// text fails without reaching the evaluator.
pub fn evaluate(expr: &Vec<char>) -> (r: Option<Vec<char>>)
    ensures
        r matches Some(out) ==> display_eval(expr@) == Some(out@) && out@.len() > 0,
        r is None ==> display_eval(expr@) is None,
{
    let expanded = preprocess(expr);
    if is_blank_text(&expanded) {
        return None;
    }
    eval_text(&expanded)
}

} // verus!
