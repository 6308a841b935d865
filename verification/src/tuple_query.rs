//! The tuple-query expansion: a tuple of component references, written
//! without lifetimes, becomes a query struct with one lifetime parameter.

use vstd::prelude::*;
use vstd::string::StringExecFns;
use crate::error::ExpandError;
use crate::render::{compile_error_source, compile_error_text};

verus! {

/// The brackets round a group of tokens.
#[derive(Debug, Clone, Copy, PartialEq, Eq, Structural)]
pub enum Delimiter {
    /// `( .. )`
    Parenthesis,
    /// `{ .. }`
    Brace,
    /// `[ .. ]`
    Bracket,
}

/// One token, or a delimited group of tokens.
#[derive(Debug, PartialEq, Eq)]
pub enum TokenTree {
    /// The reference token `&`.
    And,
    /// The doubled reference token `&&`.
    AndAnd,
    /// The tokens between a pair of delimiters.
    Group { delimiter: Delimiter, stream: Vec<TokenTree> },
    /// Any other single token, as its text.
    Other { text: String },
}

/// The mathematical model of a [`TokenTree`].
pub enum TokenModel {
    And,
    AndAnd,
    Group { delimiter: Delimiter, stream: Seq<TokenModel> },
    Other { text: Seq<char> },
}

/// The model of one token.
pub open spec fn token_model(t: TokenTree) -> TokenModel
    decreases t,
{
    match t {
        TokenTree::And => TokenModel::And,
        TokenTree::AndAnd => TokenModel::AndAnd,
        TokenTree::Group { delimiter, stream } => TokenModel::Group {
            delimiter,
            stream: tokens_model(stream@),
        },
        TokenTree::Other { text } => TokenModel::Other { text: text@ },
    }
}

/// The models of a sequence of tokens, in order.
pub open spec fn tokens_model(ts: Seq<TokenTree>) -> Seq<TokenModel>
    decreases ts,
{
    if ts.len() == 0 {
        Seq::empty()
    } else {
        tokens_model(ts.drop_last()).push(token_model(ts.last()))
    }
}

impl View for TokenTree {
    type V = TokenModel;

    open spec fn view(&self) -> TokenModel {
        token_model(*self)
    }
}

/// Appending one token appends its model.
pub proof fn lemma_tokens_model_push(ts: Seq<TokenTree>, t: TokenTree)
    ensures
        tokens_model(ts.push(t)) == tokens_model(ts).push(token_model(t)),
{
    assert(ts.push(t).drop_last() == ts);
}

/// `tokens_model` maps element by element.
pub proof fn lemma_tokens_model(ts: Seq<TokenTree>)
    ensures
        tokens_model(ts).len() == ts.len(),
        forall|i: int| 0 <= i < ts.len() ==> #[trigger] tokens_model(ts)[i] == token_model(ts[i]),
    decreases ts.len(),
{
    if ts.len() > 0 {
        lemma_tokens_model(ts.drop_last());
    }
}

/// Copies a list of tokens.
pub fn clone_tokens(ts: &Vec<TokenTree>) -> (r: Vec<TokenTree>)
    ensures
        tokens_model(r@) == tokens_model(ts@),
    decreases ts,
{
    let mut out: Vec<TokenTree> = Vec::new();
    let mut i: usize = 0;
    while i < ts.len()
        invariant
            i <= ts.len(),
            tokens_model(out@) == tokens_model(ts@.take(i as int)),
        decreases ts.len() - i,
    {
        let item = ts[i].clone();
        proof {
            assert(ts@.take(i + 1).drop_last() == ts@.take(i as int));
            assert(out@.push(item).drop_last() == out@);
        }
        out.push(item);
        i += 1;
    }
    proof {
        assert(ts@.take(i as int) == ts@);
    }
    out
}

impl Clone for TokenTree {
    fn clone(&self) -> (r: Self)
        ensures
            r@ == self@,
        decreases self,
    {
        match self {
            TokenTree::And => TokenTree::And,
            TokenTree::AndAnd => TokenTree::AndAnd,
            TokenTree::Group { delimiter, stream } => TokenTree::Group {
                delimiter: *delimiter,
                stream: clone_tokens(stream),
            },
            TokenTree::Other { text } => TokenTree::Other { text: text.clone() },
        }
    }
}

/// The lifetime that every reference of a tuple query is given.
pub open spec fn lifetime_marker() -> TokenModel {
    TokenModel::Other { text: "'a"@ }
}

/// What one token is rewritten to: `&` becomes `& 'a`, `&&` becomes
/// `& 'a & 'a`, a parenthesized group has its contents rewritten, and every
/// other token, a group in braces or brackets too, stays as it is.
pub open spec fn with_lifetime(t: TokenModel) -> Seq<TokenModel>
    decreases t,
{
    match t {
        TokenModel::And => seq![TokenModel::And, lifetime_marker()],
        TokenModel::AndAnd => seq![
            TokenModel::And,
            lifetime_marker(),
            TokenModel::And,
            lifetime_marker(),
        ],
        TokenModel::Group { delimiter, stream } => if delimiter == Delimiter::Parenthesis {
            seq![TokenModel::Group { delimiter, stream: with_lifetimes(stream) }]
        } else {
            seq![t]
        },
        TokenModel::Other { .. } => seq![t],
    }
}

/// What a sequence of tokens is rewritten to: the rewritten tokens, in order.
pub open spec fn with_lifetimes(ts: Seq<TokenModel>) -> Seq<TokenModel>
    decreases ts,
{
    if ts.len() == 0 {
        Seq::empty()
    } else {
        with_lifetimes(ts.drop_last()) + with_lifetime(ts.last())
    }
}

/// The work that a token stands for: one step, and for a parenthesized group
/// one step to enter it, one to leave it, and the work of its contents.
pub open spec fn weight(t: TokenModel) -> nat
    decreases t,
{
    match t {
        TokenModel::Group { delimiter, stream } => if delimiter == Delimiter::Parenthesis {
            2 + weights(stream)
        } else {
            1
        },
        _ => 1,
    }
}

/// The work that a sequence of tokens stands for.
pub open spec fn weights(ts: Seq<TokenModel>) -> nat
    decreases ts,
{
    if ts.len() == 0 {
        0
    } else {
        weight(ts.first()) + weights(ts.skip(1))
    }
}

/// A group that was entered and not yet left: the tokens it stands among,
/// the place behind it, and what was written before it.
struct Frame<'a> {
    src: &'a Vec<TokenTree>,
    pos: usize,
    out: Vec<TokenTree>,
}

/// The work left from place `pos` of `src` on.
spec fn rest(src: Seq<TokenTree>, pos: int) -> nat {
    weights(tokens_model(src).skip(pos))
}

/// The work left in the groups that were entered: for each what follows it,
/// and the step that leaves it.
spec fn pending(stack: Seq<Frame>) -> nat
    decreases stack.len(),
{
    if stack.len() == 0 {
        0
    } else {
        pending(stack.drop_last()) + rest(stack.last().src@, stack.last().pos as int) + 1
    }
}

/// The tokens of the group that frame `k` entered.
spec fn child_of(stack: Seq<Frame>, k: int, current: Vec<TokenTree>) -> Vec<TokenTree> {
    if k + 1 < stack.len() {
        *stack[k + 1].src
    } else {
        current
    }
}

/// The outermost tokens.
spec fn root_of(stack: Seq<Frame>, current: Vec<TokenTree>) -> Vec<TokenTree> {
    if stack.len() > 0 {
        *stack[0].src
    } else {
        current
    }
}

/// Frame `f` stands just behind the parenthesized group `child`, and holds
/// the rewriting of what stands before that group.
spec fn frame_ok(f: Frame, child: Vec<TokenTree>) -> bool {
    &&& 1 <= f.pos <= f.src@.len()
    &&& f.src@[f.pos - 1] == (TokenTree::Group { delimiter: Delimiter::Parenthesis, stream: child })
    &&& tokens_model(f.out@) == with_lifetimes(tokens_model(f.src@.take(f.pos - 1)))
}

/// The work left decreases by the weight of the token that is passed.
proof fn lemma_rest_step(src: Seq<TokenTree>, pos: int)
    requires
        0 <= pos < src.len(),
    ensures
        rest(src, pos) == weight(token_model(src[pos])) + rest(src, pos + 1),
{
    lemma_tokens_model(src);
    let m = tokens_model(src);
    assert(m.skip(pos).skip(1) == m.skip(pos + 1));
}

/// Passing the token at `pos` appends what it is rewritten to.
proof fn lemma_rewrite_step(src: Seq<TokenTree>, pos: int)
    requires
        0 <= pos < src.len(),
    ensures
        with_lifetimes(tokens_model(src.take(pos + 1))) == with_lifetimes(
            tokens_model(src.take(pos)),
        ) + with_lifetime(token_model(src[pos])),
{
    let before = src.take(pos);
    assert(src.take(pos + 1) == before.push(src[pos]));
    lemma_tokens_model_push(before, src[pos]);
    assert(tokens_model(before).push(token_model(src[pos])).drop_last() == tokens_model(before));
}

/// The token `'a`.
fn marker() -> (r: TokenTree)
    ensures
        r@ == lifetime_marker(),
{
    TokenTree::Other { text: String::from_str("'a") }
}

/// Gives every reference of a token sequence the lifetime `'a`: `&` becomes
/// `& 'a` and `&&` becomes `& 'a & 'a`, at the top level and inside
/// parenthesized groups, however deeply they are nested. All other tokens
/// pass through unchanged. The groups that are entered are kept on an
/// explicit stack, so that the nesting depth costs memory on the heap only.
pub fn add_lifetimes(tokens: &Vec<TokenTree>) -> (r: Vec<TokenTree>)
    ensures
        tokens_model(r@) == with_lifetimes(tokens_model(tokens@)),
{
    let mut stack: Vec<Frame> = Vec::new();
    let mut src: &Vec<TokenTree> = tokens;
    let mut pos: usize = 0;
    let mut out: Vec<TokenTree> = Vec::new();
    loop
        invariant
            pos <= src.len(),
            tokens_model(out@) == with_lifetimes(tokens_model(src@.take(pos as int))),
            root_of(stack@, *src) == *tokens,
            forall|k: int|
                0 <= k < stack.len() ==> frame_ok(#[trigger] stack@[k], child_of(stack@, k, *src)),
        decreases rest(src@, pos as int) + pending(stack@),
    {
        if pos < src.len() {
            proof {
                lemma_rest_step(src@, pos as int);
                lemma_rewrite_step(src@, pos as int);
            }
            match &src[pos] {
                TokenTree::And => {
                    let ghost before = out@;
                    out.push(TokenTree::And);
                    out.push(marker());
                    proof {
                        lemma_tokens_model_push(before, TokenTree::And);
                        lemma_tokens_model_push(before.push(TokenTree::And), out@.last());
                    }
                    pos += 1;
                },
                TokenTree::AndAnd => {
                    let ghost before = out@;
                    out.push(TokenTree::And);
                    let ghost one = out@;
                    out.push(marker());
                    let ghost two = out@;
                    out.push(TokenTree::And);
                    let ghost three = out@;
                    out.push(marker());
                    proof {
                        lemma_tokens_model_push(before, one.last());
                        lemma_tokens_model_push(one, two.last());
                        lemma_tokens_model_push(two, three.last());
                        lemma_tokens_model_push(three, out@.last());
                    }
                    pos += 1;
                },
                TokenTree::Group { delimiter, stream } => {
                    match delimiter {
                        Delimiter::Parenthesis => {
                            let ghost old_stack = stack@;
                            let frame = Frame { src, pos: pos + 1, out };
                            proof {
                                assert(old_stack.push(frame).drop_last() == old_stack);
                                assert(tokens_model(stream@).skip(0) == tokens_model(stream@));
                            }
                            stack.push(frame);
                            src = stream;
                            pos = 0;
                            out = Vec::new();
                        },
                        _ => {
                            let ghost before = out@;
                            let item = src[pos].clone();
                            out.push(item);
                            proof {
                                lemma_tokens_model_push(before, item);
                            }
                            pos += 1;
                        },
                    }
                },
                TokenTree::Other { .. } => {
                    let ghost before = out@;
                    let item = src[pos].clone();
                    out.push(item);
                    proof {
                        lemma_tokens_model_push(before, item);
                    }
                    pos += 1;
                },
            }
        } else {
            proof {
                assert(src@.take(pos as int) == src@);
            }
            match stack.pop() {
                None => {
                    return out;
                },
                Some(frame) => {
                    let inner = out;
                    let ghost before = frame.out@;
                    out = frame.out;
                    let group = TokenTree::Group { delimiter: Delimiter::Parenthesis, stream: inner };
                    out.push(group);
                    src = frame.src;
                    pos = frame.pos;
                    proof {
                        lemma_rewrite_step(src@, pos - 1);
                        lemma_tokens_model_push(before, group);
                    }
                },
            }
        }
    }
}

/// The fields of the query struct that a tuple stands for. The input must be
/// one parenthesized group with at least one token in it; the fields are its
/// contents, every reference given the lifetime `'a`.
pub open spec fn tuple_fields(input: Seq<TokenModel>) -> Result<Seq<TokenModel>, ExpandError> {
    if input.len() == 0 {
        Err(ExpandError::EmptyInput)
    } else if input.len() != 1 {
        Err(ExpandError::NotATuple)
    } else {
        match input[0] {
            TokenModel::Group { delimiter, stream } => if delimiter != Delimiter::Parenthesis {
                Err(ExpandError::NotATuple)
            } else if stream.len() == 0 {
                Err(ExpandError::EmptyInput)
            } else {
                Ok(with_lifetimes(stream))
            },
            _ => Err(ExpandError::NotATuple),
        }
    }
}

/// What a list of tokens, or a refusal, stands for.
pub open spec fn fields_model(r: Result<Vec<TokenTree>, ExpandError>) -> Result<
    Seq<TokenModel>,
    ExpandError,
> {
    match r {
        Ok(fields) => Ok(tokens_model(fields@)),
        Err(e) => Err(e),
    }
}

/// Turns a tuple into the fields of a query struct: checks that the input is
/// one parenthesized tuple with something in it, and gives every reference
/// in it the lifetime `'a`.
pub fn rewrite_tuple(input: &Vec<TokenTree>) -> (r: Result<Vec<TokenTree>, ExpandError>)
    ensures
        fields_model(r) == tuple_fields(tokens_model(input@)),
{
    proof {
        lemma_tokens_model(input@);
    }
    if input.len() == 0 {
        return Err(ExpandError::EmptyInput);
    }
    if input.len() != 1 {
        return Err(ExpandError::NotATuple);
    }
    match &input[0] {
        TokenTree::Group { delimiter, stream } => {
            proof {
                lemma_tokens_model(stream@);
            }
            match delimiter {
                Delimiter::Parenthesis => {
                    if stream.len() == 0 {
                        Err(ExpandError::EmptyInput)
                    } else {
                        Ok(add_lifetimes(stream))
                    }
                },
                _ => Err(ExpandError::NotATuple),
            }
        },
        _ => Err(ExpandError::NotATuple),
    }
}

/// The text of an opening delimiter.
pub open spec fn open_source(delimiter: Delimiter) -> Seq<char> {
    match delimiter {
        Delimiter::Parenthesis => "("@,
        Delimiter::Brace => "{"@,
        Delimiter::Bracket => "["@,
    }
}

/// The text of a closing delimiter.
pub open spec fn close_source(delimiter: Delimiter) -> Seq<char> {
    match delimiter {
        Delimiter::Parenthesis => ")"@,
        Delimiter::Brace => "}"@,
        Delimiter::Bracket => "]"@,
    }
}

/// The source text of one token.
pub open spec fn token_source(t: TokenModel) -> Seq<char>
    decreases t,
{
    match t {
        TokenModel::And => "&"@,
        TokenModel::AndAnd => "&&"@,
        TokenModel::Group { delimiter, stream } => open_source(delimiter) + tokens_source(stream)
            + close_source(delimiter),
        TokenModel::Other { text } => text,
    }
}

/// The source text of a sequence of tokens, each followed by a space.
pub open spec fn tokens_source(ts: Seq<TokenModel>) -> Seq<char>
    decreases ts,
{
    if ts.len() == 0 {
        ""@
    } else {
        tokens_source(ts.drop_last()) + token_source(ts.last()) + " "@
    }
}

fn open_text(delimiter: Delimiter) -> (r: &'static str)
    ensures
        r@ == open_source(delimiter),
{
    match delimiter {
        Delimiter::Parenthesis => "(",
        Delimiter::Brace => "{",
        Delimiter::Bracket => "[",
    }
}

fn close_text(delimiter: Delimiter) -> (r: &'static str)
    ensures
        r@ == close_source(delimiter),
{
    match delimiter {
        Delimiter::Parenthesis => ")",
        Delimiter::Brace => "}",
        Delimiter::Bracket => "]",
    }
}

/// Writes out a sequence of tokens, each followed by a space.
pub fn tokens_text(ts: &Vec<TokenTree>) -> (r: String)
    ensures
        r@ == tokens_source(tokens_model(ts@)),
    decreases ts,
{
    let mut out = String::from_str("");
    let mut i: usize = 0;
    while i < ts.len()
        invariant
            i <= ts.len(),
            out@ == tokens_source(tokens_model(ts@.take(i as int))),
        decreases ts.len() - i,
    {
        let item = token_text(&ts[i]);
        proof {
            let before = ts@.take(i as int);
            assert(ts@.take(i + 1) == before.push(ts@[i as int]));
            lemma_tokens_model_push(before, ts@[i as int]);
            assert(tokens_model(before).push(ts@[i as int]@).drop_last() == tokens_model(before));
        }
        out.append(item.as_str());
        out.append(" ");
        i += 1;
    }
    proof {
        assert(ts@.take(i as int) == ts@);
    }
    out
}

/// Writes out one token.
pub fn token_text(t: &TokenTree) -> (r: String)
    ensures
        r@ == token_source(t@),
    decreases t,
{
    match t {
        TokenTree::And => String::from_str("&"),
        TokenTree::AndAnd => String::from_str("&&"),
        TokenTree::Group { delimiter, stream } => {
            let mut out = String::from_str(open_text(*delimiter));
            out.append(tokens_text(stream).as_str());
            out.append(close_text(*delimiter));
            out
        },
        TokenTree::Other { text } => text.clone(),
    }
}

/// The declarations that a tuple query expands to: a tuple struct named
/// `unique` with the lifetime parameter `'a` and the given fields, which
/// derives the query and the component accessors, and the alias `alias` for
/// it, generic over the same lifetime.
pub open spec fn declaration_source(
    alias: Seq<char>,
    unique: Seq<char>,
    fields: Seq<TokenModel>,
) -> Seq<char> {
    "#[derive(::hecs::Query, ::hecs_component_provider::ComponentProvider)]\nstruct "@ + unique
        + "<'a>("@ + tokens_source(fields) + ");\ntype "@ + alias + "<'a> = "@ + unique + "<'a>;\n"@
}

/// What expanding a tuple query gives: the declarations, or the reason why
/// the input is refused.
pub open spec fn expanded(alias: Seq<char>, unique: Seq<char>, input: Seq<TokenModel>) -> Result<
    Seq<char>,
    ExpandError,
> {
    match tuple_fields(input) {
        Ok(fields) => Ok(declaration_source(alias, unique, fields)),
        Err(e) => Err(e),
    }
}

/// What a text, or a refusal, stands for.
pub open spec fn text_model(r: Result<String, ExpandError>) -> Result<Seq<char>, ExpandError> {
    match r {
        Ok(text) => Ok(text@),
        Err(e) => Err(e),
    }
}

/// Expands a tuple query: `input` is the tuple, `alias` the name that the
/// caller chose for the query type, and `unique` a name that nothing else in
/// the compilation uses, which the generated struct is given.
pub fn expand(alias: &str, unique: &str, input: &Vec<TokenTree>) -> (r: Result<
    String,
    ExpandError,
>)
    ensures
        text_model(r) == expanded(alias@, unique@, tokens_model(input@)),
{
    let fields = match rewrite_tuple(input) {
        Ok(fields) => fields,
        Err(e) => {
            return Err(e);
        },
    };
    let mut out = String::from_str(
        "#[derive(::hecs::Query, ::hecs_component_provider::ComponentProvider)]\nstruct ",
    );
    out.append(unique);
    out.append("<'a>(");
    out.append(tokens_text(&fields).as_str());
    out.append(");\ntype ");
    out.append(alias);
    out.append("<'a> = ");
    out.append(unique);
    out.append("<'a>;\n");
    Ok(out)
}

/// The source text that the tuple-query expansion hands back: the
/// declarations, or for a refused input the compile error that reports why.
pub open spec fn tuple_query_source(
    alias: Seq<char>,
    unique: Seq<char>,
    input: Seq<TokenModel>,
) -> Seq<char> {
    match expanded(alias, unique, input) {
        Ok(text) => text,
        Err(e) => compile_error_source(e.message_text()),
    }
}

/// Expands `gen_tuple_query_component_providers!(alias, (..))`, with
/// `unique` as the name of the generated struct: the source text of the
/// struct and of the alias, or of a compile error.
pub fn gen_tuple_query_component_providers(
    alias: &str,
    unique: &str,
    input: &Vec<TokenTree>,
) -> (r: String)
    ensures
        r@ == tuple_query_source(alias@, unique@, tokens_model(input@)),
{
    match expand(alias, unique, input) {
        Ok(text) => text,
        Err(e) => compile_error_text(e.message().as_str()),
    }
}

/// How deeply parenthesized groups are nested in a token.
pub open spec fn depth(t: TokenModel) -> nat
    decreases t,
{
    match t {
        TokenModel::Group { delimiter, stream } => if delimiter == Delimiter::Parenthesis {
            1 + max_depth(stream)
        } else {
            0
        },
        _ => 0,
    }
}

/// How deeply parenthesized groups are nested in a sequence of tokens.
pub open spec fn max_depth(ts: Seq<TokenModel>) -> nat
    decreases ts,
{
    if ts.len() == 0 {
        0
    } else {
        let before = max_depth(ts.drop_last());
        let last = depth(ts.last());
        if before >= last {
            before
        } else {
            last
        }
    }
}

/// Rewriting goes token by token: a sequence in two parts is rewritten to
/// the rewritten parts, one after the other.
pub proof fn lemma_with_lifetimes_concat(a: Seq<TokenModel>, b: Seq<TokenModel>)
    ensures
        with_lifetimes(a + b) == with_lifetimes(a) + with_lifetimes(b),
    decreases b.len(),
{
    if b.len() > 0 {
        lemma_with_lifetimes_concat(a, b.drop_last());
        assert((a + b).drop_last() == a + b.drop_last());
    }
}

/// The nesting depth of a sequence in two parts is the greater of the two.
pub proof fn lemma_max_depth_concat(a: Seq<TokenModel>, b: Seq<TokenModel>)
    ensures
        max_depth(a + b) == if max_depth(a) >= max_depth(b) {
            max_depth(a)
        } else {
            max_depth(b)
        },
    decreases b.len(),
{
    if b.len() > 0 {
        lemma_max_depth_concat(a, b.drop_last());
        assert((a + b).drop_last() == a + b.drop_last());
    }
}

/// The nesting depth of one token by itself.
pub proof fn lemma_max_depth_one(t: TokenModel)
    ensures
        max_depth(seq![t]) == depth(t),
{
    assert(seq![t].drop_last() == Seq::<TokenModel>::empty());
    assert(max_depth(Seq::<TokenModel>::empty()) == 0);
}

/// Rewriting one token keeps its nesting depth.
proof fn lemma_depth_of_rewritten(t: TokenModel)
    requires
        t matches TokenModel::Group { delimiter, stream } ==> delimiter == Delimiter::Parenthesis
            ==> max_depth(with_lifetimes(stream)) == max_depth(stream),
    ensures
        max_depth(with_lifetime(t)) == depth(t),
{
    match t {
        TokenModel::And => {
            lemma_max_depth_one(TokenModel::And);
            lemma_max_depth_one(lifetime_marker());
            lemma_max_depth_concat(seq![TokenModel::And], seq![lifetime_marker()]);
            assert(with_lifetime(t) == seq![TokenModel::And] + seq![lifetime_marker()]);
        },
        TokenModel::AndAnd => {
            let pair = seq![TokenModel::And] + seq![lifetime_marker()];
            lemma_max_depth_one(TokenModel::And);
            lemma_max_depth_one(lifetime_marker());
            lemma_max_depth_concat(seq![TokenModel::And], seq![lifetime_marker()]);
            lemma_max_depth_concat(pair, pair);
            assert(with_lifetime(t) == pair + pair);
        },
        TokenModel::Group { delimiter, stream } => {
            if delimiter == Delimiter::Parenthesis {
                let rewritten = TokenModel::Group { delimiter, stream: with_lifetimes(stream) };
                lemma_max_depth_one(rewritten);
            } else {
                lemma_max_depth_one(t);
            }
        },
        TokenModel::Other { .. } => {
            lemma_max_depth_one(t);
        },
    }
}

/// Rewriting keeps the nesting: whatever the depth to which parenthesized
/// groups are nested in the input, they are nested to that depth in the
/// output.
pub proof fn lemma_depth_is_kept(ts: Seq<TokenModel>)
    ensures
        max_depth(with_lifetimes(ts)) == max_depth(ts),
    decreases ts,
{
    if ts.len() > 0 {
        let last = ts.last();
        lemma_depth_is_kept(ts.drop_last());
        lemma_max_depth_concat(with_lifetimes(ts.drop_last()), with_lifetime(last));
        match last {
            TokenModel::Group { delimiter, stream } => {
                lemma_depth_is_kept(stream);
            },
            _ => {},
        }
        lemma_depth_of_rewritten(last);
    }
}

/// One token without lifetime markers: the marker `'a` gives nothing, `&&`
/// is read as two `&`, a parenthesized group has the markers taken out of
/// its contents, and every other token stays as it is.
pub open spec fn unmarked(t: TokenModel) -> Seq<TokenModel>
    decreases t,
{
    match t {
        TokenModel::And => seq![t],
        TokenModel::AndAnd => seq![TokenModel::And, TokenModel::And],
        TokenModel::Group { delimiter, stream } => if delimiter == Delimiter::Parenthesis {
            seq![TokenModel::Group { delimiter, stream: without_markers(stream) }]
        } else {
            seq![t]
        },
        TokenModel::Other { .. } => if t == lifetime_marker() {
            Seq::empty()
        } else {
            seq![t]
        },
    }
}

/// A sequence of tokens without lifetime markers.
pub open spec fn without_markers(ts: Seq<TokenModel>) -> Seq<TokenModel>
    decreases ts,
{
    if ts.len() == 0 {
        Seq::empty()
    } else {
        without_markers(ts.drop_last()) + unmarked(ts.last())
    }
}

/// Taking the markers out goes token by token.
pub proof fn lemma_without_markers_concat(a: Seq<TokenModel>, b: Seq<TokenModel>)
    ensures
        without_markers(a + b) == without_markers(a) + without_markers(b),
    decreases b.len(),
{
    if b.len() > 0 {
        lemma_without_markers_concat(a, b.drop_last());
        assert((a + b).drop_last() == a + b.drop_last());
    }
}

/// One token by itself without markers.
pub proof fn lemma_without_markers_one(t: TokenModel)
    ensures
        without_markers(seq![t]) == unmarked(t),
{
    assert(seq![t].drop_last() == Seq::<TokenModel>::empty());
    assert(without_markers(Seq::<TokenModel>::empty()) == Seq::<TokenModel>::empty());
}

/// What one token is rewritten to is, without the markers, the token
/// without markers.
proof fn lemma_rewritten_without_markers(t: TokenModel)
    requires
        t matches TokenModel::Group { delimiter, stream } ==> delimiter == Delimiter::Parenthesis
            ==> without_markers(with_lifetimes(stream)) == without_markers(stream),
    ensures
        without_markers(with_lifetime(t)) == unmarked(t),
{
    let and = seq![TokenModel::And];
    let mark = seq![lifetime_marker()];
    match t {
        TokenModel::And => {
            lemma_without_markers_one(TokenModel::And);
            lemma_without_markers_one(lifetime_marker());
            lemma_without_markers_concat(and, mark);
            assert(with_lifetime(t) == and + mark);
        },
        TokenModel::AndAnd => {
            lemma_without_markers_one(TokenModel::And);
            lemma_without_markers_one(lifetime_marker());
            lemma_without_markers_concat(and, mark);
            lemma_without_markers_concat(and + mark, and + mark);
            assert(with_lifetime(t) == (and + mark) + (and + mark));
        },
        TokenModel::Group { delimiter, stream } => {
            if delimiter == Delimiter::Parenthesis {
                let rewritten = TokenModel::Group { delimiter, stream: with_lifetimes(stream) };
                lemma_without_markers_one(rewritten);
            } else {
                lemma_without_markers_one(t);
            }
        },
        TokenModel::Other { .. } => {
            lemma_without_markers_one(t);
        },
    }
}

/// Rewriting adds lifetime markers and nothing else: apart from the markers,
/// and with `&&` read as two `&`, the output holds the tokens of the input,
/// in the same order and in the same groups. Nothing is cut off and nothing
/// changes its place, at any depth of nesting.
pub proof fn lemma_only_markers_are_added(ts: Seq<TokenModel>)
    ensures
        without_markers(with_lifetimes(ts)) == without_markers(ts),
    decreases ts,
{
    if ts.len() > 0 {
        let last = ts.last();
        lemma_only_markers_are_added(ts.drop_last());
        lemma_without_markers_concat(with_lifetimes(ts.drop_last()), with_lifetime(last));
        match last {
            TokenModel::Group { delimiter, stream } => {
                lemma_only_markers_are_added(stream);
            },
            _ => {},
        }
        lemma_rewritten_without_markers(last);
    }
}

} // verus!
