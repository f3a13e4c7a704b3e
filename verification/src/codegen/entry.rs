use super::args::{args_converts, first_arm_error, ExprMatch, MatchArgs};
use super::laws::conversion_determines_match;
use super::to_tokens::{error_text, match_text, tokenize_error};
use proc_macro2::{LexError, TokenStream};
use vstd::prelude::*;

verus! {

#[verifier::external_type_specification]
#[verifier::external_body]
pub struct ExTokenStream(proc_macro2::TokenStream);

#[verifier::external_type_specification]
#[verifier::external_body]
pub struct ExLexError(proc_macro2::LexError);

/// `<proc_macro2::TokenStream as FromStr>::from_str`: lexes `text` into
/// tokens, or fails with a `LexError`. Nothing is stated of the outcome:
/// which lexer runs (the compiler's inside a procedural macro, the crate's
/// own elsewhere) depends on where the call is made.
#[verifier::external_body]
fn lex_tokens(text: &str) -> Result<TokenStream, LexError> {
    text.parse()
}

/// The source text that the macro expands a match expression into: the
/// rewritten match, or, where an arm cannot be rewritten, code that makes the
/// compiler report why.
pub fn expand_match(args: ExprMatch) -> (t: String)
    ensures
        first_arm_error(args.arms@) matches Some(e) ==> t@ == error_text(e),
        first_arm_error(args.arms@) is None ==> exists|m: MatchArgs|
            #[trigger] args_converts(args, m),
        first_arm_error(args.arms@) is None ==> forall|m: MatchArgs|
            #[trigger] args_converts(args, m) ==> t@ == match_text(m),
{
    let ghost input = args;
    match MatchArgs::try_from(args) {
        Ok(m) => {
            let ghost converted = m;
            let t = tokenize_error(Ok(m.into_token_stream()));
            assert(args_converts(input, converted));
            assert forall|m2: MatchArgs| #[trigger] args_converts(input, m2) implies t@ == match_text(
                m2,
            ) by {
                conversion_determines_match(input, converted, m2);
            }
            t
        },
        Err(e) => tokenize_error(Err(e)),
    }
}

/// The tokens that the macro expands a match expression into: the text of
/// `expand_match(args)`, lexed.
pub fn make_match(args: ExprMatch) -> Result<TokenStream, LexError> {
    let text = expand_match(args);
    lex_tokens(text.as_str())
}

} // verus!
