//! The interface the parser implements. The parser itself is a
//! collaborator outside this library: it turns source text into the
//! untyped tree the analysis pass consumes.

use vstd::prelude::*;
use crate::ast::Expr;
use crate::types::Ident;

verus! {

/// Marker for errors a parser reports.
pub trait ParserError {

}

/// What a parser offers: a whole program, and each syntactic level
/// down to single expressions, each call consuming tokens.
pub trait Parse {
    fn parse_prog(&mut self) -> Vec<Expr>;

    fn parse_level(&mut self, level: u8) -> Expr;

    fn parse_member(&mut self) -> Expr;

    fn parse_call_fn(&mut self) -> Expr;

    fn parse_expr(&mut self) -> Expr;

    fn parse_declare(&mut self) -> Expr;

    fn parse_declare_fn(&mut self, id: Ident) -> Expr;

    fn parse_if_expr(&mut self) -> Expr;

    fn parse_while_expr(&mut self) -> Expr;

    fn parse_ret_expr(&mut self) -> Expr;

    fn parse_body(&mut self) -> Vec<Expr>;

    fn parse_list(&mut self) -> Vec<Expr>;
}

} // verus!
