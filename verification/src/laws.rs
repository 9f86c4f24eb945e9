//! Laws the library states about itself, beyond the per-function
//! contracts: proved here once, for every input.

use vstd::prelude::*;

use crate::ast::SpecStatement;
use crate::parser::spec_parse_statement;
use crate::tokenizer::{lemma_next_token_progress, spec_next_token, Keyword, SpecTok};
use crate::SpecParseError;

verus! {

/// Once the scanner has returned the end marker, every further scan
/// returns the end marker again from the same position: exhaustion is
/// absorbing.  Together with [`crate::tokenizer::lemma_tokenize_from_shape`],
/// which bounds the token count by the input length plus one, this is why
/// a caller looping on `next_token` always terminates.
pub proof fn lemma_eof_stays(s: Seq<char>, pos: nat)
    requires
        pos <= s.len(),
        spec_next_token(s, pos).0 is Eof,
    ensures
        spec_next_token(s, spec_next_token(s, pos).1) == (SpecTok::Eof, spec_next_token(s, pos).1),
{
    lemma_next_token_progress(s, pos);
}

/// Every well-formed two-column selection parses to exactly the selection
/// statement with those two columns and that table, with no filter and no
/// ordering: for all identifiers `c1`, `c2` and `t`, the token sequence of
/// `SELECT c1, c2 FROM t` yields
/// `Select { columns: [c1, c2], table: t, selection: None, order_by: None }`.
pub proof fn lemma_select_two_columns(c1: Seq<char>, c2: Seq<char>, t: Seq<char>)
    ensures
        ({
            let toks = seq![
                SpecTok::Keyword(Keyword::Select),
                SpecTok::Identifier(c1),
                SpecTok::Comma,
                SpecTok::Identifier(c2),
                SpecTok::Keyword(Keyword::From),
                SpecTok::Identifier(t),
                SpecTok::Eof,
            ];
            spec_parse_statement(toks) == Ok::<_, SpecParseError>(
                SpecStatement::Select {
                    columns: seq![c1, c2],
                    table: t,
                    selection: None,
                    order_by: None,
                },
            )
        }),
{
    let toks = seq![
        SpecTok::Keyword(Keyword::Select),
        SpecTok::Identifier(c1),
        SpecTok::Comma,
        SpecTok::Identifier(c2),
        SpecTok::Keyword(Keyword::From),
        SpecTok::Identifier(t),
        SpecTok::Eof,
    ];
    let e = Seq::<Seq<char>>::empty();
    assert(e.push(c1) =~= seq![c1]);
    assert(seq![c1].push(c2) =~= seq![c1, c2]);
    assert(crate::parser::spec_select_columns(toks, 4, seq![c1, c2]) == Ok::<_, SpecParseError>(
        (seq![c1, c2], 5nat),
    ));
    assert(crate::parser::spec_select_columns(toks, 3, seq![c1]) == Ok::<_, SpecParseError>(
        (seq![c1, c2], 5nat),
    ));
    assert(crate::parser::spec_select_columns(toks, 2, seq![c1]) == Ok::<_, SpecParseError>(
        (seq![c1, c2], 5nat),
    ));
    assert(crate::parser::spec_select_columns(toks, 1, e) == Ok::<_, SpecParseError>(
        (seq![c1, c2], 5nat),
    ));
}

} // verus!
