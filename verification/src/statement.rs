//! Statements as the policy layer sees them.

use vstd::prelude::*;

use crate::ascii;

verus! {

/// One parsed SQL statement, carried as its canonical textual rendering: the
/// text the hosting router's parser renders back from the statement's syntax
/// tree. The policy layer reads nothing of a statement but this rendering.
pub struct Statement {
    /// The canonical rendering, in bytes.
    pub text: Vec<u8>,
}

impl View for Statement {
    type V = Seq<u8>;

    open spec fn view(&self) -> Seq<u8> {
        self.text@
    }
}

/// The cache key of a statement with the given canonical text: the text
/// case-folded to lowercase ASCII.
pub open spec fn key_of(text: Seq<u8>) -> Seq<u8> {
    ascii::lower(text)
}

/// The canonical texts of a statement batch, in order.
pub open spec fn texts_of(ast: Seq<Statement>) -> Seq<Seq<u8>> {
    ast.map_values(|s: Statement| s@)
}

impl Statement {
    /// Wraps canonical statement text.
    pub fn new(text: Vec<u8>) -> (s: Statement)
        ensures
            s@ == text@,
    {
        Statement { text }
    }

    /// Computes the statement's normalized cache key.
    pub fn key(&self) -> (r: Vec<u8>)
        ensures
            r@ == key_of(self@),
    {
        ascii::to_ascii_lowercase(&self.text)
    }

    /// Returns the statement in normalized form: the same statement with its
    /// text case-folded.
    pub fn normalize(&self) -> (r: Statement)
        ensures
            r@ == key_of(self@),
    {
        Statement { text: ascii::to_ascii_lowercase(&self.text) }
    }
}

/// Normalization is idempotent: a statement and its normalized form map to
/// the same cache key, so statements differing only in ASCII letter case
/// share one cache entry.
pub proof fn lemma_key_normalize_idempotent(s: Statement, n: Statement)
    requires
        n@ == key_of(s@),
    ensures
        key_of(n@) == key_of(s@),
{
    ascii::lemma_lower_idempotent(s@);
}

} // verus!
