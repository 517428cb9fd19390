//! The query audit logger component.
//!
//! Stateless: it renders every statement of a batch, joins them with `"; "`,
//! and hands the host one audit record tagged with the session's identity
//! labels. It always allows, never fails, and never touches shared state, so
//! it is safe to run with no synchronization at all.

use vstd::prelude::*;

use crate::plugins::{Error, Plugin, PluginOutput, PluginState};
use crate::statement::{texts_of, Statement};

verus! {

/// `"; "`, the separator between rendered statements of one record.
pub open spec fn statement_sep() -> Seq<u8> {
    seq![59u8, 32u8]
}

/// `"[pool: "`, the record's first label.
pub open spec fn pool_label() -> Seq<u8> {
    seq![91u8, 112u8, 111u8, 111u8, 108u8, 58u8, 32u8]
}

/// `"][user: "`, the record's second label.
pub open spec fn user_label() -> Seq<u8> {
    seq![93u8, 91u8, 117u8, 115u8, 101u8, 114u8, 58u8, 32u8]
}

/// `"] "`, closing the labels before the statement text.
pub open spec fn label_end() -> Seq<u8> {
    seq![93u8, 32u8]
}

/// The rendered statements of a batch joined with `"; "`.
pub open spec fn joined(texts: Seq<Seq<u8>>) -> Seq<u8>
    decreases texts.len(),
{
    if texts.len() == 0 {
        Seq::empty()
    } else if texts.len() == 1 {
        texts[0]
    } else {
        joined(texts.drop_last()) + statement_sep() + texts.last()
    }
}

/// One audit record: the identity labels, then the joined statements.
///
/// The session's user value stands under the `pool` label and the database
/// name under the `user` label; downstream log consumers rely on this
/// historical field order, so it is kept exactly as it is.
pub open spec fn audit_record_of(user: Seq<u8>, db: Seq<u8>, texts: Seq<Seq<u8>>) -> Seq<u8> {
    pool_label() + user + user_label() + db + label_end() + joined(texts)
}

/// Joining one more statement appends the separator — except before the
/// first — and the statement's text.
proof fn lemma_joined_step(texts: Seq<Seq<u8>>, i: int)
    requires
        0 <= i < texts.len(),
    ensures
        joined(texts.take(i + 1)) == if i == 0 {
            texts[0]
        } else {
            joined(texts.take(i)) + statement_sep() + texts[i]
        },
{
    if i == 0 {
        assert(texts.take(1)[0] == texts[0]);
    } else {
        assert(texts.take(i + 1).drop_last() =~= texts.take(i));
        assert(texts.take(i + 1).last() == texts[i]);
    }
}

/// Appends the bytes of `src` to `dst`.
fn push_bytes(dst: &mut Vec<u8>, src: &Vec<u8>)
    ensures
        final(dst)@ == old(dst)@ + src@,
{
    for i in 0..src.len()
        invariant
            dst@ == old(dst)@ + src@.take(i as int),
    {
        dst.push(src[i]);
        proof {
            assert(dst@ =~= old(dst)@ + src@.take(i + 1));
        }
    }
    proof {
        assert(old(dst)@ + src@.take(src@.len() as int) =~= old(dst)@ + src@);
    }
}

/// The query audit logger policy component, constructed per
/// query-processing context with identity copied from the session.
pub struct QueryLogger {
    /// Whether the component emits records at all.
    pub enabled: bool,
    /// User the session authenticated as.
    pub user: Vec<u8>,
    /// Name of the database the session targets.
    pub db: Vec<u8>,
}

impl QueryLogger {
    /// Renders the audit record for a batch: the identity labels followed by
    /// every statement of the batch, joined with `"; "`. Returns nothing
    /// when the component is disabled. The host emits the returned record to
    /// its log sink; writing it is I/O outside this crate.
    pub fn audit_record(&self, ast: &Vec<Statement>) -> (r: Option<Vec<u8>>)
        ensures
            match r {
                Some(rec) => self.enabled && rec@ == audit_record_of(
                    self.user@,
                    self.db@,
                    texts_of(ast@),
                ),
                None => !self.enabled,
            },
    {
        if !self.enabled {
            return None;
        }
        let ghost head = pool_label() + self.user@ + user_label() + self.db@ + label_end();
        let mut rec: Vec<u8> = Vec::new();
        rec.push(91);
        rec.push(112);
        rec.push(111);
        rec.push(111);
        rec.push(108);
        rec.push(58);
        rec.push(32);
        push_bytes(&mut rec, &self.user);
        rec.push(93);
        rec.push(91);
        rec.push(117);
        rec.push(115);
        rec.push(101);
        rec.push(114);
        rec.push(58);
        rec.push(32);
        push_bytes(&mut rec, &self.db);
        rec.push(93);
        rec.push(32);
        proof {
            assert(rec@ =~= head + joined(texts_of(ast@).take(0)));
        }
        for i in 0..ast.len()
            invariant
                head == pool_label() + self.user@ + user_label() + self.db@ + label_end(),
                rec@ == head + joined(texts_of(ast@).take(i as int)),
        {
            if i > 0 {
                rec.push(59);
                rec.push(32);
            }
            push_bytes(&mut rec, &ast[i].text);
            proof {
                lemma_joined_step(texts_of(ast@), i as int);
                assert(texts_of(ast@)[i as int] == ast@[i as int]@);
                assert(rec@ =~= head + joined(texts_of(ast@).take(i + 1)));
            }
        }
        proof {
            assert(texts_of(ast@).take(ast@.len() as int) =~= texts_of(ast@));
        }
        Some(rec)
    }
}

impl Plugin for QueryLogger {
    open spec fn run_ens(
        pre: Self,
        post: Self,
        pre_state: PluginState,
        post_state: PluginState,
        ast: Seq<Statement>,
        r: Result<PluginOutput, Error>,
    ) -> bool {
        &&& post == pre
        &&& post_state == pre_state
        &&& r == Ok::<PluginOutput, Error>(PluginOutput::Allow)
    }

    open spec fn run_post_ens(
        pre: Self,
        post: Self,
        pre_state: PluginState,
        post_state: PluginState,
        ast: Seq<Statement>,
        responses: Seq<Vec<bytes::BytesMut>>,
    ) -> bool {
        &&& post == pre
        &&& post_state == pre_state
    }

    /// Pre-hook: always allows and never fails; emitting the record built by
    /// [`QueryLogger::audit_record`] is the host's part, at this same point.
    fn run(&mut self, plugin_state: &mut PluginState, ast: &Vec<Statement>) -> (r: Result<
        PluginOutput,
        Error,
    >) {
        Ok(PluginOutput::Allow)
    }

    /// Post-hook: a no-op.
    fn run_post(
        &mut self,
        plugin_state: &mut PluginState,
        ast: &Vec<Statement>,
        responses: &Vec<Vec<bytes::BytesMut>>,
    ) {
    }
}

} // verus!
