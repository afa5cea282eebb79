//! What holds of every health check and of every registry, stated over the
//! models that the contracts of the library use, and proved.

use crate::health::{
    failure_message, failure_prefix, health_of, timeout_message, timeout_prefix, ProbeOutcomeView,
};
use crate::pool::{stored_after_init, DbPool, PoolRegistry};
use crate::response::{
    field_key, greeting, json_plain, needs_escape, plain_object_text, response_of, BodyField,
    HealthResponseView, STATUS_OK,
};
use vstd::prelude::*;

verus! {

/// `word` stands in `text` at position `at`.
pub open spec fn occurs_at(text: Seq<char>, word: Seq<char>, at: int) -> bool {
    &&& 0 <= at
    &&& at + word.len() <= text.len()
    &&& text.subrange(at, at + word.len()) == word
}

/// `word` stands somewhere in `text`.
pub open spec fn mentions(text: Seq<char>, word: Seq<char>) -> bool {
    exists|at: int| occurs_at(text, word, at)
}

/// The answer to an outcome, from end to end.
pub open spec fn answer_to(outcome: ProbeOutcomeView) -> HealthResponseView {
    response_of(health_of(outcome))
}

/// A probe that completed is answered with status 200 and the greeting
/// `Hello World with DB!` under `message`.
pub proof fn success_is_greeted()
    ensures
        answer_to(ProbeOutcomeView::Completed) == (HealthResponseView {
            status: 200,
            field: BodyField::Message,
            text: "Hello World with DB!"@,
        }),
{
}

/// The greeting needs no escape, so the body of the answer to a completed
/// probe is, letter for letter, `{"message":"Hello World with DB!"}`.
pub proof fn success_body_is_exact()
    ensures
        json_plain(greeting()),
        plain_object_text(field_key(BodyField::Message), greeting())
            == "{\"message\":\"Hello World with DB!\"}"@,
{
    reveal_strlit("Hello World with DB!");
    reveal_strlit("message");
    reveal_strlit("{\"");
    reveal_strlit("\":\"");
    reveal_strlit("\"}");
    reveal_strlit("{\"message\":\"Hello World with DB!\"}");
    assert(plain_object_text(field_key(BodyField::Message), greeting())
        =~= "{\"message\":\"Hello World with DB!\"}"@);
}

/// The messages add nothing that needs an escape: where the description of the
/// fault needs none, the whole message needs none, and the body is the
/// message in double quotes behind `{"error":` and before `}`.
pub proof fn error_body_is_exact(detail: Seq<char>)
    requires
        json_plain(detail),
    ensures
        json_plain(failure_message(detail)),
        json_plain(timeout_message(detail)),
        plain_object_text(field_key(BodyField::Error), failure_message(detail))
            == "{\"error\":\""@ + failure_message(detail) + "\"}"@,
        plain_object_text(field_key(BodyField::Error), timeout_message(detail))
            == "{\"error\":\""@ + timeout_message(detail) + "\"}"@,
{
    reveal_strlit("❌ DB error: ");
    reveal_strlit("❌ DB check timeout: ");
    reveal_strlit("error");
    reveal_strlit("{\"");
    reveal_strlit("\":\"");
    reveal_strlit("{\"error\":\"");
    assert("{\""@ + "error"@ + "\":\""@ =~= "{\"error\":\""@);
    assert forall|i: int| 0 <= i < failure_message(detail).len() implies !needs_escape(
        #[trigger] failure_message(detail)[i],
    ) by {
        if i >= 12 {
            assert(failure_message(detail)[i] == detail[i - 12]);
        }
    }
    assert forall|i: int| 0 <= i < timeout_message(detail).len() implies !needs_escape(
        #[trigger] timeout_message(detail)[i],
    ) by {
        if i >= 20 {
            assert(timeout_message(detail)[i] == detail[i - 20]);
        }
    }
}

/// A probe that failed is answered with status 200 and, under `error`, a text
/// that is not empty, names a database error and ends with the description of
/// the underlying error.
pub proof fn failure_is_reported(detail: Seq<char>)
    ensures
        answer_to(ProbeOutcomeView::Failed(detail)).status == 200,
        answer_to(ProbeOutcomeView::Failed(detail)).field == BodyField::Error,
        answer_to(ProbeOutcomeView::Failed(detail)).text == failure_message(detail),
        failure_message(detail).len() > 0,
        mentions(failure_message(detail), "DB error"@),
        occurs_at(failure_message(detail), detail, failure_prefix().len() as int),
{
    reveal_strlit("❌ DB error: ");
    reveal_strlit("DB error");
    let text = failure_message(detail);
    assert(text.subrange(2, 10) =~= "DB error"@);
    assert(occurs_at(text, "DB error"@, 2));
    assert(text.subrange(12, 12 + detail.len() as int) =~= detail);
}

/// A probe that ran out of time is answered with status 200 and, under
/// `error`, a text that is not empty, names a timeout and ends with the
/// description of the expiry.
pub proof fn timeout_is_reported(detail: Seq<char>)
    ensures
        answer_to(ProbeOutcomeView::TimedOut(detail)).status == 200,
        answer_to(ProbeOutcomeView::TimedOut(detail)).field == BodyField::Error,
        answer_to(ProbeOutcomeView::TimedOut(detail)).text == timeout_message(detail),
        timeout_message(detail).len() > 0,
        mentions(timeout_message(detail), "timeout"@),
        occurs_at(timeout_message(detail), detail, timeout_prefix().len() as int),
{
    reveal_strlit("❌ DB check timeout: ");
    reveal_strlit("timeout");
    let text = timeout_message(detail);
    assert(text.subrange(11, 18) =~= "timeout"@);
    assert(occurs_at(text, "timeout"@, 11));
    assert(text.subrange(20, 20 + detail.len() as int) =~= detail);
}

/// Every answer has status 200, and it carries `message` exactly when the probe
/// completed.
pub proof fn every_answer_is_well_shaped(outcome: ProbeOutcomeView)
    ensures
        answer_to(outcome).status == STATUS_OK,
        answer_to(outcome).field == BodyField::Message <==> outcome is Completed,
        outcome is Completed ==> answer_to(outcome).text == greeting(),
{
}

/// An answer belongs to one outcome only: two probes with the same answer had
/// the same outcome. So whatever else is being handled at the time, an answer
/// tells of its own probe and of no other.
pub proof fn answer_tells_its_outcome(first: ProbeOutcomeView, second: ProbeOutcomeView)
    requires
        answer_to(first) == answer_to(second),
    ensures
        first == second,
{
    reveal_strlit("❌ DB error: ");
    reveal_strlit("❌ DB check timeout: ");
    match (first, second) {
        (ProbeOutcomeView::Failed(a), ProbeOutcomeView::Failed(b)) => {
            same_prefix_same_rest(failure_prefix(), a, b);
        },
        (ProbeOutcomeView::TimedOut(a), ProbeOutcomeView::TimedOut(b)) => {
            same_prefix_same_rest(timeout_prefix(), a, b);
        },
        (ProbeOutcomeView::Failed(a), ProbeOutcomeView::TimedOut(b)) => {
            assert(failure_message(a)[5] == 'e');
            assert(timeout_message(b)[5] == 'c');
        },
        (ProbeOutcomeView::TimedOut(a), ProbeOutcomeView::Failed(b)) => {
            assert(timeout_message(a)[5] == 'c');
            assert(failure_message(b)[5] == 'e');
        },
        _ => {},
    }
}

/// Two texts that are equal behind the same prefix are equal.
proof fn same_prefix_same_rest(prefix: Seq<char>, a: Seq<char>, b: Seq<char>)
    requires
        prefix + a == prefix + b,
    ensures
        a == b,
{
    assert((prefix + a).len() == prefix.len() + a.len());
    assert((prefix + b).len() == prefix.len() + b.len());
    assert forall|i: int| 0 <= i < a.len() implies a[i] == b[i] by {
        assert((prefix + a)[prefix.len() + i] == a[i]);
        assert((prefix + b)[prefix.len() + i] == b[i]);
    }
    assert(a =~= b);
}

/// A pool that was stored in an empty registry is the pool that the registry
/// holds from then on: asking for the pool after that returns a handle to it.
pub proof fn stored_pool_is_found(before: PoolRegistry, after: PoolRegistry, pool: DbPool)
    requires
        before.pool() is None,
        after.pool() == stored_after_init(before.pool(), pool),
    ensures
        after.pool() == Some(pool),
{
}

/// A registry that holds a pool keeps it: an attempt to store another pool
/// leaves the first in place.
pub proof fn stored_pool_is_kept(before: PoolRegistry, after: PoolRegistry, pool: DbPool)
    requires
        before.pool() is Some,
        after.pool() == stored_after_init(before.pool(), pool),
    ensures
        after.pool() == before.pool(),
{
}

/// Of two pools stored one after the other in an empty registry, the registry
/// holds the first.
pub proof fn first_pool_wins(
    empty: PoolRegistry,
    once: PoolRegistry,
    twice: PoolRegistry,
    first: DbPool,
    second: DbPool,
)
    requires
        empty.pool() is None,
        once.pool() == stored_after_init(empty.pool(), first),
        twice.pool() == stored_after_init(once.pool(), second),
    ensures
        twice.pool() == Some(first),
{
}

} // verus!
