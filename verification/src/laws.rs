//! The laws of the conversation core, stated over the models that the
//! executable functions' contracts speak of, and proved once and for
//! all: the bounded-history window, prompt purity, the history bound of
//! reply production, the duplicate-recovery behaviour, and the
//! temperature clamp.
use crate::conversation::ConversationModel;
use crate::conversation::SpeakerModel;
use crate::conversation::TurnModel;
use crate::conversation::spec_add_turn;
use crate::conversation::spec_is_duplicate;
use crate::conversation::spec_process_first;
use crate::conversation::spec_prompt;
use crate::conversation::spec_record_reply;
use crate::conversation::spec_truncate_to_last;
use crate::settings::spec_clamped_temperature;
use crate::text::spec_trim_start;
use vstd::prelude::*;

verus! {

/// `h` after every turn of `ts` is appended in order through the
/// bounded add.
pub open spec fn spec_add_all(h: Seq<TurnModel>, limit: usize, ts: Seq<TurnModel>) -> Seq<
    TurnModel,
>
    decreases ts.len(),
{
    if ts.len() == 0 {
        h
    } else {
        spec_add_all(spec_add_turn(h, limit, ts[0]), limit, ts.drop_first())
    }
}

/// The bounded-history law: starting within a positive limit, any
/// sequence of appended turns leaves the history within the limit, and
/// what is retained is exactly the most recent part of the full
/// insertion order, in original order.
pub proof fn lemma_history_window(h: Seq<TurnModel>, limit: usize, ts: Seq<TurnModel>)
    requires
        limit > 0,
        h.len() <= limit,
    ensures
        spec_add_all(h, limit, ts).len() <= limit,
        spec_add_all(h, limit, ts) == ({
            let all = h + ts;
            if all.len() <= limit {
                all
            } else {
                all.skip(all.len() - limit)
            }
        }),
    decreases ts.len(),
{
    let all = h + ts;
    if ts.len() == 0 {
        assert(all =~= h);
    } else {
        let h1 = spec_add_turn(h, limit, ts[0]);
        let rest = ts.drop_first();
        lemma_history_window(h1, limit, rest);
        let all1 = h1 + rest;
        if h.len() >= limit {
            assert(h.len() == limit);
            assert(h1 == h.drop_first().push(ts[0]));
            assert(all1 =~= all.skip(1));
            assert(all.len() == limit + ts.len());
            if all1.len() <= limit {
                assert(ts.len() == 1);
                assert(spec_add_all(h, limit, ts) == all1);
                assert(all.skip(all.len() - limit) =~= all.skip(1));
            } else {
                assert(spec_add_all(h, limit, ts) == all1.skip(all1.len() - limit));
                assert(all.skip(1).skip(all1.len() - limit) =~= all.skip(all.len() - limit));
            }
        } else {
            assert(h1 == h.push(ts[0]));
            assert(all1 =~= all);
        }
    }
}

/// Prompt purity: the rendered prompt is a function of the history and
/// the settings alone, so identical history and settings always yield
/// an identical prompt.
pub proof fn lemma_prompt_deterministic(a: ConversationModel, b: ConversationModel)
    requires
        a.history == b.history,
        a.settings == b.settings,
    ensures
        spec_prompt(a) == spec_prompt(b),
{
}

/// The conversation after full reply production: the first reply is
/// handed in, and — only when it triggered the one-shot recovery — the
/// second one after it.
pub open spec fn spec_produce_reply(
    m: ConversationModel,
    raw1: Seq<char>,
    raw2: Seq<char>,
) -> ConversationModel {
    if spec_is_duplicate(m, raw1) {
        spec_record_reply(m, spec_trim_start(raw2))
    } else {
        spec_record_reply(m, spec_trim_start(raw1))
    }
}

/// Reply production appends at most one turn: whichever path the
/// protocol takes, the history ends no longer than it began plus one.
pub proof fn lemma_reply_history_bound(m: ConversationModel, raw1: Seq<char>, raw2: Seq<char>)
    ensures
        spec_produce_reply(m, raw1, raw2).history.len() <= m.history.len() + 1,
        spec_is_duplicate(m, raw1) ==> spec_process_first(m, raw1) == m,
{
}

/// The duplicate-recovery law: when the first reply, trimmed, is
/// non-empty and equals the last produced reply, nothing is recorded —
/// one more request is issued, whose context is the history truncated
/// to its single most recent turn. Whatever the second reply is, its
/// trimmed text is what ends up recorded and appended as the newest
/// assistant turn; only the retry context was narrowed, never the
/// stored turns.
pub proof fn lemma_duplicate_detection(m: ConversationModel, raw1: Seq<char>, raw2: Seq<char>)
    requires
        spec_is_duplicate(m, raw1),
    ensures
        spec_process_first(m, raw1) == m,
        m.history.len() >= 1 ==> spec_truncate_to_last(m).history.len() == 1,
        m.history.len() >= 1 ==> spec_truncate_to_last(m).history.first() == m.history.last(),
        spec_produce_reply(m, raw1, raw2) == spec_record_reply(m, spec_trim_start(raw2)),
        spec_produce_reply(m, raw1, raw2).last_reply == Some(spec_trim_start(raw2)),
        spec_produce_reply(m, raw1, raw2).history.last() == (TurnModel {
            from: SpeakerModel::Myself,
            text: spec_trim_start(raw2),
        }),
        m.limit == 0 || m.history.len() < m.limit ==> spec_produce_reply(
            m,
            raw1,
            raw2,
        ).history == m.history.push(
            TurnModel { from: SpeakerModel::Myself, text: spec_trim_start(raw2) },
        ),
{
    let t = spec_truncate_to_last(m);
    if m.history.len() > 1 {
        assert(t.history == m.history.skip(m.history.len() - 1));
        assert(t.history.len() == 1);
    }
    let rec = spec_record_reply(m, spec_trim_start(raw2));
    assert(rec.history.last() == (TurnModel {
        from: SpeakerModel::Myself,
        text: spec_trim_start(raw2),
    }));
}

/// The clamp law: wherever the temperature starts, one adjustment lands
/// in 0 ..= 20 tenths — exactly at the sum when that is in range, and
/// pinned to the nearer bound when it is not.
pub proof fn lemma_temperature_clamped(t: int, delta: int)
    ensures
        0 <= spec_clamped_temperature(t, delta) <= 20,
        t + delta < 0 ==> spec_clamped_temperature(t, delta) == 0,
        t + delta > 20 ==> spec_clamped_temperature(t, delta) == 20,
        0 <= t + delta <= 20 ==> spec_clamped_temperature(t, delta) == t + delta,
{
}

} // verus!
