//! Whole requests: the handler's transitions folded over a sequence of
//! events, the writes it issues along the way, and what they leave in a
//! bucket whose writes replace the object under a key.

use crate::storage::ObjectView;
use crate::upload::{
    accepts, action_of, consistent, initial, step, usable_name, ActionView, DecodeError,
    EventView, SessionView, UploadError, UploadPhase,
};
use vstd::prelude::*;

verus! {

/// The state after handling `es` in order, starting from `s`.
pub open spec fn run(s: SessionView, es: Seq<EventView>) -> SessionView
    decreases es.len(),
{
    if es.len() == 0 {
        s
    } else {
        run(step(s, es[0]), es.drop_first())
    }
}

/// Each event of `es` is one that the state reached before it waits for.
pub open spec fn run_accepted(s: SessionView, es: Seq<EventView>) -> bool
    decreases es.len(),
{
    es.len() == 0 || (accepts(s.phase, es[0]) && run_accepted(step(s, es[0]), es.drop_first()))
}

/// The writes requested while handling `es`, in order.
pub open spec fn writes_issued(s: SessionView, es: Seq<EventView>) -> Seq<ObjectView>
    decreases es.len(),
{
    if es.len() == 0 {
        seq![]
    } else {
        let t = step(s, es[0]);
        let here = match action_of(t) {
            ActionView::Store(o) => seq![o],
            _ => seq![],
        };
        here + writes_issued(t, es.drop_first())
    }
}

/// The objects whose writes the store has confirmed.
pub open spec fn committed(s: SessionView) -> Seq<ObjectView> {
    s.objects.take(s.stored as int)
}

/// A bucket after the writes `objs`, applied in order.
pub open spec fn put_all(bucket: Map<Seq<char>, Seq<u8>>, objs: Seq<ObjectView>) -> Map<
    Seq<char>,
    Seq<u8>,
>
    decreases objs.len(),
{
    if objs.len() == 0 {
        bucket
    } else {
        put_all(bucket, objs.drop_last()).insert(objs.last().key, objs.last().data)
    }
}

/// Every part carries a non-empty file name.
pub open spec fn all_named(parts: Seq<ObjectView>) -> bool {
    forall|i: int| 0 <= i < parts.len() ==> (#[trigger] parts[i]).key.len() > 0
}

/// The events of reading `parts`, each under its key as file name.
pub open spec fn part_events(parts: Seq<ObjectView>) -> Seq<EventView> {
    parts.map_values(|p: ObjectView| EventView::Part(Some(p.key), p.data))
}

/// `n` confirmed writes.
pub open spec fn stored_events(n: nat) -> Seq<EventView> {
    Seq::new(n, |i: int| EventView::Stored)
}

/// The request reads `parts`, finds no further part, and the store confirms
/// the first `confirmed` writes; a failed write follows when `fails` holds.
pub open spec fn upload_events(parts: Seq<ObjectView>, confirmed: nat, fails: bool) -> Seq<
    EventView,
> {
    part_events(parts) + seq![EventView::PartsEnd] + stored_events(confirmed) + if fails {
        seq![EventView::StoreFailed]
    } else {
        seq![]
    }
}

proof fn lemma_run_one(s: SessionView, e: EventView)
    ensures
        run(s, seq![e]) == step(s, e),
        run_accepted(s, seq![e]) == accepts(s.phase, e),
        writes_issued(s, seq![e]) == match action_of(step(s, e)) {
            ActionView::Store(o) => seq![o],
            _ => Seq::<ObjectView>::empty(),
        },
{
    reveal_with_fuel(run, 2);
    reveal_with_fuel(run_accepted, 2);
    reveal_with_fuel(writes_issued, 2);
    assert(seq![e].drop_first() =~= Seq::<EventView>::empty());
    let here = match action_of(step(s, e)) {
        ActionView::Store(o) => seq![o],
        _ => Seq::<ObjectView>::empty(),
    };
    assert(here + Seq::<ObjectView>::empty() =~= here);
}

proof fn lemma_run_append(s: SessionView, a: Seq<EventView>, b: Seq<EventView>)
    ensures
        run(s, a + b) == run(run(s, a), b),
        run_accepted(s, a + b) == (run_accepted(s, a) && run_accepted(run(s, a), b)),
        writes_issued(s, a + b) == writes_issued(s, a) + writes_issued(run(s, a), b),
    decreases a.len(),
{
    if a.len() == 0 {
        assert(a + b =~= b);
        assert(writes_issued(s, a) + writes_issued(run(s, a), b) =~= writes_issued(s, b));
    } else {
        assert((a + b)[0] == a[0]);
        assert((a + b).drop_first() =~= a.drop_first() + b);
        lemma_run_append(step(s, a[0]), a.drop_first(), b);
        let t = step(s, a[0]);
        let here = match action_of(t) {
            ActionView::Store(o) => seq![o],
            _ => seq![],
        };
        assert(here + (writes_issued(t, a.drop_first()) + writes_issued(run(t, a.drop_first()), b))
            =~= (here + writes_issued(t, a.drop_first())) + writes_issued(run(t, a.drop_first()), b));
    }
}

proof fn lemma_decode_parts(s: SessionView, parts: Seq<ObjectView>)
    requires
        s.phase is Decoding,
        all_named(parts),
    ensures
        run(s, part_events(parts)) == (SessionView { objects: s.objects + parts, ..s }),
        run_accepted(s, part_events(parts)),
        writes_issued(s, part_events(parts)) == Seq::<ObjectView>::empty(),
    decreases parts.len(),
{
    let es = part_events(parts);
    if parts.len() == 0 {
        assert(s.objects + parts =~= s.objects);
    } else {
        let p = parts[0];
        assert(es[0] == EventView::Part(Some(p.key), p.data));
        assert(p.key.len() > 0);
        let t = step(s, es[0]);
        assert(t == (SessionView { objects: s.objects.push(p), ..s }));
        assert(es.drop_first() =~= part_events(parts.drop_first()));
        assert(all_named(parts.drop_first())) by {
            assert forall|i: int| 0 <= i < parts.drop_first().len() implies (
            #[trigger] parts.drop_first()[i]).key.len() > 0 by {
                assert(parts.drop_first()[i] == parts[i + 1]);
            }
        }
        lemma_decode_parts(t, parts.drop_first());
        assert(s.objects.push(p) + parts.drop_first() =~= s.objects + parts);
        assert(writes_issued(s, es) =~= Seq::<ObjectView>::empty());
    }
}

proof fn lemma_confirm_writes(s: SessionView, m: nat)
    requires
        s.phase is Storing,
        s.stored < s.objects.len(),
        s.stored as int + m <= s.objects.len(),
    ensures
        run(s, stored_events(m)) == (SessionView {
            phase: if s.stored as int + m < s.objects.len() {
                UploadPhase::Storing
            } else {
                UploadPhase::Complete
            },
            stored: s.stored + m,
            ..s
        }),
        run_accepted(s, stored_events(m)),
        writes_issued(s, stored_events(m)) == s.objects.subrange(
            s.stored as int + 1,
            if s.stored as int + m < s.objects.len() {
                s.stored as int + m + 1
            } else {
                s.objects.len() as int
            },
        ),
    decreases m,
{
    let es = stored_events(m);
    if m == 0 {
        assert(s.objects.subrange(s.stored as int + 1, s.stored as int + 1) =~= Seq::<ObjectView>::empty());
    } else {
        assert(es[0] == EventView::Stored);
        assert(es.drop_first() =~= stored_events((m - 1) as nat));
        let t = step(s, es[0]);
        if s.stored as int + 1 == s.objects.len() {
            assert(es =~= seq![EventView::Stored]);
            lemma_run_one(s, EventView::Stored);
            assert(writes_issued(s, es) =~= s.objects.subrange(s.stored as int + 1, s.objects.len() as int));
        } else {
            lemma_confirm_writes(t, (m - 1) as nat);
            let end = if s.stored as int + m < s.objects.len() {
                s.stored as int + m + 1
            } else {
                s.objects.len() as int
            };
            assert(seq![s.objects[s.stored as int + 1]] + s.objects.subrange(s.stored as int + 2, end)
                =~= s.objects.subrange(s.stored as int + 1, end));
        }
    }
}

proof fn lemma_step_consistent(s: SessionView, e: EventView)
    requires
        consistent(s),
        accepts(s.phase, e),
    ensures
        consistent(step(s, e)),
{
}

proof fn lemma_run_consistent(s: SessionView, es: Seq<EventView>)
    requires
        consistent(s),
        run_accepted(s, es),
    ensures
        consistent(run(s, es)),
    decreases es.len(),
{
    if es.len() > 0 {
        lemma_step_consistent(s, es[0]);
        lemma_run_consistent(step(s, es[0]), es.drop_first());
    }
}

/// After `put_all`, the key of `objs[i]` holds its data when no later write
/// uses the same key.
pub proof fn lemma_put_all_latest(bucket: Map<Seq<char>, Seq<u8>>, objs: Seq<ObjectView>, i: int)
    requires
        0 <= i < objs.len(),
        forall|j: int| i < j < objs.len() ==> (#[trigger] objs[j]).key != objs[i].key,
    ensures
        put_all(bucket, objs).contains_key(objs[i].key),
        put_all(bucket, objs)[objs[i].key] == objs[i].data,
    decreases objs.len(),
{
    if i < objs.len() - 1 {
        let init = objs.drop_last();
        assert(init[i] == objs[i]);
        assert forall|j: int| i < j < init.len() implies (#[trigger] init[j]).key != init[i].key by {
            assert(init[j] == objs[j]);
        }
        lemma_put_all_latest(bucket, init, i);
        assert(objs.last() == objs[objs.len() - 1]);
    }
}

/// A request that ends in success has had every decoded object written and
/// confirmed, whatever events led there.
pub proof fn lemma_success_means_all_stored(es: Seq<EventView>)
    requires
        run_accepted(initial(), es),
        run(initial(), es).phase is Complete,
    ensures
        committed(run(initial(), es)) == run(initial(), es).objects,
        action_of(run(initial(), es)) == ActionView::Respond(Ok(())),
{
    lemma_run_consistent(initial(), es);
    let f = run(initial(), es);
    assert(f.objects.take(f.stored as int) =~= f.objects);
}

/// Reading named parts, then writing each one with success, answers with
/// success; the writes are the parts in order, and afterwards each part
/// that no later part shares a name with is found under its name with its
/// data.
pub proof fn lemma_upload_stores_every_part(
    parts: Seq<ObjectView>,
    bucket: Map<Seq<char>, Seq<u8>>,
)
    requires
        parts.len() >= 1,
        all_named(parts),
    ensures
        ({
            let es = upload_events(parts, parts.len(), false);
            let f = run(initial(), es);
            &&& run_accepted(initial(), es)
            &&& f.phase == UploadPhase::Complete
            &&& action_of(f) == ActionView::Respond(Ok(()))
            &&& writes_issued(initial(), es) == parts
            &&& committed(f) == parts
            &&& forall|i: int|
                0 <= i < parts.len() && (forall|j: int|
                    i < j < parts.len() ==> (#[trigger] parts[j]).key != parts[i].key) ==> {
                    &&& put_all(bucket, committed(f)).contains_key(#[trigger] parts[i].key)
                    &&& put_all(bucket, committed(f))[parts[i].key] == parts[i].data
                }
        }),
{
    let n = parts.len();
    let a = part_events(parts);
    let b = seq![EventView::PartsEnd];
    let c = stored_events(n);
    let es = upload_events(parts, n, false);
    assert(es =~= a + b + c);
    lemma_decode_parts(initial(), parts);
    let s1 = run(initial(), a);
    assert(s1.objects =~= parts);
    lemma_run_append(initial(), a, b);
    lemma_run_one(s1, EventView::PartsEnd);
    let s2 = run(s1, b);
    assert(writes_issued(s1, b) =~= seq![parts[0]]);
    lemma_confirm_writes(s2, n);
    lemma_run_append(initial(), a + b, c);
    assert(seq![parts[0]] + parts.subrange(1, n as int) =~= parts);
    assert(Seq::<ObjectView>::empty() + seq![parts[0]] =~= seq![parts[0]]);
    let f = run(initial(), es);
    assert(committed(f) =~= parts);
    assert forall|i: int|
        0 <= i < parts.len() && (forall|j: int|
            i < j < parts.len() ==> (#[trigger] parts[j]).key != parts[i].key) implies {
        &&& put_all(bucket, committed(f)).contains_key(#[trigger] parts[i].key)
        &&& put_all(bucket, committed(f))[parts[i].key] == parts[i].data
    } by {
        lemma_put_all_latest(bucket, parts, i);
    }
}

/// A request with no parts answers with success and writes nothing.
pub proof fn lemma_empty_upload()
    ensures
        ({
            let es = upload_events(seq![], 0, false);
            &&& run_accepted(initial(), es)
            &&& run(initial(), es).phase == UploadPhase::Complete
            &&& action_of(run(initial(), es)) == ActionView::Respond(Ok(()))
            &&& writes_issued(initial(), es) == Seq::<ObjectView>::empty()
        }),
{
    let es = upload_events(seq![], 0, false);
    assert(es =~= seq![EventView::PartsEnd]);
    lemma_run_one(initial(), EventView::PartsEnd);
}

/// A part without a usable file name ends the request with a failure before
/// any write, and the request waits for nothing more.
pub proof fn lemma_unnamed_part_fails(
    parts: Seq<ObjectView>,
    name: Option<Seq<char>>,
    data: Seq<u8>,
)
    requires
        all_named(parts),
        !usable_name(name),
    ensures
        ({
            let es = part_events(parts).push(EventView::Part(name, data));
            let f = run(initial(), es);
            &&& run_accepted(initial(), es)
            &&& f.phase == UploadPhase::Failed(UploadError::Decode(DecodeError::MissingFileName))
            &&& action_of(f) == ActionView::Respond(
                Err(UploadError::Decode(DecodeError::MissingFileName)),
            )
            &&& writes_issued(initial(), es) == Seq::<ObjectView>::empty()
            &&& committed(f) == Seq::<ObjectView>::empty()
            &&& forall|e: EventView| !accepts(f.phase, e)
        }),
{
    let a = part_events(parts);
    let b = seq![EventView::Part(name, data)];
    assert(a.push(EventView::Part(name, data)) =~= a + b);
    lemma_decode_parts(initial(), parts);
    lemma_run_append(initial(), a, b);
    let s1 = run(initial(), a);
    lemma_run_one(s1, EventView::Part(name, data));
    assert(Seq::<ObjectView>::empty() + Seq::<ObjectView>::empty() =~= Seq::<ObjectView>::empty());
    let f = run(initial(), a + b);
    assert(committed(f) =~= Seq::<ObjectView>::empty());
}

/// When the `k`-th write fails, the request fails: the writes requested are
/// the first `k` parts, the first `k - 1` are confirmed, and no later part
/// is attempted.
pub proof fn lemma_failed_write_stops(parts: Seq<ObjectView>, k: nat)
    requires
        all_named(parts),
        1 <= k <= parts.len(),
    ensures
        ({
            let es = upload_events(parts, (k - 1) as nat, true);
            let f = run(initial(), es);
            &&& run_accepted(initial(), es)
            &&& f.phase == UploadPhase::Failed(UploadError::Store)
            &&& action_of(f) == ActionView::Respond(Err(UploadError::Store))
            &&& writes_issued(initial(), es) == parts.take(k as int)
            &&& committed(f) == parts.take(k - 1)
            &&& forall|e: EventView| !accepts(f.phase, e)
        }),
{
    let n = parts.len();
    let a = part_events(parts);
    let b = seq![EventView::PartsEnd];
    let c = stored_events((k - 1) as nat);
    let d = seq![EventView::StoreFailed];
    let es = upload_events(parts, (k - 1) as nat, true);
    assert(es =~= a + b + c + d);
    lemma_decode_parts(initial(), parts);
    let s1 = run(initial(), a);
    assert(s1.objects =~= parts);
    lemma_run_append(initial(), a, b);
    lemma_run_one(s1, EventView::PartsEnd);
    let s2 = run(s1, b);
    lemma_confirm_writes(s2, (k - 1) as nat);
    lemma_run_append(initial(), a + b, c);
    let s3 = run(s2, c);
    lemma_run_append(initial(), a + b + c, d);
    lemma_run_one(s3, EventView::StoreFailed);
    assert(Seq::<ObjectView>::empty() + seq![parts[0]] + parts.subrange(1, k as int)
        + Seq::<ObjectView>::empty() =~= parts.take(k as int));
    let f = run(initial(), es);
    assert(committed(f) =~= parts.take(k - 1));
}

/// Two parts under one file name in a successful request: the bucket holds
/// the later part's data under that name, provided no part after it shares
/// the name.
pub proof fn lemma_same_name_last_write_wins(
    parts: Seq<ObjectView>,
    bucket: Map<Seq<char>, Seq<u8>>,
    i: int,
    j: int,
)
    requires
        all_named(parts),
        0 <= i < j < parts.len(),
        parts[i].key == parts[j].key,
        forall|l: int| j < l < parts.len() ==> (#[trigger] parts[l]).key != parts[j].key,
    ensures
        ({
            let f = run(initial(), upload_events(parts, parts.len(), false));
            &&& f.phase == UploadPhase::Complete
            &&& put_all(bucket, committed(f))[parts[i].key] == parts[j].data
        }),
{
    lemma_upload_stores_every_part(parts, bucket);
    lemma_put_all_latest(bucket, parts, j);
}

} // verus!
