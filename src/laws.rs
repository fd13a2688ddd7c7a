use vstd::prelude::*;
use crate::flow::{ActionView, EventView, FlowView, STATUS_NOT_FOUND, STATUS_OK, create_start, not_found_text, read_start, respond, step_spec, update_start};
use crate::record::record_text;

verus! {

/// What a write action does to the store's contents.
pub open spec fn store_after(store: Map<Seq<char>, Seq<char>>, a: ActionView) -> Map<Seq<char>, Seq<char>> {
    match a {
        ActionView::StoreSet { key, value } => store.insert(key, value),
        _ => store,
    }
}

/// The event with which a reachable store and broker answer an action.
pub open spec fn answer(store: Map<Seq<char>, Seq<char>>, a: ActionView) -> EventView {
    match a {
        ActionView::StoreGet { key } => EventView::Fetched(
            if store.contains_key(key) {
                Some(store[key])
            } else {
                None
            },
        ),
        ActionView::Publish { .. } => EventView::Published,
        _ => EventView::Stored,
    }
}

/// Carries a flow on from its pending action against a store and a broker that
/// are reachable and acknowledge every request, for at most `fuel` actions:
/// the store's contents afterwards, and the actions taken.
pub open spec fn serve(store: Map<Seq<char>, Seq<char>>, f: FlowView, a: ActionView, fuel: nat) -> (
    Map<Seq<char>, Seq<char>>,
    Seq<ActionView>,
)
    decreases fuel,
{
    if fuel == 0 {
        (store, seq![])
    } else if a is Respond {
        (store, seq![a])
    } else {
        let next = step_spec(f, answer(store, a));
        let rest = serve(store_after(store, a), next.0, next.1, (fuel - 1) as nat);
        (rest.0, seq![a] + rest.1)
    }
}

/// A whole request, from its first action to its answer, against a reachable
/// store and broker; no request takes more than three actions.
pub open spec fn run(store: Map<Seq<char>, Seq<char>>, start: (FlowView, ActionView)) -> (
    Map<Seq<char>, Seq<char>>,
    Seq<ActionView>,
) {
    serve(store, start.0, start.1, 3)
}

/// A create writes the record to the store once, publishes it once on the
/// model's topic keyed by the same identifier, and answers with the record.
pub proof fn lemma_create_writes_then_publishes(store: Map<Seq<char>, Seq<char>>, id: Seq<char>, data: Seq<char>, model: Seq<char>)
    ensures
        ({
            let text = record_text(id, data, model);
            run(store, create_start(id, data, model)) == (
                store.insert(id, text),
                seq![
                    ActionView::StoreSet { key: id, value: text },
                    ActionView::Publish { topic: model, key: id, payload: text },
                    respond(STATUS_OK, text),
                ],
            )
        }),
{
    reveal_with_fuel(serve, 4);
    let text = record_text(id, data, model);
    let s = create_start(id, data, model);
    let a0 = s.1;
    let s1 = step_spec(s.0, answer(store, a0));
    let s2 = step_spec(s1.0, answer(store_after(store, a0), s1.1));
    assert(serve(store.insert(id, text), s2.0, s2.1, 1).1 =~= seq![respond(STATUS_OK, text)]);
    assert(serve(store.insert(id, text), s1.0, s1.1, 2).1 =~= seq![
        ActionView::Publish { topic: model, key: id, payload: text },
        respond(STATUS_OK, text),
    ]);
    assert(run(store, s).1 =~= seq![
        ActionView::StoreSet { key: id, value: text },
        ActionView::Publish { topic: model, key: id, payload: text },
        respond(STATUS_OK, text),
    ]);
}


/// A read of an identifier answers with what the store holds under it.
proof fn lemma_read_answers_store(store: Map<Seq<char>, Seq<char>>, id: Seq<char>)
    ensures
        store.contains_key(id) ==> run(store, read_start(id)) == (
            store,
            seq![ActionView::StoreGet { key: id }, respond(STATUS_OK, store[id])],
        ),
        !store.contains_key(id) ==> run(store, read_start(id)) == (
            store,
            seq![ActionView::StoreGet { key: id }, respond(STATUS_NOT_FOUND, not_found_text())],
        ),
{
    reveal_with_fuel(serve, 3);
    let s = read_start(id);
    let s1 = step_spec(s.0, answer(store, s.1));
    assert(serve(store, s1.0, s1.1, 2).1 =~= seq![s1.1]);
    assert(run(store, s).1 =~= seq![s.1, s1.1]);
}

/// After a create, a read of the identifier it used answers with the record
/// that carries the request's payload and model.
pub proof fn lemma_read_after_create(store: Map<Seq<char>, Seq<char>>, id: Seq<char>, data: Seq<char>, model: Seq<char>)
    ensures
        run(run(store, create_start(id, data, model)).0, read_start(id)).1.last() == respond(
            STATUS_OK,
            record_text(id, data, model),
        ),
{
    lemma_create_writes_then_publishes(store, id, data, model);
    lemma_read_answers_store(run(store, create_start(id, data, model)).0, id);
}

/// After an update, a read of the identifier answers with the new payload and
/// model, and no longer with a different record that was stored before. The
/// update itself writes once and answers with the new record.
pub proof fn lemma_read_after_update(store: Map<Seq<char>, Seq<char>>, id: Seq<char>, data: Seq<char>, model: Seq<char>)
    ensures
        ({
            let text = record_text(id, data, model);
            let updated = run(store, update_start(id, data, model));
            let read = run(updated.0, read_start(id)).1.last();
            &&& updated == (
                store.insert(id, text),
                seq![ActionView::StoreSet { key: id, value: text }, respond(STATUS_OK, text)],
            )
            &&& read == respond(STATUS_OK, text)
            &&& store.contains_key(id) && store[id] != text ==> read != respond(STATUS_OK, store[id])
        }),
{
    reveal_with_fuel(serve, 3);
    let text = record_text(id, data, model);
    let s = update_start(id, data, model);
    let s1 = step_spec(s.0, answer(store, s.1));
    assert(serve(store.insert(id, text), s1.0, s1.1, 2).1 =~= seq![s1.1]);
    assert(run(store, s).1 =~= seq![s.1, s1.1]);
    lemma_read_answers_store(store.insert(id, text), id);
}

/// A read of an identifier that the store does not hold answers "not found",
/// never a success.
pub proof fn lemma_read_of_unknown(store: Map<Seq<char>, Seq<char>>, id: Seq<char>)
    requires
        !store.contains_key(id),
    ensures
        run(store, read_start(id)).1.last() == respond(STATUS_NOT_FOUND, not_found_text()),
        forall|body: Seq<char>| run(store, read_start(id)).1.last() != #[trigger] respond(STATUS_OK, body),
{
    lemma_read_answers_store(store, id);
}


/// The actions a flow takes when it is handed `events`, one action per event.
pub open spec fn trace(f: FlowView, events: Seq<EventView>) -> Seq<ActionView>
    decreases events.len(),
{
    if events.len() == 0 {
        seq![]
    } else {
        let next = step_spec(f, events[0]);
        seq![next.1] + trace(next.0, events.drop_first())
    }
}

/// The number of store writes among `acts`.
pub open spec fn count_writes(acts: Seq<ActionView>) -> nat
    decreases acts.len(),
{
    if acts.len() == 0 {
        0
    } else {
        (if acts[0] is StoreSet { 1nat } else { 0nat }) + count_writes(acts.drop_first())
    }
}

/// The number of publishes among `acts`.
pub open spec fn count_publishes(acts: Seq<ActionView>) -> nat
    decreases acts.len(),
{
    if acts.len() == 0 {
        0
    } else {
        (if acts[0] is Publish { 1nat } else { 0nat }) + count_publishes(acts.drop_first())
    }
}

proof fn lemma_counts_prepend(a: ActionView, rest: Seq<ActionView>)
    ensures
        count_writes(seq![a] + rest) == (if a is StoreSet { 1nat } else { 0nat }) + count_writes(rest),
        count_publishes(seq![a] + rest) == (if a is Publish { 1nat } else { 0nat }) + count_publishes(rest),
{
    assert((seq![a] + rest).drop_first() =~= rest);
}

/// Once a flow is past its store write and its publish, whatever comes back,
/// it writes nothing and publishes nothing more.
proof fn lemma_quiet_after_publish(f: FlowView, events: Seq<EventView>)
    requires
        f is Publishing || f is Finished,
    ensures
        count_writes(trace(f, events)) == 0,
        count_publishes(trace(f, events)) == 0,
    decreases events.len(),
{
    if events.len() > 0 {
        let next = step_spec(f, events[0]);
        lemma_quiet_after_publish(next.0, events.drop_first());
        lemma_counts_prepend(next.1, trace(next.0, events.drop_first()));
    }
}

/// Whatever the store and the broker answer, a create writes its record to the
/// store exactly once and publishes at most once; each write and each publish
/// carries the record under the create's identifier, the publish on the
/// model's topic.
pub proof fn lemma_create_acts_once(id: Seq<char>, data: Seq<char>, model: Seq<char>, events: Seq<EventView>)
    ensures
        ({
            let start = create_start(id, data, model);
            let text = record_text(id, data, model);
            let acts = seq![start.1] + trace(start.0, events);
            &&& count_writes(acts) == 1
            &&& count_publishes(acts) <= 1
            &&& forall|i: int|
                0 <= i < acts.len() && (#[trigger] acts[i]) is StoreSet ==> acts[i]
                    == ActionView::StoreSet { key: id, value: text }
            &&& forall|i: int|
                0 <= i < acts.len() && (#[trigger] acts[i]) is Publish ==> acts[i]
                    == ActionView::Publish { topic: model, key: id, payload: text }
        }),
{
    let start = create_start(id, data, model);
    let text = record_text(id, data, model);
    let rest = trace(start.0, events);
    let acts = seq![start.1] + rest;
    if events.len() == 0 {
        assert(rest =~= seq![]);
        lemma_counts_prepend(start.1, rest);
        assert(count_writes(rest) == 0);
    } else {
        let next = step_spec(start.0, events[0]);
        let tail = trace(next.0, events.drop_first());
        assert(rest == seq![next.1] + tail);
        lemma_quiet_after_publish(next.0, events.drop_first());
        lemma_counts_prepend(next.1, tail);
        lemma_counts_prepend(start.1, rest);
        assert forall|i: int| 0 <= i < acts.len() && (#[trigger] acts[i]) is StoreSet implies acts[i]
            == ActionView::StoreSet { key: id, value: text } by {
            if i >= 2 {
                assert(acts[i] == tail[i - 2]);
                lemma_no_write_at(tail, i - 2);
            }
        }
        assert forall|i: int| 0 <= i < acts.len() && (#[trigger] acts[i]) is Publish implies acts[i]
            == ActionView::Publish { topic: model, key: id, payload: text } by {
            if i >= 2 {
                assert(acts[i] == tail[i - 2]);
                lemma_no_write_at(tail, i - 2);
            }
        }
    }
}

/// A sequence without writes or publishes has none at any position.
proof fn lemma_no_write_at(acts: Seq<ActionView>, i: int)
    requires
        0 <= i < acts.len(),
        count_writes(acts) == 0,
        count_publishes(acts) == 0,
    ensures
        !(acts[i] is StoreSet),
        !(acts[i] is Publish),
    decreases acts.len(),
{
    if i > 0 {
        lemma_no_write_at(acts.drop_first(), i - 1);
    }
}

} // verus!
