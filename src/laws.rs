use vstd::prelude::*;

use crate::error::FetchError;
use crate::gzip::gunzip_spec;
use crate::names::{join_spec, strip_gz_spec, RESOURCE_COUNT};
use crate::names::link_spec;
use crate::session::{
    action_spec, enter_spec, is_active, name_of, step, ActionModel, EventModel, SessionModel,
    StageModel,
};
use crate::url_name::file_name_spec;

verus! {

/// The run reached from `m` by the events `es`, in order.
pub open spec fn run(m: SessionModel, es: Seq<EventModel>) -> SessionModel
    decreases es.len(),
{
    if es.len() == 0 {
        m
    } else {
        run(step(m, es[0]), es.drop_first())
    }
}

/// The states that a run can be in: the index in range, and a finished run
/// past the last resource.
pub open spec fn model_wf(m: SessionModel) -> bool {
    &&& m.index <= RESOURCE_COUNT
    &&& is_active(m.stage) ==> m.index < RESOURCE_COUNT
    &&& m.stage is Finished ==> m.index == RESOURCE_COUNT
}

/// Once a run has failed, no event moves it: it stays on the same resource
/// and keeps asking to abort with the same error.
pub proof fn lemma_failure_is_final(m: SessionModel, es: Seq<EventModel>)
    requires
        m.stage is Failed,
    ensures
        run(m, es) == m,
        action_spec(run(m, es)) == ActionModel::Abort(m.stage->Failed_0),
    decreases es.len(),
{
    if es.len() > 0 {
        lemma_failure_is_final(step(m, es[0]), es.drop_first());
    }
}

/// A failure of the outside work for the resource at hand ends the run on
/// that resource: whatever comes after, no later resource is fetched or
/// written, and the run asks to abort with that failure.
pub proof fn lemma_abort_on_first_failure(m: SessionModel, err: FetchError, es: Seq<EventModel>)
    requires
        is_active(m.stage),
    ensures
        run(step(m, EventModel::Failed(err)), es) == (SessionModel {
            stage: StageModel::Failed(err),
            ..m
        }),
        action_spec(run(step(m, EventModel::Failed(err)), es)) == ActionModel::Abort(err),
{
    lemma_failure_is_final(step(m, EventModel::Failed(err)), es);
}

/// Resources are taken one at a time, in order: an event either leaves the
/// run on the same resource or, where it reports that the decompressed bytes
/// were written, moves it to the next one.
pub proof fn lemma_resources_in_order(m: SessionModel, e: EventModel)
    requires
        model_wf(m),
    ensures
        model_wf(step(m, e)),
        step(m, e).dir == m.dir,
        step(m, e).index == m.index || (m.stage is Writing && e is Done && step(m, e).index
            == m.index + 1),
{
}

/// What a run asks to write to the decompressed file is the decompression
/// of the bytes read back from the compressed one, and nothing else.
pub proof fn lemma_written_bytes_are_decoded(m: SessionModel, b: Seq<u8>)
    requires
        m.stage is ReadingBack,
        gunzip_spec(b) is Some,
    ensures
        action_spec(step(m, EventModel::Bytes(b))) == (ActionModel::Write {
            path: join_spec(m.dir, strip_gz_spec(name_of(m.index as int))),
            bytes: gunzip_spec(b)->Some_0,
        }),
{
}

/// A download that is not a valid gzip stream ends the run with a decode
/// error on the resource at hand.
pub proof fn lemma_bad_download_fails(m: SessionModel, b: Seq<u8>)
    requires
        m.stage is ReadingBack,
        gunzip_spec(b) is None,
    ensures
        step(m, EventModel::Bytes(b)) == (SessionModel {
            stage: StageModel::Failed(FetchError::DecodeError),
            ..m
        }),
{
}

/// Running `a` and then `b` is running `a + b`.
pub proof fn lemma_run_concat(m: SessionModel, a: Seq<EventModel>, b: Seq<EventModel>)
    ensures
        run(m, a + b) == run(run(m, a), b),
    decreases a.len(),
{
    if a.len() == 0 {
        assert(a + b =~= b);
    } else {
        assert((a + b)[0] == a[0]);
        assert((a + b).drop_first() =~= a.drop_first() + b);
        lemma_run_concat(step(m, a[0]), a.drop_first(), b);
    }
}

/// The events of a run in which, from resource `i` on, every fetch and
/// write succeeds and resource `j` reads back the bytes `bs[j]`.
pub open spec fn success_events(bs: Seq<Seq<u8>>, i: nat) -> Seq<EventModel>
    decreases RESOURCE_COUNT - i,
{
    if i >= RESOURCE_COUNT {
        Seq::empty()
    } else {
        seq![EventModel::Done, EventModel::Bytes(bs[i as int]), EventModel::Done] + success_events(
            bs,
            i + 1,
        )
    }
}

/// Every fixed URL parses and names a file.
pub open spec fn fixed_urls_name_files() -> bool {
    forall|i: int| 0 <= i < RESOURCE_COUNT ==> #[trigger] file_name_spec(link_spec(i)) is Ok
}

/// One resource, where everything succeeds: the run fetches its URL into
/// `dir/name`, reads that file back, asks to write the decompressed bytes to
/// `dir/name` without `.gz`, and then moves to the next resource.
pub proof fn lemma_one_resource(dir: Seq<char>, i: nat, b: Seq<u8>)
    requires
        i < RESOURCE_COUNT,
        file_name_spec(link_spec(i as int)) is Ok,
        gunzip_spec(b) is Some,
    ensures
        action_spec(enter_spec(dir, i)) == (ActionModel::Fetch {
            url: link_spec(i as int),
            path: join_spec(dir, name_of(i as int)),
        }),
        action_spec(step(enter_spec(dir, i), EventModel::Done)) == (ActionModel::ReadBack {
            path: join_spec(dir, name_of(i as int)),
        }),
        action_spec(step(step(enter_spec(dir, i), EventModel::Done), EventModel::Bytes(b))) == (
        ActionModel::Write {
            path: join_spec(dir, strip_gz_spec(name_of(i as int))),
            bytes: gunzip_spec(b)->Some_0,
        }),
        run(enter_spec(dir, i), seq![EventModel::Done, EventModel::Bytes(b), EventModel::Done])
            == enter_spec(dir, i + 1),
{
    let es = seq![EventModel::Done, EventModel::Bytes(b), EventModel::Done];
    let m0 = enter_spec(dir, i);
    let m1 = step(m0, EventModel::Done);
    let m2 = step(m1, EventModel::Bytes(b));
    assert(es.drop_first() =~= seq![EventModel::Bytes(b), EventModel::Done]);
    assert(es.drop_first().drop_first() =~= seq![EventModel::Done]);
    assert(es.drop_first().drop_first().drop_first() =~= Seq::<EventModel>::empty());
    assert(run(m0, es) == run(m1, es.drop_first()));
    assert(run(m1, es.drop_first()) == run(m2, es.drop_first().drop_first()));
    assert(run(m2, es.drop_first().drop_first()) == run(
        step(m2, EventModel::Done),
        es.drop_first().drop_first().drop_first(),
    ));
}

/// A run from resource `i` on in which every outside step succeeds and every
/// download decompresses ends finished.
pub proof fn lemma_successful_run_from(dir: Seq<char>, bs: Seq<Seq<u8>>, i: nat)
    requires
        fixed_urls_name_files(),
        bs.len() == RESOURCE_COUNT,
        forall|j: int| 0 <= j < RESOURCE_COUNT ==> (#[trigger] gunzip_spec(bs[j])) is Some,
        i <= RESOURCE_COUNT,
    ensures
        run(enter_spec(dir, i), success_events(bs, i)) == (SessionModel {
            dir,
            index: RESOURCE_COUNT as nat,
            stage: StageModel::Finished,
        }),
    decreases RESOURCE_COUNT - i,
{
    if i < RESOURCE_COUNT {
        assert(file_name_spec(link_spec(i as int)) is Ok);
        assert(gunzip_spec(bs[i as int]) is Some);
        let head = seq![EventModel::Done, EventModel::Bytes(bs[i as int]), EventModel::Done];
        lemma_one_resource(dir, i, bs[i as int]);
        lemma_run_concat(enter_spec(dir, i), head, success_events(bs, i + 1));
        lemma_successful_run_from(dir, bs, i + 1);
    }
}

/// A whole run in which every fetch, read and write succeeds and every
/// download decompresses ends finished, whatever the directory held before:
/// the run never looks at existing files, so a second run over the same
/// downloads asks for the same work and succeeds again.
pub proof fn lemma_successful_run(dir: Seq<char>, bs: Seq<Seq<u8>>)
    requires
        fixed_urls_name_files(),
        bs.len() == RESOURCE_COUNT,
        forall|j: int| 0 <= j < RESOURCE_COUNT ==> (#[trigger] gunzip_spec(bs[j])) is Some,
    ensures
        run(enter_spec(dir, 0), success_events(bs, 0)).stage is Finished,
        action_spec(run(enter_spec(dir, 0), success_events(bs, 0))) == ActionModel::Finished,
{
    lemma_successful_run_from(dir, bs, 0);
}

} // verus!
