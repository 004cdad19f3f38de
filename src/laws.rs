//! Properties of whole runs: parsing, then the session driven by a sequence of events.
use vstd::prelude::*;

use crate::args::{
    bad_duration_at, has_bad_duration, key_prefix, last_value, lemma_keys_exclusive, parse_spec,
    value_for, ArgKey, CaptureRequestView, UsageError,
};
use crate::decimal::{decimal_of, decimal_u64, lemma_decimal_u64_round_trip};
use crate::session::{start_command, stop_command, transition, ActionView, EventKind, Phase};

verus! {

/// The actions a session asks for, from `phase` on, answering the events of kinds `kinds`.
pub open spec fn trace(phase: Phase, req: CaptureRequestView, kinds: Seq<EventKind>) -> Seq<
    ActionView,
>
    decreases kinds.len(),
{
    if kinds.len() == 0 {
        Seq::empty()
    } else {
        let (next, act) = transition(phase, req, kinds[0]);
        seq![act] + trace(next, req, kinds.drop_first())
    }
}

/// Every action of a run on launch tokens `toks`: none when the tokens are
/// refused; otherwise the start command, then the answers to the events.
pub open spec fn run_actions(toks: Seq<Seq<char>>, kinds: Seq<EventKind>) -> Seq<ActionView> {
    match parse_spec(toks) {
        Err(_) => Seq::empty(),
        Ok(req) => seq![ActionView::Invoke(start_command(req))] + trace(Phase::Starting, req, kinds),
    }
}

/// The command lines among `acts`, in order.
pub open spec fn invocations(acts: Seq<ActionView>) -> Seq<Seq<char>>
    decreases acts.len(),
{
    if acts.len() == 0 {
        Seq::empty()
    } else {
        let rest = invocations(acts.drop_first());
        match acts[0] {
            ActionView::Invoke(c) => seq![c] + rest,
            _ => rest,
        }
    }
}

/// The three tokens that state a request.
pub open spec fn request_tokens(req: CaptureRequestView) -> Seq<Seq<char>> {
    seq![
        key_prefix(ArgKey::Duration) + decimal_of(req.duration as nat),
        key_prefix(ArgKey::Output) + req.output,
        key_prefix(ArgKey::MaxSize) + req.max_size,
    ]
}

proof fn lemma_value_for_prefixed(k: ArgKey, v: Seq<char>)
    ensures
        value_for(key_prefix(k) + v, k) == Some(v),
{
    let t = key_prefix(k) + v;
    assert(t.subrange(0, key_prefix(k).len() as int) =~= key_prefix(k));
    assert(t.subrange(key_prefix(k).len() as int, t.len() as int) =~= v);
}

/// When token `i` alone carries key `k`, the value for `k` is its value.
proof fn lemma_last_value_single(toks: Seq<Seq<char>>, k: ArgKey, i: int)
    requires
        0 <= i < toks.len(),
        value_for(toks[i], k) is Some,
        forall|j: int| 0 <= j < toks.len() && j != i ==> value_for(#[trigger] toks[j], k) is None,
    ensures
        last_value(toks, k) == value_for(toks[i], k),
    decreases toks.len(),
{
    if i != toks.len() - 1 {
        let shorter = toks.drop_last();
        assert forall|j: int| 0 <= j < shorter.len() && j != i implies value_for(
            #[trigger] shorter[j],
            k,
        ) is None by {
            assert(shorter[j] == toks[j]);
        }
        lemma_last_value_single(shorter, k, i);
    }
}

/// The value for `k` in three tokens that carry the three keys, one each.
proof fn lemma_three_tokens(d: Seq<char>, o: Seq<char>, m: Seq<char>, toks: Seq<Seq<char>>, k: ArgKey)
    requires
        toks.len() == 3,
        toks.contains(key_prefix(ArgKey::Duration) + d),
        toks.contains(key_prefix(ArgKey::Output) + o),
        toks.contains(key_prefix(ArgKey::MaxSize) + m),
    ensures
        last_value(toks, k) == Some(
            match k {
                ArgKey::Duration => d,
                ArgKey::Output => o,
                ArgKey::MaxSize => m,
            },
        ),
        forall|j: int|
            0 <= j < 3 && (#[trigger] value_for(toks[j], ArgKey::Duration)) is Some ==> toks[j]
                == key_prefix(ArgKey::Duration) + d,
        has_bad_duration(toks) == (decimal_u64(d) is None),
{
    let td = key_prefix(ArgKey::Duration) + d;
    let to = key_prefix(ArgKey::Output) + o;
    let tm = key_prefix(ArgKey::MaxSize) + m;
    lemma_value_for_prefixed(ArgKey::Duration, d);
    lemma_value_for_prefixed(ArgKey::Output, o);
    lemma_value_for_prefixed(ArgKey::MaxSize, m);
    lemma_keys_exclusive(td, ArgKey::Duration, ArgKey::Output);
    lemma_keys_exclusive(td, ArgKey::Duration, ArgKey::MaxSize);
    lemma_keys_exclusive(to, ArgKey::Output, ArgKey::Duration);
    lemma_keys_exclusive(to, ArgKey::Output, ArgKey::MaxSize);
    lemma_keys_exclusive(tm, ArgKey::MaxSize, ArgKey::Duration);
    lemma_keys_exclusive(tm, ArgKey::MaxSize, ArgKey::Output);
    let id = choose|j: int| 0 <= j < 3 && toks[j] == td;
    let io = choose|j: int| 0 <= j < 3 && toks[j] == to;
    let im = choose|j: int| 0 <= j < 3 && toks[j] == tm;
    assert(td != to && to != tm && td != tm);
    assert forall|j: int| 0 <= j < 3 implies #[trigger] toks[j] == td || toks[j] == to || toks[j]
        == tm by {
        assert(id != io && io != im && id != im);
    }
    let i = match k {
        ArgKey::Duration => id,
        ArgKey::Output => io,
        ArgKey::MaxSize => im,
    };
    lemma_last_value_single(toks, k, i);
    if decimal_u64(d) is None {
        assert(bad_duration_at(toks, id));
    } else {
        assert forall|j: int| 0 <= j < toks.len() implies !#[trigger] bad_duration_at(toks, j) by {
            if value_for(toks[j], ArgKey::Duration) is Some {
                assert(toks[j] == td);
            }
        }
    }
}

/// Parsing the tokens that state a request gives that request back.
pub proof fn law_parse_round_trip(req: CaptureRequestView)
    ensures
        parse_spec(request_tokens(req)) == Ok::<CaptureRequestView, UsageError>(req),
{
    let toks = request_tokens(req);
    let d = decimal_of(req.duration as nat);
    lemma_decimal_u64_round_trip(req.duration);
    assert(toks[0] == key_prefix(ArgKey::Duration) + d);
    assert(toks[1] == key_prefix(ArgKey::Output) + req.output);
    assert(toks[2] == key_prefix(ArgKey::MaxSize) + req.max_size);
    lemma_three_tokens(d, req.output, req.max_size, toks, ArgKey::Duration);
    lemma_three_tokens(d, req.output, req.max_size, toks, ArgKey::Output);
    lemma_three_tokens(d, req.output, req.max_size, toks, ArgKey::MaxSize);
}

/// The three tokens of a request may come in any order: every arrangement
/// parses as the tokens in their usual order do.
pub proof fn law_parse_order_independent(
    duration: Seq<char>,
    output: Seq<char>,
    max_size: Seq<char>,
    toks: Seq<Seq<char>>,
)
    requires
        toks.len() == 3,
        toks.contains(key_prefix(ArgKey::Duration) + duration),
        toks.contains(key_prefix(ArgKey::Output) + output),
        toks.contains(key_prefix(ArgKey::MaxSize) + max_size),
    ensures
        parse_spec(toks) == parse_spec(
            seq![
                key_prefix(ArgKey::Duration) + duration,
                key_prefix(ArgKey::Output) + output,
                key_prefix(ArgKey::MaxSize) + max_size,
            ],
        ),
{
    let usual = seq![
        key_prefix(ArgKey::Duration) + duration,
        key_prefix(ArgKey::Output) + output,
        key_prefix(ArgKey::MaxSize) + max_size,
    ];
    assert(usual[0] == key_prefix(ArgKey::Duration) + duration);
    assert(usual[1] == key_prefix(ArgKey::Output) + output);
    assert(usual[2] == key_prefix(ArgKey::MaxSize) + max_size);
    lemma_three_tokens(duration, output, max_size, toks, ArgKey::Duration);
    lemma_three_tokens(duration, output, max_size, toks, ArgKey::Output);
    lemma_three_tokens(duration, output, max_size, toks, ArgKey::MaxSize);
    lemma_three_tokens(duration, output, max_size, usual, ArgKey::Duration);
    lemma_three_tokens(duration, output, max_size, usual, ArgKey::Output);
    lemma_three_tokens(duration, output, max_size, usual, ArgKey::MaxSize);
}

proof fn lemma_last_value_absent(toks: Seq<Seq<char>>, k: ArgKey)
    requires
        forall|i: int| 0 <= i < toks.len() ==> value_for(#[trigger] toks[i], k) is None,
    ensures
        last_value(toks, k) is None,
    decreases toks.len(),
{
    if toks.len() > 0 {
        let shorter = toks.drop_last();
        assert forall|i: int| 0 <= i < shorter.len() implies value_for(#[trigger] shorter[i], k) is None by {
            assert(shorter[i] == toks[i]);
        }
        lemma_last_value_absent(shorter, k);
    }
}

/// Tokens without one of the three keys are refused, for a missing key
/// unless a bad duration is refused first, and no command is ever run.
pub proof fn law_missing_key_refused(toks: Seq<Seq<char>>, k: ArgKey, kinds: Seq<EventKind>)
    requires
        forall|i: int| 0 <= i < toks.len() ==> value_for(#[trigger] toks[i], k) is None,
    ensures
        parse_spec(toks) is Err,
        !has_bad_duration(toks) ==> parse_spec(toks)->Err_0 is Missing,
        invocations(run_actions(toks, kinds)) == Seq::<Seq<char>>::empty(),
{
    lemma_last_value_absent(toks, k);
}

/// A duration that is not an unsigned 64-bit decimal (a negative number, a
/// word) is refused as such, not as a missing key, and no command is ever run.
pub proof fn law_bad_duration_refused(toks: Seq<Seq<char>>, i: int, kinds: Seq<EventKind>)
    requires
        0 <= i < toks.len(),
        bad_duration_at(toks, i),
    ensures
        parse_spec(toks) == Err::<CaptureRequestView, UsageError>(UsageError::InvalidDuration),
        invocations(run_actions(toks, kinds)) == Seq::<Seq<char>>::empty(),
{
}

/// When start and stop both succeed, a run invokes the start command, sleeps
/// for the requested duration, invokes the stop command and finishes.
pub proof fn law_full_run(toks: Seq<Seq<char>>)
    requires
        parse_spec(toks) is Ok,
    ensures
        ({
            let req = parse_spec(toks)->Ok_0;
            let acts = run_actions(
                toks,
                seq![EventKind::Succeeded, EventKind::WaitElapsed, EventKind::Succeeded],
            );
            &&& acts == seq![
                ActionView::Invoke(start_command(req)),
                ActionView::Sleep(req.duration),
                ActionView::Invoke(stop_command()),
                ActionView::Finish,
            ]
            &&& invocations(acts) == seq![start_command(req), stop_command()]
        }),
{
    let req = parse_spec(toks)->Ok_0;
    let kinds = seq![EventKind::Succeeded, EventKind::WaitElapsed, EventKind::Succeeded];
    let k1 = kinds.drop_first();
    let k2 = k1.drop_first();
    let k3 = k2.drop_first();
    assert(k3 =~= Seq::<EventKind>::empty());
    assert(trace(Phase::Done, req, k3) =~= Seq::<ActionView>::empty());
    assert(trace(Phase::Stopping, req, k2) =~= seq![ActionView::Finish]);
    assert(trace(Phase::Capturing, req, k1) =~= seq![
        ActionView::Invoke(stop_command()),
        ActionView::Finish,
    ]);
    let acts = run_actions(toks, kinds);
    assert(acts =~= seq![
        ActionView::Invoke(start_command(req)),
        ActionView::Sleep(req.duration),
        ActionView::Invoke(stop_command()),
        ActionView::Finish,
    ]);
    let a1 = acts.drop_first();
    let a2 = a1.drop_first();
    let a3 = a2.drop_first();
    assert(a3.drop_first() =~= Seq::<ActionView>::empty());
    assert(invocations(a3.drop_first()) =~= Seq::<Seq<char>>::empty());
    assert(a3[0] == ActionView::Finish);
    assert(invocations(a3) =~= Seq::<Seq<char>>::empty());
    assert(invocations(a2) =~= seq![stop_command()]);
    assert(invocations(a1) =~= seq![stop_command()]);
    assert(invocations(acts) =~= seq![start_command(req), stop_command()]);
}

/// A failed session does nothing more, whatever happens next.
proof fn lemma_failed_is_final(req: CaptureRequestView, kinds: Seq<EventKind>)
    ensures
        invocations(trace(Phase::Failed, req, kinds)) == Seq::<Seq<char>>::empty(),
    decreases kinds.len(),
{
    if kinds.len() > 0 {
        lemma_failed_is_final(req, kinds.drop_first());
        let t = trace(Phase::Failed, req, kinds);
        assert(t.drop_first() =~= trace(Phase::Failed, req, kinds.drop_first()));
    }
}

/// When the start command fails or cannot be launched, the run aborts right
/// after it and never invokes another command: in particular no stop.
pub proof fn law_start_failure_aborts(toks: Seq<Seq<char>>, kinds: Seq<EventKind>)
    requires
        parse_spec(toks) is Ok,
        kinds.len() > 0,
        kinds[0] is Failed || kinds[0] is NotLaunched,
    ensures
        ({
            let req = parse_spec(toks)->Ok_0;
            let acts = run_actions(toks, kinds);
            &&& acts[1] is Abort
            &&& invocations(acts) == seq![start_command(req)]
        }),
{
    let req = parse_spec(toks)->Ok_0;
    let acts = run_actions(toks, kinds);
    let rest = trace(Phase::Failed, req, kinds.drop_first());
    lemma_failed_is_final(req, kinds.drop_first());
    assert(acts.drop_first().drop_first() =~= rest);
    assert(invocations(acts.drop_first()) == invocations(rest));
    assert(invocations(acts) =~= seq![start_command(req)]);
}

} // verus!
