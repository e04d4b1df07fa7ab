//! The call protocol around procedure invocation.
//!
//! A call proceeds in three steps. First every named input is converted to
//! a value; any conversion failure aborts before the procedure starts and
//! keeps its own error kind. Then the external procedure runs, relaying
//! text messages through the caller's optional callback; the callback's
//! reply decides, fail-closed, whether the procedure may continue. Last,
//! the procedure's outcome is finished: a failure message is wrapped as a
//! tool-call error, and named outputs are converted back to host values.

use vstd::prelude::*;

use crate::error::Error;
use crate::error::ErrorView;
use crate::from_host::spec_to_value;
use crate::from_host::obj_to_value;
use crate::host::HostValue;
use crate::host::HostView;
use crate::host::host_entries_view;
use crate::to_host::spec_to_host;
use crate::to_host::value_to_obj;
use crate::value::Value;
use crate::value::ValueDict;
use crate::value::ValueView;
use crate::value::dict_entries_view;

verus! {

/// Named inputs converted in order; the earliest failing entry decides
/// the error.
pub open spec fn spec_kwargs(entries: Seq<(Seq<char>, HostView)>) -> Result<
    Seq<(Seq<char>, ValueView)>,
    ErrorView,
>
    decreases entries,
{
    if entries.len() == 0 {
        Ok(Seq::empty())
    } else {
        match spec_kwargs(entries.drop_last()) {
            Err(e) => Err(e),
            Ok(init) => match spec_to_value(entries.last().1) {
                Err(e) => Err(e),
                Ok(v) => Ok(init.push((entries.last().0, v))),
            },
        }
    }
}

/// Once a prefix of the inputs fails, the whole conversion fails with
/// that error.
pub proof fn lemma_kwargs_prefix_err(entries: Seq<(Seq<char>, HostView)>, k: int)
    requires
        0 <= k <= entries.len(),
        spec_kwargs(entries.take(k)) is Err,
    ensures
        spec_kwargs(entries) == spec_kwargs(entries.take(k)),
    decreases entries.len() - k,
{
    if k < entries.len() {
        assert(entries.take(k + 1).drop_last() =~= entries.take(k));
        lemma_kwargs_prefix_err(entries, k + 1);
    } else {
        assert(entries.take(k) =~= entries);
    }
}

/// Input conversion keeps the keys and their insertion order exactly; in
/// particular, unique input keys stay unique in the dictionary.
pub proof fn lemma_kwargs_preserve_keys(entries: Seq<(Seq<char>, HostView)>)
    ensures
        spec_kwargs(entries) matches Ok(out) ==> out.map_values(
            |e: (Seq<char>, ValueView)| e.0,
        ) == entries.map_values(|e: (Seq<char>, HostView)| e.0),
    decreases entries,
{
    if entries.len() > 0 {
        lemma_kwargs_preserve_keys(entries.drop_last());
        if spec_kwargs(entries) is Ok {
            let out = spec_kwargs(entries)->Ok_0;
            let init = spec_kwargs(entries.drop_last())->Ok_0;
            assert(out.map_values(|e: (Seq<char>, ValueView)| e.0) =~= init.map_values(
                |e: (Seq<char>, ValueView)| e.0,
            ).push(entries.last().0));
            assert(entries.map_values(|e: (Seq<char>, HostView)| e.0) =~= entries.drop_last()
                .map_values(|e: (Seq<char>, HostView)| e.0).push(entries.last().0));
        }
    }
}

/// Named outputs converted back in order; the earliest failing entry
/// decides the error.
pub open spec fn spec_outputs(entries: Seq<(Seq<char>, ValueView)>) -> Result<
    Seq<(Seq<char>, HostView)>,
    ErrorView,
>
    decreases entries,
{
    if entries.len() == 0 {
        Ok(Seq::empty())
    } else {
        match spec_outputs(entries.drop_last()) {
            Err(e) => Err(e),
            Ok(init) => match spec_to_host(entries.last().1) {
                Err(e) => Err(e),
                Ok(hv) => Ok(init.push((entries.last().0, hv))),
            },
        }
    }
}

/// Once a prefix of the outputs fails, the whole conversion fails with
/// that error.
pub proof fn lemma_outputs_prefix_err(entries: Seq<(Seq<char>, ValueView)>, k: int)
    requires
        0 <= k <= entries.len(),
        spec_outputs(entries.take(k)) is Err,
    ensures
        spec_outputs(entries) == spec_outputs(entries.take(k)),
    decreases entries.len() - k,
{
    if k < entries.len() {
        assert(entries.take(k + 1).drop_last() =~= entries.take(k));
        lemma_outputs_prefix_err(entries, k + 1);
    } else {
        assert(entries.take(k) =~= entries);
    }
}

/// What finishing a call returns: a procedure failure is wrapped as a
/// tool-call error carrying the procedure's message; named outputs are
/// converted back to host values.
pub open spec fn spec_finish(outcome: Result<Seq<(Seq<char>, ValueView)>, Seq<char>>) -> Result<
    Seq<(Seq<char>, HostView)>,
    ErrorView,
> {
    match outcome {
        Err(msg) => Err(ErrorView::ToolCallError(msg)),
        Ok(entries) => spec_outputs(entries),
    }
}

/// The model of a procedure outcome: named output values, or the
/// procedure's failure message.
pub open spec fn outcome_view(outcome: Result<ValueDict, String>) -> Result<
    Seq<(Seq<char>, ValueView)>,
    Seq<char>,
> {
    match outcome {
        Ok(d) => Ok(d@),
        Err(msg) => Err(msg@),
    }
}

/// Named host inputs converted to a value dictionary, in order; any
/// failure aborts the call before the procedure starts.
pub fn kwargs_to_value_dict(kwargs: &Vec<(String, HostValue)>) -> (r: Result<ValueDict, Error>)
    ensures
        match r {
            Ok(d) => spec_kwargs(host_entries_view(kwargs@)) == Ok::<
                Seq<(Seq<char>, ValueView)>,
                ErrorView,
            >(d@),
            Err(e) => spec_kwargs(host_entries_view(kwargs@)) == Err::<
                Seq<(Seq<char>, ValueView)>,
                ErrorView,
            >(e@),
        },
{
    let ghost s = host_entries_view(kwargs@);
    let mut out: Vec<(String, Value)> = Vec::new();
    let mut i: usize = 0;
    proof {
        crate::host::lemma_host_entries_view_len(kwargs@);
        assert(s.take(0) =~= Seq::<(Seq<char>, HostView)>::empty());
        assert(dict_entries_view(out@) =~= Seq::<(Seq<char>, ValueView)>::empty());
    }
    while i < kwargs.len()
        invariant
            0 <= i <= kwargs@.len(),
            s == host_entries_view(kwargs@),
            s.len() == kwargs@.len(),
            out@.len() == i,
            spec_kwargs(s.take(i as int)) == Ok::<Seq<(Seq<char>, ValueView)>, ErrorView>(
                dict_entries_view(out@),
            ),
        decreases kwargs@.len() - i,
    {
        proof {
            crate::host::lemma_host_entries_view_index(kwargs@, i as int);
            assert(s.take(i + 1).drop_last() =~= s.take(i as int));
            assert(s.take(i + 1).last() == s[i as int]);
        }
        match obj_to_value(&kwargs[i].1) {
            Ok(v) => {
                let ghost old_out = out@;
                let key = kwargs[i].0.clone();
                out.push((key, v));
                proof {
                    assert(dict_entries_view(out@) =~= dict_entries_view(old_out).push(
                        (s[i as int].0, v@),
                    ));
                }
            },
            Err(e) => {
                proof {
                    lemma_kwargs_prefix_err(s, i + 1);
                }
                return Err(e);
            },
        }
        i = i + 1;
    }
    proof {
        assert(s.take(i as int) =~= s);
    }
    Ok(ValueDict(out))
}

/// The tail of a call: wrap a procedure failure as a tool-call error, or
/// convert every named output back to a host value, in order.
pub fn finish_call(outcome: Result<ValueDict, String>) -> (r: Result<
    Vec<(String, HostValue)>,
    Error,
>)
    ensures
        match r {
            Ok(out) => spec_finish(outcome_view(outcome)) == Ok::<
                Seq<(Seq<char>, HostView)>,
                ErrorView,
            >(host_entries_view(out@)),
            Err(e) => spec_finish(outcome_view(outcome)) == Err::<
                Seq<(Seq<char>, HostView)>,
                ErrorView,
            >(e@),
        },
{
    broadcast use crate::host::lemma_host_entries_view_len, crate::host::lemma_host_entries_view_index;

    let d = match outcome {
        Ok(d) => d,
        Err(msg) => {
            return Err(Error::ToolCallError(msg));
        },
    };
    let ghost s = d@;
    let entries = d.0;
    let mut out: Vec<(String, HostValue)> = Vec::new();
    let mut i: usize = 0;
    proof {
        assert(s.take(0) =~= Seq::<(Seq<char>, ValueView)>::empty());
        assert(host_entries_view(out@) =~= Seq::<(Seq<char>, HostView)>::empty());
    }
    while i < entries.len()
        invariant
            0 <= i <= entries@.len(),
            s == dict_entries_view(entries@),
            s.len() == entries@.len(),
            out@.len() == i,
            spec_finish(outcome_view(outcome)) == spec_outputs(s),
            spec_outputs(s.take(i as int)) == Ok::<Seq<(Seq<char>, HostView)>, ErrorView>(
                host_entries_view(out@),
            ),
        decreases entries@.len() - i,
    {
        proof {
            assert(s[i as int] == (entries@[i as int].0@, entries@[i as int].1@));
            assert(s.take(i + 1).drop_last() =~= s.take(i as int));
            assert(s.take(i + 1).last() == s[i as int]);
        }
        match value_to_obj(&entries[i].1) {
            Ok(hv) => {
                let ghost old_out = out@;
                let key = entries[i].0.clone();
                out.push((key, hv));
                proof {
                    crate::host::lemma_host_entries_view_len(out@);
                    crate::host::lemma_host_entries_view_len(old_out);
                    assert forall|j: int| 0 <= j < out@.len() implies host_entries_view(out@)[j]
                        == (out@[j].0@, crate::host::host_value_view(out@[j].1)) by {
                        crate::host::lemma_host_entries_view_index(out@, j);
                    }
                    assert forall|j: int| 0 <= j < old_out.len() implies host_entries_view(
                        old_out,
                    )[j] == (old_out[j].0@, crate::host::host_value_view(old_out[j].1)) by {
                        crate::host::lemma_host_entries_view_index(old_out, j);
                    }
                    assert(host_entries_view(out@) =~= host_entries_view(old_out).push(
                        (s[i as int].0, hv@),
                    ));
                }
            },
            Err(e) => {
                proof {
                    lemma_outputs_prefix_err(s, i + 1);
                }
                return Err(e);
            },
        }
        i = i + 1;
    }
    proof {
        assert(s.take(i as int) =~= s);
    }
    Ok(out)
}

/// What the caller's callback did for one message: there was no callback,
/// it raised, or it returned a host value.
#[derive(Debug)]
pub enum CallbackReply {
    /// No callback was supplied.
    Absent,
    /// The callback raised an error instead of returning.
    Raised,
    /// The callback returned this host value.
    Returned(HostValue),
}

/// The continuation flag a reply decides, fail-closed: only a returned
/// host boolean `true` lets the procedure continue; a missing callback
/// always lets it continue; a raised error or any non-boolean return
/// means stop.
pub open spec fn spec_continue(reply: CallbackReply) -> bool {
    match reply {
        CallbackReply::Absent => true,
        CallbackReply::Raised => false,
        CallbackReply::Returned(hv) => match hv {
            HostValue::Bool(b) => b,
            _ => false,
        },
    }
}

/// Decide the continuation flag for one delivered message.
pub fn continuation_flag(reply: &CallbackReply) -> (r: bool)
    ensures
        r == spec_continue(*reply),
{
    match reply {
        CallbackReply::Absent => true,
        CallbackReply::Raised => false,
        CallbackReply::Returned(hv) => match hv {
            HostValue::Bool(b) => *b,
            _ => false,
        },
    }
}

/// How many messages the procedure emits before it observes a stop: each
/// delivered message's reply is read before the next message, and the
/// first stop reply is still a delivered message.
pub open spec fn spec_deliver_count(replies: Seq<CallbackReply>) -> int
    decreases replies,
{
    if replies.len() == 0 {
        0
    } else if spec_continue(replies[0]) {
        1 + spec_deliver_count(replies.drop_first())
    } else {
        1
    }
}

/// Whether the procedure observes a stop request at all.
pub open spec fn spec_stopped(replies: Seq<CallbackReply>) -> bool
    decreases replies,
{
    if replies.len() == 0 {
        false
    } else if spec_continue(replies[0]) {
        spec_stopped(replies.drop_first())
    } else {
        true
    }
}

/// What one run of the message protocol did: which messages were emitted,
/// and whether the procedure observed a stop request.
pub struct RelayLog {
    pub delivered: Vec<String>,
    pub stopped: bool,
}

/// The reference run of the message protocol: the procedure emits the
/// messages in order; after each one the callback's reply is read, and on
/// the first stop decision the procedure emits nothing further.
pub fn relay_messages(messages: &Vec<String>, replies: &Vec<CallbackReply>) -> (log: RelayLog)
    requires
        replies@.len() == messages@.len(),
    ensures
        log.delivered@.len() == spec_deliver_count(replies@),
        log.delivered@ == messages@.take(spec_deliver_count(replies@)),
        log.stopped == spec_stopped(replies@),
{
    broadcast use vstd::seq_lib::group_seq_properties;

    let mut delivered: Vec<String> = Vec::new();
    let mut i: usize = 0;
    proof {
        assert(replies@.skip(0) =~= replies@);
        assert(delivered@ =~= messages@.take(0));
    }
    while i < messages.len()
        invariant
            0 <= i <= messages@.len(),
            replies@.len() == messages@.len(),
            delivered@.len() == i,
            delivered@ == messages@.take(i as int),
            forall|j: int| 0 <= j < i ==> spec_continue(replies@[j]),
            spec_deliver_count(replies@) == i + spec_deliver_count(replies@.skip(i as int)),
            spec_stopped(replies@) == spec_stopped(replies@.skip(i as int)),
        decreases messages@.len() - i,
    {
        proof {
            assert(replies@.skip(i as int)[0] == replies@[i as int]);
        }
        delivered.push(messages[i].clone());
        proof {
            assert(delivered@ =~= messages@.take(i + 1));
        }
        let go = continuation_flag(&replies[i]);
        if !go {
            proof {
                assert(spec_deliver_count(replies@.skip(i as int)) == 1);
                assert(spec_stopped(replies@.skip(i as int)));
            }
            return RelayLog { delivered, stopped: true };
        }
        proof {
            assert(replies@.skip(i as int).drop_first() =~= replies@.skip(i + 1));
        }
        i = i + 1;
    }
    proof {
        assert(replies@.skip(i as int) =~= Seq::<CallbackReply>::empty());
    }
    RelayLog { delivered, stopped: false }
}

/// With no callback, a procedure never observes a stop request: every
/// message is delivered and the run ends without a stop.
pub proof fn lemma_missing_callback_never_stops(replies: Seq<CallbackReply>)
    requires
        forall|i: int| 0 <= i < replies.len() ==> replies[i] is Absent,
    ensures
        spec_deliver_count(replies) == replies.len(),
        !spec_stopped(replies),
    decreases replies,
{
    if replies.len() > 0 {
        assert(spec_continue(replies[0]));
        lemma_missing_callback_never_stops(replies.drop_first());
    }
}

} // verus!
