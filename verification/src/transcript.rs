//! What a run of the job engine hands to its two sinks.
//!
//! A run is a sequence of events fed to the machine of [`crate::job`], one after
//! the other. The functions here read off a run what was appended to the local
//! file and what was submitted to the relay, and the theorems say that both are
//! the header, the lines that the command printed and the terminal marker, in
//! that order, whatever the sinks answered.

use vstd::prelude::*;
use crate::completion::CompletionFlag;
use crate::identity::{error_path, output_path, pid_path, working_directory};
use crate::job::{
    awaits, flag_of, is_local_outcome, is_remote_outcome, transition, ActionView, EventView,
    JobView, Phase,
};
use crate::record::{
    exit_marker, file_text, header, lemma_exit_marker_single_line, lemma_file_text_push,
    lemma_header_single_line, lemma_lines_of_file_text, lines_of, terminated,
};
use crate::text::{all_single_line, line_feed, single_line};

verus! {

/// A job on which nothing has been done yet.
pub open spec fn untouched(job: JobView) -> bool {
    job.phase == Phase::Created && job.current.len() == 0 && !job.closing
}

/// The state of `job` after `events`.
pub open spec fn run(job: JobView, events: Seq<EventView>) -> JobView
    decreases events.len(),
{
    if events.len() == 0 {
        job
    } else {
        transition(run(job, events.drop_last()), events.last()).0
    }
}

/// The action with which the machine answered the last of `events`.
pub open spec fn last_action(job: JobView, events: Seq<EventView>) -> ActionView
    recommends
        events.len() > 0,
{
    transition(run(job, events.drop_last()), events.last()).1.action
}

/// The actions with which the machine answered `events`, one for each event.
pub open spec fn issued(job: JobView, events: Seq<EventView>) -> Seq<ActionView>
    decreases events.len(),
{
    if events.len() == 0 {
        Seq::empty()
    } else {
        issued(job, events.drop_last()).push(last_action(job, events))
    }
}

/// Everything that `actions` append to the local file, in order: the text of the
/// file if every write succeeds.
pub open spec fn local_text(actions: Seq<ActionView>) -> Seq<char>
    decreases actions.len(),
{
    if actions.len() == 0 {
        Seq::empty()
    } else {
        local_text(actions.drop_last()) + match actions.last() {
            ActionView::AppendLocal { text, .. } => text,
            _ => Seq::empty(),
        }
    }
}

/// The lines that `actions` submit to the relay, in order.
pub open spec fn relayed(actions: Seq<ActionView>) -> Seq<Seq<char>>
    decreases actions.len(),
{
    if actions.len() == 0 {
        Seq::empty()
    } else {
        match actions.last() {
            ActionView::SubmitRemote { line, .. } => relayed(actions.drop_last()).push(line),
            _ => relayed(actions.drop_last()),
        }
    }
}

/// The lines that the machine took from the command's output during `events`.
pub open spec fn consumed(job: JobView, events: Seq<EventView>) -> Seq<Seq<char>>
    decreases events.len(),
{
    if events.len() == 0 {
        Seq::empty()
    } else {
        let before = events.drop_last();
        match events.last() {
            EventView::Line { text } if run(job, before).phase == Phase::Reading => consumed(
                job,
                before,
            ).push(text),
            _ => consumed(job, before),
        }
    }
}

/// The time at which the job was detached during `events`, if it was.
pub open spec fn started_at(job: JobView, events: Seq<EventView>) -> Option<Seq<char>>
    decreases events.len(),
{
    if events.len() == 0 {
        None
    } else {
        let before = events.drop_last();
        match events.last() {
            EventView::Detached { timestamp } if run(job, before).phase == Phase::Detaching => Some(
                timestamp,
            ),
            _ => started_at(job, before),
        }
    }
}

/// The machine has seen the end of the command's output during `events`.
pub open spec fn stream_closed(job: JobView, events: Seq<EventView>) -> bool
    decreases events.len(),
{
    if events.len() == 0 {
        false
    } else {
        let before = events.drop_last();
        stream_closed(job, before) || (events.last() is EndOfStream && run(job, before).phase
            == Phase::Reading)
    }
}

/// The records that a run owes its sinks so far: nothing before the job is
/// detached; then the header, the lines taken from the command, and the terminal
/// marker once the output has ended.
pub open spec fn records(job: JobView, events: Seq<EventView>) -> Seq<Seq<char>> {
    match started_at(job, events) {
        None => Seq::empty(),
        Some(timestamp) => seq![header(job.identity, timestamp, job.command)] + consumed(
            job,
            events,
        ) + if stream_closed(job, events) {
            seq![exit_marker()]
        } else {
            Seq::empty()
        },
    }
}

/// How the state of a run, what it handed out and what it owes hang together.
pub open spec fn coherent(job: JobView, events: Seq<EventView>) -> bool {
    let state = run(job, events);
    let actions = issued(job, events);
    let owed = records(job, events);
    &&& state.machine == job.machine
    &&& state.identity == job.identity
    &&& state.description == job.description
    &&& state.command == job.command
    &&& state.closing == stream_closed(job, events)
    &&& match state.phase {
        Phase::Created | Phase::Registering | Phase::Spawning | Phase::Detaching | Phase::Rejected
        | Phase::Failed => {
            &&& started_at(job, events) is None
            &&& !stream_closed(job, events)
            &&& consumed(job, events) == Seq::<Seq<char>>::empty()
            &&& local_text(actions) == Seq::<char>::empty()
            &&& relayed(actions) == Seq::<Seq<char>>::empty()
        },
        Phase::Appending => {
            &&& started_at(job, events) is Some
            &&& state.current == owed.last()
            &&& local_text(actions) == file_text(owed)
            &&& relayed(actions) == owed.drop_last()
        },
        Phase::Submitting => {
            &&& started_at(job, events) is Some
            &&& state.current == owed.last()
            &&& local_text(actions) == file_text(owed)
            &&& relayed(actions) == owed
        },
        Phase::Reading => {
            &&& started_at(job, events) is Some
            &&& !stream_closed(job, events)
            &&& local_text(actions) == file_text(owed)
            &&& relayed(actions) == owed
        },
        Phase::Completed => {
            &&& started_at(job, events) is Some
            &&& stream_closed(job, events)
            &&& local_text(actions) == file_text(owed)
            &&& relayed(actions) == owed
        },
    }
}

/// One more action adds its text, if it is a local append, to the local file.
pub proof fn lemma_local_text_push(actions: Seq<ActionView>, action: ActionView)
    ensures
        local_text(actions.push(action)) == local_text(actions) + match action {
            ActionView::AppendLocal { text, .. } => text,
            _ => Seq::empty(),
        },
{
    assert(actions.push(action).drop_last() =~= actions);
}

/// One more action adds its line, if it is a submission, to what the relay got.
pub proof fn lemma_relayed_push(actions: Seq<ActionView>, action: ActionView)
    ensures
        relayed(actions.push(action)) == match action {
            ActionView::SubmitRemote { line, .. } => relayed(actions).push(line),
            _ => relayed(actions),
        },
{
    assert(actions.push(action).drop_last() =~= actions);
}

/// What one more event does to the records owed: a local append is issued exactly
/// when a record is added, and it carries that record, terminated.
pub proof fn lemma_records_step(job: JobView, events: Seq<EventView>)
    requires
        untouched(job),
        events.len() > 0,
        coherent(job, events.drop_last()),
    ensures
        match last_action(job, events) {
            ActionView::AppendLocal { path, text } => {
                &&& records(job, events).len() > 0
                &&& records(job, events) == records(job, events.drop_last()).push(
                    records(job, events).last(),
                )
                &&& text == terminated(records(job, events).last())
                &&& path == output_path(job.identity)
                &&& run(job, events).current == records(job, events).last()
            },
            _ => records(job, events) == records(job, events.drop_last()),
        },
{
    let before = events.drop_last();
    let prior = run(job, before);
    let owed_before = records(job, before);
    let owed = records(job, events);
    match (prior.phase, events.last()) {
        (Phase::Detaching, EventView::Detached { timestamp }) => {
            let line = header(job.identity, timestamp, job.command);
            assert(owed =~= seq![line]);
            assert(owed =~= owed_before.push(line));
        },
        (Phase::Reading, EventView::Line { text }) => {
            assert(owed =~= owed_before.push(text));
        },
        (Phase::Reading, EventView::EndOfStream) => {
            assert(owed =~= owed_before.push(exit_marker()));
        },
        _ => {
            assert(owed =~= owed_before);
        },
    }
}

/// Every run of an untouched job is coherent: at each point the local file holds
/// the terminated text of the records owed so far, and the relay has been handed
/// the same records, less the one that is still at the local file.
pub proof fn theorem_runs_are_coherent(job: JobView, events: Seq<EventView>)
    requires
        untouched(job),
    ensures
        coherent(job, events),
    decreases events.len(),
{
    if events.len() > 0 {
        let before = events.drop_last();
        theorem_runs_are_coherent(job, before);
        lemma_records_step(job, events);
        let action = last_action(job, events);
        let owed_before = records(job, before);
        let owed = records(job, events);
        lemma_local_text_push(issued(job, before), action);
        lemma_relayed_push(issued(job, before), action);
        match action {
            ActionView::AppendLocal { path, text } => {
                lemma_file_text_push(owed_before, owed.last());
                assert(owed.drop_last() =~= owed_before);
            },
            ActionView::SubmitRemote { job: name, line } => {
                assert(owed_before =~= owed_before.drop_last().push(owed_before.last()));
            },
            _ => {},
        }
    }
}

/// A text that is one whole line of a file: no line feed but the one at its end.
pub open spec fn one_whole_line(text: Seq<char>) -> bool {
    &&& text.len() > 0
    &&& text.last() == line_feed()
    &&& single_line(text.drop_last())
}

/// If `action` is a local append, its text is one of the records `owed`,
/// terminated.
pub open spec fn appends_a_record(action: ActionView, owed: Seq<Seq<char>>) -> bool {
    action matches ActionView::AppendLocal { text, .. } ==> {
        &&& owed.contains(text.drop_last())
        &&& text == terminated(text.drop_last())
    }
}

/// If `action` is a local append, its text is one whole line.
pub open spec fn appends_a_whole_line(action: ActionView) -> bool {
    action matches ActionView::AppendLocal { text, .. } ==> one_whole_line(text)
}

/// Every local append of a run hands over one record in one piece: its text is a
/// record owed, terminated, never a part of one and never two. Where the records
/// are single lines, each append is one whole line of the file.
pub proof fn theorem_appends_are_whole_records(job: JobView, events: Seq<EventView>)
    requires
        untouched(job),
    ensures
        forall|i: int|
            0 <= i < issued(job, events).len() ==> appends_a_record(
                #[trigger] issued(job, events)[i],
                records(job, events),
            ),
        all_single_line(records(job, events)) ==> forall|i: int|
            0 <= i < issued(job, events).len() ==> appends_a_whole_line(
                #[trigger] issued(job, events)[i],
            ),
    decreases events.len(),
{
    if events.len() > 0 {
        let before = events.drop_last();
        theorem_appends_are_whole_records(job, before);
        theorem_runs_are_coherent(job, before);
        lemma_records_step(job, events);
        let actions = issued(job, events);
        let owed_before = records(job, before);
        let owed = records(job, events);
        assert(actions == issued(job, before).push(last_action(job, events)));
        assert forall|line: Seq<char>| owed_before.contains(line) implies owed.contains(line) by {
            let k = choose|k: int| 0 <= k < owed_before.len() && owed_before[k] == line;
            assert(owed[k] == line);
        }
        assert forall|i: int| 0 <= i < actions.len() implies appends_a_record(
            #[trigger] actions[i],
            owed,
        ) by {
            if i < issued(job, before).len() {
                assert(actions[i] == issued(job, before)[i]);
                assert(appends_a_record(issued(job, before)[i], owed_before));
            } else {
                assert(actions[i] == last_action(job, events));
                if let ActionView::AppendLocal { path, text } = actions[i] {
                    assert(text.drop_last() =~= owed.last());
                    assert(owed[owed.len() - 1] == owed.last());
                }
            }
        }
        if all_single_line(owed) {
            assert forall|i: int| 0 <= i < actions.len() implies appends_a_whole_line(
                #[trigger] actions[i],
            ) by {
                assert(appends_a_record(actions[i], owed));
                if let ActionView::AppendLocal { path, text } = actions[i] {
                    let k = choose|k: int| 0 <= k < owed.len() && owed[k] == text.drop_last();
                    assert(single_line(owed[k]));
                }
            }
        }
    }
}

/// The transcript of a completed job: both sinks were handed the header, then
/// every line taken from the command, then the terminal marker, in that order and
/// nothing else. This holds whatever the local file and the relay answered.
pub proof fn theorem_completed_transcript(job: JobView, events: Seq<EventView>)
    requires
        untouched(job),
        run(job, events).phase == Phase::Completed,
    ensures
        started_at(job, events) is Some,
        records(job, events) == seq![
            header(job.identity, started_at(job, events)->0, job.command),
        ] + consumed(job, events) + seq![exit_marker()],
        local_text(issued(job, events)) == file_text(records(job, events)),
        relayed(issued(job, events)) == records(job, events),
{
    theorem_runs_are_coherent(job, events);
}

/// The lines of the local file of a completed job, read back: one header line,
/// the lines taken from the command in the order in which they came, and one last
/// line that is the terminal marker. A command that printed nothing leaves the
/// header and the marker. The identity, the command and the lines must each fit
/// one line of a file.
pub proof fn theorem_local_file_lines(job: JobView, events: Seq<EventView>)
    requires
        untouched(job),
        run(job, events).phase == Phase::Completed,
        single_line(job.identity),
        single_line(job.command),
        started_at(job, events) matches Some(timestamp) ==> single_line(timestamp),
        all_single_line(consumed(job, events)),
    ensures
        lines_of(local_text(issued(job, events))) == records(job, events),
        lines_of(local_text(issued(job, events))).len() == consumed(job, events).len() + 2,
        lines_of(local_text(issued(job, events))).first() == header(
            job.identity,
            started_at(job, events)->0,
            job.command,
        ),
        lines_of(local_text(issued(job, events))).last() == exit_marker(),
        lines_of(local_text(issued(job, events))).subrange(
            1,
            consumed(job, events).len() as int + 1,
        ) == consumed(job, events),
{
    theorem_completed_transcript(job, events);
    let first = header(job.identity, started_at(job, events)->0, job.command);
    let middle = consumed(job, events);
    let owed = records(job, events);
    lemma_header_single_line(job.identity, started_at(job, events)->0, job.command);
    lemma_exit_marker_single_line();
    assert forall|i: int| 0 <= i < owed.len() implies single_line(#[trigger] owed[i]) by {
        if i == 0 {
        } else if i <= middle.len() {
            assert(owed[i] == middle[i - 1]);
        } else {
        }
    }
    lemma_lines_of_file_text(owed);
    assert(owed.subrange(1, middle.len() as int + 1) =~= middle);
}

/// The program hands the machine only events that the machine awaits.
pub open spec fn well_driven(job: JobView, events: Seq<EventView>) -> bool
    decreases events.len(),
{
    if events.len() == 0 {
        true
    } else {
        let before = events.drop_last();
        well_driven(job, before) && awaits(run(job, before).phase, events.last())
    }
}

/// The lines that the command printed during `events`.
pub open spec fn printed(events: Seq<EventView>) -> Seq<Seq<char>>
    decreases events.len(),
{
    if events.len() == 0 {
        Seq::empty()
    } else {
        match events.last() {
            EventView::Line { text } => printed(events.drop_last()).push(text),
            _ => printed(events.drop_last()),
        }
    }
}

/// In a run where every event is awaited, the machine takes every line that the
/// command prints.
pub proof fn lemma_every_printed_line_is_consumed(job: JobView, events: Seq<EventView>)
    requires
        well_driven(job, events),
    ensures
        consumed(job, events) == printed(events),
    decreases events.len(),
{
    if events.len() > 0 {
        lemma_every_printed_line_is_consumed(job, events.drop_last());
    }
}

/// The local log of a job that ran to its end holds, between its header line and
/// its last line, the lines that the command printed, each once and in the order
/// in which the command printed them.
pub proof fn theorem_local_log_holds_the_output(job: JobView, events: Seq<EventView>)
    requires
        untouched(job),
        well_driven(job, events),
        run(job, events).phase == Phase::Completed,
        single_line(job.identity),
        single_line(job.command),
        started_at(job, events) matches Some(timestamp) ==> single_line(timestamp),
        all_single_line(printed(events)),
    ensures
        lines_of(local_text(issued(job, events))).len() == printed(events).len() + 2,
        lines_of(local_text(issued(job, events))).subrange(
            1,
            printed(events).len() as int + 1,
        )
            == printed(events),
{
    lemma_every_printed_line_is_consumed(job, events);
    theorem_local_file_lines(job, events);
}

/// Two events differ at most in how a sink answered.
pub open spec fn same_but_for_outcome(first: EventView, second: EventView) -> bool {
    ||| first == second
    ||| is_local_outcome(first) && is_local_outcome(second)
    ||| is_remote_outcome(first) && is_remote_outcome(second)
}

/// Two runs differ at most in how the sinks answered.
pub open spec fn same_but_for_outcomes(first: Seq<EventView>, second: Seq<EventView>) -> bool {
    &&& first.len() == second.len()
    &&& forall|i: int| 0 <= i < first.len() ==> same_but_for_outcome(first[i], second[i])
}

/// A failing sink changes what is reported and nothing else: two runs that differ
/// only in the answers of the local file and of the relay pass through the same
/// states and issue the same actions. A record that the relay refused is still in
/// the local file, and the records after it are still handed to both sinks.
pub proof fn theorem_outcomes_do_not_matter(
    job: JobView,
    first: Seq<EventView>,
    second: Seq<EventView>,
)
    requires
        same_but_for_outcomes(first, second),
    ensures
        run(job, first) == run(job, second),
        issued(job, first) == issued(job, second),
        consumed(job, first) == consumed(job, second),
    decreases first.len(),
{
    if first.len() > 0 {
        assert(same_but_for_outcome(first.last(), second.last()));
        assert(same_but_for_outcomes(first.drop_last(), second.drop_last()));
        theorem_outcomes_do_not_matter(job, first.drop_last(), second.drop_last());
    }
}

/// A refusal by the relay does not hold the next line back: the machine goes on
/// to read, and the line it then gets is appended to the local file.
pub proof fn law_relay_failure_does_not_stop_the_next_line(
    job: JobView,
    reason: Seq<char>,
    next: Seq<char>,
)
    requires
        job.phase == Phase::Submitting,
        !job.closing,
    ensures
        transition(job, EventView::RemoteFailed { reason }).0 == transition(
            job,
            EventView::RemoteAccepted,
        ).0,
        transition(job, EventView::RemoteFailed { reason }).1.action == ActionView::ReadLine,
        transition(
            transition(job, EventView::RemoteFailed { reason }).0,
            EventView::Line { text: next },
        ).1.action == (ActionView::AppendLocal {
            path: output_path(job.identity),
            text: terminated(next),
        }),
{
}

/// The local file only grows: whatever event comes next, what was appended before
/// it stays, and stays first.
pub proof fn law_local_file_is_append_only(job: JobView, events: Seq<EventView>, next: EventView)
    ensures
        local_text(issued(job, events)).is_prefix_of(local_text(issued(job, events.push(next)))),
{
    let longer = events.push(next);
    assert(longer.drop_last() =~= events);
    lemma_local_text_push(issued(job, events), last_action(job, longer));
}

/// The completion flag never goes back: once a job is complete, no event moves it.
pub proof fn law_flag_never_reverts(job: JobView, events: Seq<EventView>)
    requires
        flag_of(job.phase) == CompletionFlag::Done,
    ensures
        run(job, events) == job,
        flag_of(run(job, events).phase) == CompletionFlag::Done,
    decreases events.len(),
{
    if events.len() > 0 {
        law_flag_never_reverts(job, events.drop_last());
    }
}

/// The completion flag is pending as long as the command's output has not ended.
pub proof fn law_flag_pending_before_the_stream_closes(job: JobView, events: Seq<EventView>)
    requires
        untouched(job),
        !stream_closed(job, events),
    ensures
        flag_of(run(job, events).phase) == CompletionFlag::Pending,
{
    theorem_runs_are_coherent(job, events);
}

/// The completion flag is done once the output has ended and both sinks have
/// answered for the terminal marker, whatever they answered.
pub proof fn law_flag_done_after_the_stream_closes(
    job: JobView,
    local: EventView,
    remote: EventView,
)
    requires
        job.phase == Phase::Reading,
        is_local_outcome(local),
        is_remote_outcome(remote),
    ensures
        flag_of(run(job, seq![EventView::EndOfStream, local, remote]).phase)
            == CompletionFlag::Done,
{
    let events = seq![EventView::EndOfStream, local, remote];
    let two = events.drop_last();
    let one = two.drop_last();
    assert(one.drop_last() =~= Seq::<EventView>::empty());
    assert(one.last() == EventView::EndOfStream);
    assert(two.last() == local);
    assert(events.last() == remote);
    assert(run(job, one.drop_last()) == job);
    assert(run(job, one).phase == Phase::Appending);
    assert(run(job, one).closing);
    assert(run(job, two).phase == Phase::Submitting);
    assert(run(job, two).closing);
}

/// What an action names belongs to the job: the record is created under the job's
/// identity and machine, every line goes to the relay under that identity, and
/// every local path is derived from it.
pub open spec fn names_the_job(action: ActionView, job: JobView) -> bool {
    match action {
        ActionView::CreateRecord { machine, name, description } => {
            &&& machine == job.machine
            &&& name == job.identity
            &&& description == job.description
        },
        ActionView::Spawn { command } => command == job.command,
        ActionView::Detach { pid_file, directory, output, error } => {
            &&& pid_file == pid_path(job.identity)
            &&& directory == working_directory()
            &&& output == output_path(job.identity)
            &&& error == error_path(job.identity)
        },
        ActionView::AppendLocal { path, .. } => path == output_path(job.identity),
        ActionView::SubmitRemote { job: name, .. } => name == job.identity,
        _ => true,
    }
}

/// The identity under which the job record is created is the identity that tags
/// every line sent to the relay and that names the local file: no action of a run
/// names another.
pub proof fn theorem_one_identity_throughout(job: JobView, events: Seq<EventView>)
    ensures
        run(job, events).identity == job.identity,
        run(job, events).machine == job.machine,
        run(job, events).description == job.description,
        run(job, events).command == job.command,
        forall|i: int|
            0 <= i < issued(job, events).len() ==> names_the_job(
                #[trigger] issued(job, events)[i],
                job,
            ),
    decreases events.len(),
{
    if events.len() > 0 {
        let before = events.drop_last();
        theorem_one_identity_throughout(job, before);
        let actions = issued(job, events);
        assert(actions == issued(job, before).push(last_action(job, events)));
        assert forall|i: int| 0 <= i < actions.len() implies names_the_job(
            #[trigger] actions[i],
            job,
        ) by {
            if i < issued(job, before).len() {
                assert(actions[i] == issued(job, before)[i]);
            } else {
                assert(actions[i] == last_action(job, events));
            }
        }
    }
}

} // verus!
