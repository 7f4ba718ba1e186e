//! What the procedures do to the selections and to the stack, from start to end.
//!
//! A desktop is modelled by what a read of each selection would find. It answers reads from that,
//! and a write or a clearing changes it exactly when it succeeds. Which of them succeed is left
//! open: `results` says how each of them goes, counted from zero.
use crate::action::{
    action_resumed, action_started, action_task_awaits, action_task_resumed, ActionModel,
};
use crate::clipboard::{
    decoded, receive_limit, ClipboardAction, ClipboardType, CopyClipboardType, ReadModel,
};
use crate::editing::replaced;
use crate::editor::{edited_text, law_edited_text_is_within_the_limit};
use crate::exchange::{announced, answers, ProgressModel, ReplyModel, RequestModel, Task};
use crate::notification::Notice;
use crate::stack::{
    poppable, position, pushable, pushed, restorable, stack_resumed, stack_started,
    stack_task_awaits, stack_task_resumed, stands_at, EntryModel, StackAction, StackLimits,
    StackModel, StackStep,
};
use crate::text::byte_length;
use vstd::prelude::*;
use vstd::utf8::*;

verus! {

/// What a read of each selection would find.
pub struct Desktop {
    pub primary: ReadModel,
    pub regular: ReadModel,
}

/// Whether a selection, or both, includes the primary one.
pub open spec fn includes_primary(selection: CopyClipboardType) -> bool {
    selection is Primary || selection is Both
}

/// Whether a selection, or both, includes the regular one.
pub open spec fn includes_regular(selection: CopyClipboardType) -> bool {
    selection is Regular || selection is Both
}

impl Desktop {
    /// What a read finds.
    pub open spec fn read(self, selection: ClipboardType) -> ReadModel {
        match selection {
            ClipboardType::Primary => self.primary,
            ClipboardType::Regular => self.regular,
        }
    }

    /// The desktop once a selection, or both, holds something else.
    pub open spec fn with(self, selection: CopyClipboardType, content: ReadModel) -> Desktop {
        Desktop {
            primary: if includes_primary(selection) {
                content
            } else {
                self.primary
            },
            regular: if includes_regular(selection) {
                content
            } else {
                self.regular
            },
        }
    }

    /// The desktop after a request that succeeded or failed.
    pub open spec fn after(self, request: RequestModel, result: Result<(), Seq<char>>) -> Desktop {
        match (request, result) {
            (RequestModel::Write(selection, value), Ok(())) => self.with(
                selection,
                ReadModel::Text(value),
            ),
            (RequestModel::Clear(selection), Ok(())) => self.with(selection, ReadModel::Empty),
            _ => self,
        }
    }
}

/// How an action ended.
pub struct ActionEnding {
    pub desktop: Desktop,
    pub result: Result<(), Seq<char>>,
}

/// How an action ends on a desktop, if it makes at most `steps` more requests and has made
/// `made` that were not reads.
pub open spec fn play(
    desktop: Desktop,
    progress: ProgressModel<ActionModel>,
    results: spec_fn(nat) -> Result<(), Seq<char>>,
    made: nat,
    steps: nat,
) -> ActionEnding
    decreases steps,
{
    match progress {
        ProgressModel::Finished(result) => ActionEnding { desktop, result },
        ProgressModel::Ask(state, request) => if steps == 0 {
            arbitrary()
        } else if let RequestModel::Read(selection) = request {
            play(
                desktop,
                action_resumed(state, ReplyModel::Read(desktop.read(selection))),
                results,
                made,
                (steps - 1) as nat,
            )
        } else {
            play(
                desktop.after(request, results(made)),
                action_resumed(state, ReplyModel::Written(results(made))),
                results,
                made + 1,
                (steps - 1) as nat,
            )
        },
    }
}

/// How an action ends on a desktop. No action makes more than five requests.
pub open spec fn performed(
    action: ClipboardAction,
    desktop: Desktop,
    results: spec_fn(nat) -> Result<(), Seq<char>>,
) -> ActionEnding {
    play(desktop, action_started(action), results, 0, 5)
}

/// Copying gives one selection the text of the other one, and changes nothing if there is no text
/// or if the write fails.
pub proof fn law_copy(desktop: Desktop, results: spec_fn(nat) -> Result<(), Seq<char>>)
    ensures
        ({
            let ending = performed(ClipboardAction::CopyPrimary, desktop, results);
            match desktop.primary {
                ReadModel::Text(_) => {
                    &&& ending.result == results(0)
                    &&& ending.desktop == if results(0) is Ok {
                        Desktop { primary: desktop.primary, regular: desktop.primary }
                    } else {
                        desktop
                    }
                },
                _ => ending.desktop == desktop && ending.result is Err,
            }
        }),
        ({
            let ending = performed(ClipboardAction::CopyRegular, desktop, results);
            match desktop.regular {
                ReadModel::Text(_) => {
                    &&& ending.result == results(0)
                    &&& ending.desktop == if results(0) is Ok {
                        Desktop { primary: desktop.regular, regular: desktop.regular }
                    } else {
                        desktop
                    }
                },
                _ => ending.desktop == desktop && ending.result is Err,
            }
        }),
{
    reveal_with_fuel(play, 6);
}

/// Resetting empties both selections, or fails and changes nothing.
pub proof fn law_reset(desktop: Desktop, results: spec_fn(nat) -> Result<(), Seq<char>>)
    ensures
        performed(ClipboardAction::Reset, desktop, results).result == results(0),
        performed(ClipboardAction::Reset, desktop, results).desktop == if results(0) is Ok {
            Desktop { primary: ReadModel::Empty, regular: ReadModel::Empty }
        } else {
            desktop
        },
{
    reveal_with_fuel(play, 6);
}

/// Whether each selection holds a text or is empty, so that the two can be exchanged.
pub open spec fn exchangeable(desktop: Desktop) -> bool {
    (desktop.primary is Text || desktop.primary is Empty) && (desktop.regular is Text
        || desktop.regular is Empty)
}

/// A switch that succeeds exchanges the selections. It succeeds if both selections can be
/// exchanged and both writes succeed, or if both selections are empty.
pub proof fn law_switch_exchanges(desktop: Desktop, results: spec_fn(nat) -> Result<(), Seq<char>>)
    ensures
        ({
            let ending = performed(ClipboardAction::Switch, desktop, results);
            &&& ending.result is Ok ==> ending.desktop == (Desktop {
                primary: desktop.regular,
                regular: desktop.primary,
            })
            &&& ending.result is Ok <==> exchangeable(desktop) && ((results(0) is Ok
                && results(1) is Ok) || (desktop.primary is Empty && desktop.regular is Empty))
        }),
{
    reveal_with_fuel(play, 6);
}

/// A switch that fails leaves both selections as they were, unless the regular selection could
/// not be written and after that the primary one could not be restored.
pub proof fn law_failed_switch_changes_nothing(
    desktop: Desktop,
    results: spec_fn(nat) -> Result<(), Seq<char>>,
)
    ensures
        ({
            let ending = performed(ClipboardAction::Switch, desktop, results);
            &&& ending.result is Err && !(results(0) is Ok && results(1) is Err && results(2) is Err)
                ==> ending.desktop == desktop
            &&& !exchangeable(desktop) ==> ending.desktop == desktop
            &&& ending.desktop.regular != desktop.regular ==> ending.result is Ok
        }),
{
    reveal_with_fuel(play, 6);
}

/// Switching twice without a failure brings back what the selections held.
pub proof fn law_switching_twice_restores(
    desktop: Desktop,
    first: spec_fn(nat) -> Result<(), Seq<char>>,
    second: spec_fn(nat) -> Result<(), Seq<char>>,
)
    ensures
        ({
            let once = performed(ClipboardAction::Switch, desktop, first);
            let twice = performed(ClipboardAction::Switch, once.desktop, second);
            once.result is Ok && twice.result is Ok ==> twice.desktop == desktop
        }),
{
    let once = performed(ClipboardAction::Switch, desktop, first);
    law_switch_exchanges(desktop, first);
    law_switch_exchanges(once.desktop, second);
}

/// How a stack action ended.
pub struct StackEnding {
    pub desktop: Desktop,
    pub stack: Seq<EntryModel>,
    pub next_id: u64,
    pub result: Result<(), Seq<char>>,
}

/// How a stack action ends on a desktop, if it makes at most `steps` more requests and has made
/// `made` that were not reads.
pub open spec fn play_stack(
    desktop: Desktop,
    step: StackStep<ProgressModel<StackModel>>,
    results: spec_fn(nat) -> Result<(), Seq<char>>,
    made: nat,
    steps: nat,
) -> StackEnding
    decreases steps,
{
    match step.progress {
        ProgressModel::Finished(result) => StackEnding {
            desktop,
            stack: step.stack,
            next_id: step.next_id,
            result,
        },
        ProgressModel::Ask(state, request) => if steps == 0 {
            arbitrary()
        } else if let RequestModel::Read(selection) = request {
            play_stack(
                desktop,
                stack_resumed(
                    state,
                    step.stack,
                    step.next_id,
                    ReplyModel::Read(desktop.read(selection)),
                ),
                results,
                made,
                (steps - 1) as nat,
            )
        } else {
            play_stack(
                desktop.after(request, results(made)),
                stack_resumed(state, step.stack, step.next_id, ReplyModel::Written(results(made))),
                results,
                made + 1,
                (steps - 1) as nat,
            )
        },
    }
}

/// How a stack action ends on a desktop. No stack action makes more than four requests.
pub open spec fn stack_performed(
    action: StackAction,
    desktop: Desktop,
    stack: Seq<EntryModel>,
    next_id: u64,
    limits: StackLimits,
    results: spec_fn(nat) -> Result<(), Seq<char>>,
) -> StackEnding {
    play_stack(
        desktop,
        StackStep { progress: stack_started(action, stack, limits), stack, next_id },
        results,
        0,
        4,
    )
}

/// The selection that a push reads.
pub open spec fn push_source(action: StackAction) -> ClipboardType {
    if action is PushPrimary {
        ClipboardType::Primary
    } else {
        ClipboardType::Regular
    }
}

/// A push puts the text of a selection on top of the stack and leaves the selections alone. It
/// succeeds exactly if there is a text, not empty and not too large; otherwise the stack stays as
/// it is.
pub proof fn law_push(
    action: StackAction,
    desktop: Desktop,
    stack: Seq<EntryModel>,
    next_id: u64,
    limits: StackLimits,
    results: spec_fn(nat) -> Result<(), Seq<char>>,
)
    requires
        action is PushPrimary || action is PushRegular,
    ensures
        ({
            let ending = stack_performed(action, desktop, stack, next_id, limits, results);
            &&& ending.desktop == desktop
            &&& match pushable(desktop.read(push_source(action)), limits.max_entry_bytes) {
                Ok(value) => {
                    &&& ending.result is Ok
                    &&& ending.stack == pushed(
                        stack,
                        EntryModel { id: next_id, value },
                        limits.capacity as nat,
                    )
                },
                Err(message) => ending.result == Err::<(), Seq<char>>(message) && ending.stack
                    == stack,
            }
        }),
{
    reveal_with_fuel(play_stack, 5);
}

/// The selection that a pop writes.
pub open spec fn pop_destination(action: StackAction) -> CopyClipboardType {
    if action is PopPrimary {
        CopyClipboardType::Primary
    } else {
        CopyClipboardType::Regular
    }
}

/// A pop to one selection writes the text on top of the stack there. The entry leaves the stack
/// if and only if the write succeeds; otherwise nothing changes.
pub proof fn law_pop_to_one(
    action: StackAction,
    desktop: Desktop,
    stack: Seq<EntryModel>,
    next_id: u64,
    limits: StackLimits,
    results: spec_fn(nat) -> Result<(), Seq<char>>,
)
    requires
        action is PopPrimary || action is PopRegular,
    ensures
        ({
            let ending = stack_performed(action, desktop, stack, next_id, limits, results);
            match poppable(stack, limits.clipboard.max_bytes) {
                Ok(value) => {
                    &&& ending.result == results(0)
                    &&& ending.result is Ok ==> ending.stack == stack.drop_last() && ending.desktop
                        == desktop.with(pop_destination(action), ReadModel::Text(value))
                    &&& ending.result is Err ==> ending.stack == stack && ending.desktop == desktop
                },
                Err(message) => {
                    &&& ending.result == Err::<(), Seq<char>>(message)
                    &&& ending.stack == stack
                    &&& ending.desktop == desktop
                },
            }
        }),
{
    reveal_with_fuel(play_stack, 5);
}

/// A pop to both selections writes the text on top of the stack to both. The entry leaves the
/// stack if and only if both writes succeed. Otherwise the stack stays as it is, and so do the
/// selections, unless the regular one could not be written and after that the primary one could
/// not be restored.
pub proof fn law_pop_to_both(
    desktop: Desktop,
    stack: Seq<EntryModel>,
    next_id: u64,
    limits: StackLimits,
    results: spec_fn(nat) -> Result<(), Seq<char>>,
)
    ensures
        ({
            let ending = stack_performed(
                StackAction::PopBoth,
                desktop,
                stack,
                next_id,
                limits,
                results,
            );
            &&& ending.result is Ok <==> {
                &&& poppable(stack, limits.clipboard.max_bytes) is Ok
                &&& restorable(desktop.primary) is Ok
                &&& results(0) is Ok
                &&& results(1) is Ok
            }
            &&& ending.result is Ok ==> ending.stack == stack.drop_last() && ending.desktop
                == desktop.with(CopyClipboardType::Both, ReadModel::Text(stack.last().value))
            &&& ending.result is Err ==> ending.stack == stack && ending.desktop.regular
                == desktop.regular
            &&& ending.result is Err && !(results(0) is Ok && results(1) is Err && results(2) is Err)
                ==> ending.desktop == desktop
        }),
{
    reveal_with_fuel(play_stack, 5);
}

/// The stack is last in, first out: a push and a pop that both succeed put the text that was
/// pushed where the pop goes, and leave the stack as it was before, less its oldest entry if it
/// was full.
pub proof fn law_pop_gives_back_what_was_pushed(
    push: StackAction,
    pop: StackAction,
    before: Desktop,
    after: Desktop,
    stack: Seq<EntryModel>,
    next_id: u64,
    limits: StackLimits,
    first: spec_fn(nat) -> Result<(), Seq<char>>,
    second: spec_fn(nat) -> Result<(), Seq<char>>,
)
    requires
        push is PushPrimary || push is PushRegular,
        !(pop is PushPrimary || pop is PushRegular),
        stack.len() <= limits.capacity,
        limits.capacity > 0,
    ensures
        ({
            let one = stack_performed(push, before, stack, next_id, limits, first);
            let two = stack_performed(pop, after, one.stack, one.next_id, limits, second);
            one.result is Ok && two.result is Ok ==> {
                &&& two.desktop == after.with(
                    match pop {
                        StackAction::PopPrimary => CopyClipboardType::Primary,
                        StackAction::PopRegular => CopyClipboardType::Regular,
                        _ => CopyClipboardType::Both,
                    },
                    before.read(push_source(push)),
                )
                &&& two.stack == if stack.len() == limits.capacity {
                    stack.drop_first()
                } else {
                    stack
                }
            }
        }),
{
    let one = stack_performed(push, before, stack, next_id, limits, first);
    law_push(push, before, stack, next_id, limits, first);
    if pop is PopBoth {
        law_pop_to_both(after, one.stack, one.next_id, limits, second);
    } else {
        law_pop_to_one(pop, after, one.stack, one.next_id, limits, second);
    }
    if one.result is Ok {
        let value = pushable(before.read(push_source(push)), limits.max_entry_bytes)->Ok_0;
        let entry = EntryModel { id: next_id, value };
        assert(one.stack.last() == entry);
        assert(one.stack.drop_last() =~= if stack.len() == limits.capacity {
            stack.drop_first()
        } else {
            stack
        });
    }
}

/// Whether a stack is as the applet keeps it: no larger than it may be, with no entry larger than
/// it may be, and with a different identity for each entry, none of which is still to be given
/// out.
pub open spec fn sound(stack: Seq<EntryModel>, next_id: u64, limits: StackLimits) -> bool {
    &&& stack.len() <= limits.capacity
    &&& forall|i: int|
        0 <= i < stack.len() ==> byte_length((#[trigger] stack[i]).value) <= limits.max_entry_bytes
    &&& forall|i: int| 0 <= i < stack.len() ==> (#[trigger] stack[i]).id < next_id
    &&& forall|i: int, j: int|
        0 <= i < j < stack.len() ==> (#[trigger] stack[i]).id != (#[trigger] stack[j]).id
}

/// The stack that an applet starts with is sound.
pub proof fn law_the_empty_stack_is_sound(next_id: u64, limits: StackLimits)
    ensures
        sound(Seq::empty(), next_id, limits),
{
}

/// Every stack action keeps a stack sound, whether it succeeds or not, as long as identities do
/// not run out.
pub proof fn law_stack_actions_keep_the_stack_sound(
    action: StackAction,
    desktop: Desktop,
    stack: Seq<EntryModel>,
    next_id: u64,
    limits: StackLimits,
    results: spec_fn(nat) -> Result<(), Seq<char>>,
)
    requires
        sound(stack, next_id, limits),
        limits.capacity > 0,
        next_id < u64::MAX,
    ensures
        ({
            let ending = stack_performed(action, desktop, stack, next_id, limits, results);
            sound(ending.stack, ending.next_id, limits)
        }),
{
    reveal_with_fuel(play_stack, 5);
}

/// Replacing the text of an entry by the result of an edit keeps a stack sound.
pub proof fn law_edits_keep_the_stack_sound(
    stack: Seq<EntryModel>,
    next_id: u64,
    limits: StackLimits,
    id: u64,
    original: Seq<char>,
    file: Seq<u8>,
)
    requires
        sound(stack, next_id, limits),
    ensures
        edited_text(file, limits.max_entry_bytes) matches Ok(edited) ==> (replaced(
            stack,
            id,
            original,
            edited,
        ) matches Ok(entries) ==> sound(entries, next_id, limits)),
{
    law_edited_text_is_within_the_limit(file, limits.max_entry_bytes);
    if let Ok(edited) = edited_text(file, limits.max_entry_bytes) {
        if let Ok(entries) = replaced(stack, id, original, edited) {
            let index = position(stack, id)->0;
            assert(stands_at(stack, id, index));
            assert forall|i: int| 0 <= i < entries.len() implies (#[trigger] entries[i]).id
                == stack[i].id && (i != index ==> entries[i] == stack[i]) by {}
        }
    }
}

/// An entry that has left the stack, popped or pushed out by newer ones, never comes back under
/// its identity, so that an edit of it is refused.
pub proof fn law_removed_entries_stay_removed(
    action: StackAction,
    desktop: Desktop,
    stack: Seq<EntryModel>,
    next_id: u64,
    limits: StackLimits,
    results: spec_fn(nat) -> Result<(), Seq<char>>,
    id: u64,
    original: Seq<char>,
    edited: Seq<char>,
)
    requires
        sound(stack, next_id, limits),
        limits.capacity > 0,
        next_id < u64::MAX,
    ensures
        ({
            let ending = stack_performed(action, desktop, stack, next_id, limits, results);
            &&& id < next_id && position(stack, id) is None ==> {
                &&& id < ending.next_id
                &&& position(ending.stack, id) is None
                &&& replaced(ending.stack, id, original, edited) is Err
            }
            &&& !(action is PushPrimary || action is PushRegular) && ending.result is Ok
                ==> replaced(ending.stack, stack.last().id, original, edited) is Err
            &&& (action is PushPrimary || action is PushRegular) && ending.result is Ok
                && stack.len() == limits.capacity ==> replaced(
                ending.stack,
                stack.first().id,
                original,
                edited,
            ) is Err
        }),
{
    reveal_with_fuel(play_stack, 5);
    let ending = stack_performed(action, desktop, stack, next_id, limits, results);
    lemma_position_is_where_the_identity_is(stack, id);
    lemma_position_is_where_the_identity_is(ending.stack, id);
    lemma_position_is_where_the_identity_is(ending.stack, stack.last().id);
    lemma_position_is_where_the_identity_is(ending.stack, stack.first().id);
}

proof fn lemma_position_is_where_the_identity_is(stack: Seq<EntryModel>, id: u64)
    ensures
        position(stack, id) is None <==> forall|i: int|
            0 <= i < stack.len() ==> (#[trigger] stack[i]).id != id,
    decreases stack.len(),
{
    if position(stack, id) is None && stack.len() > 0 {
        let shorter = stack.drop_last();
        assert forall|index: int| !stands_at(shorter, id, index) by {
            if stands_at(shorter, id, index) {
                assert forall|i: int| 0 <= i < index implies (#[trigger] stack[i]).id != id by {
                    assert(shorter[i] == stack[i]);
                }
                assert(stands_at(stack, id, index));
            }
        }
        lemma_position_is_where_the_identity_is(shorter, id);
        assert forall|i: int| 0 <= i < stack.len() implies (#[trigger] stack[i]).id != id by {
            if i < shorter.len() {
                assert(shorter[i] == stack[i]);
            } else {
                assert(forall|j: int| 0 <= j < i ==> shorter[j] == #[trigger] stack[j]);
                assert(!stands_at(stack, id, i));
            }
        }
    }
}

/// What an action asks for is what it waits for: a read for a read, a write or a clearing for its
/// success or failure.
pub proof fn law_actions_wait_for_what_they_asked_for(
    action: ClipboardAction,
    state: ActionModel,
    reply: ReplyModel,
    next: ReplyModel,
)
    requires
        state.awaits(reply),
    ensures
        action_started(action) matches ProgressModel::Ask(state, request) ==> (state.awaits(next)
            <==> answers(next, request)),
        action_resumed(state, reply) matches ProgressModel::Ask(state, request) ==> (state.awaits(
            next,
        ) <==> answers(next, request)),
{
}

/// What a stack action asks for is what it waits for.
pub proof fn law_stack_actions_wait_for_what_they_asked_for(
    action: StackAction,
    limits: StackLimits,
    state: StackModel,
    stack: Seq<EntryModel>,
    next_id: u64,
    reply: ReplyModel,
    next: ReplyModel,
)
    requires
        state.awaits(reply),
    ensures
        stack_started(action, stack, limits) matches ProgressModel::Ask(state, request) ==> (
        state.awaits(next) <==> answers(next, request)),
        stack_resumed(state, stack, next_id, reply).progress matches ProgressModel::Ask(
            state,
            request,
        ) ==> (state.awaits(next) <==> answers(next, request)),
{
}

/// A task waits for what it asked for if its work does: the notification for its being attempted,
/// everything else as in the work.
pub proof fn law_tasks_wait_for_what_they_asked_for(
    notice: Notice,
    notifications: bool,
    work: ProgressModel<ActionModel>,
    stack_work: ProgressModel<StackModel>,
    next: ReplyModel,
)
    requires
        work matches ProgressModel::Ask(state, request) ==> (state.awaits(next) <==> answers(
            next,
            request,
        )),
        stack_work matches ProgressModel::Ask(state, request) ==> (state.awaits(next) <==> answers(
            next,
            request,
        )),
    ensures
        announced(notice, notifications, work) matches ProgressModel::Ask(task, request) ==> (
        action_task_awaits(task, next) <==> answers(next, request)),
        announced(notice, notifications, stack_work) matches ProgressModel::Ask(task, request) ==> (
        stack_task_awaits(task, next) <==> answers(next, request)),
{
}

/// How a task ended, and the notifications that it asked for on the way.
pub struct TaskEnding {
    pub desktop: Desktop,
    pub result: Result<(), Seq<char>>,
    pub notices: Seq<Notice>,
}

/// How a task ends on a desktop, if it makes at most `steps` more requests, has made `made` that
/// were neither reads nor notifications, and has asked for `notices`.
pub open spec fn play_task(
    desktop: Desktop,
    progress: ProgressModel<Task<ActionModel>>,
    results: spec_fn(nat) -> Result<(), Seq<char>>,
    made: nat,
    notices: Seq<Notice>,
    steps: nat,
) -> TaskEnding
    decreases steps,
{
    match progress {
        ProgressModel::Finished(result) => TaskEnding { desktop, result, notices },
        ProgressModel::Ask(task, request) => if steps == 0 {
            arbitrary()
        } else {
            let rest = (steps - 1) as nat;
            match request {
                RequestModel::Read(selection) => play_task(
                    desktop,
                    action_task_resumed(task, ReplyModel::Read(desktop.read(selection))),
                    results,
                    made,
                    notices,
                    rest,
                ),
                RequestModel::Notify(notice) => play_task(
                    desktop,
                    action_task_resumed(task, ReplyModel::Notified),
                    results,
                    made,
                    notices.push(notice),
                    rest,
                ),
                _ => play_task(
                    desktop.after(request, results(made)),
                    action_task_resumed(task, ReplyModel::Written(results(made))),
                    results,
                    made + 1,
                    notices,
                    rest,
                ),
            }
        },
    }
}

/// Whether progress is how work on the selections begins: an action, one write or clearing, or
/// nothing left to do.
pub open spec fn beginning(work: ProgressModel<ActionModel>) -> bool {
    ||| exists|action: ClipboardAction| work == action_started(action)
    ||| work matches ProgressModel::Ask(ActionModel::Writing, request) && (request is Write
        || request is Clear)
    ||| work is Finished
}

/// A task does and results in what its work does and results in. One notification is asked for if
/// the work succeeds and notifications are enabled, and none otherwise.
pub proof fn law_success_is_announced(
    notice: Notice,
    notifications: bool,
    work: ProgressModel<ActionModel>,
    desktop: Desktop,
    results: spec_fn(nat) -> Result<(), Seq<char>>,
)
    requires
        beginning(work),
    ensures
        ({
            let ending = play(desktop, work, results, 0, 5);
            play_task(
                desktop,
                announced(notice, notifications, work),
                results,
                0,
                Seq::empty(),
                6,
            ) == (TaskEnding {
                desktop: ending.desktop,
                result: ending.result,
                notices: if ending.result is Ok && notifications {
                    seq![notice]
                } else {
                    Seq::empty()
                },
            })
        }),
{
    reveal_with_fuel(play, 6);
    reveal_with_fuel(play_task, 7);
    assert(Seq::<Notice>::empty().push(notice) =~= seq![notice]);
    if let ProgressModel::Finished(result) = work {
        lemma_success_carries_nothing(result);
    }
    assert forall|n: nat| (#[trigger] results(n)) is Ok implies results(n) == Ok::<(), Seq<char>>(
        (),
    ) by {
        lemma_success_carries_nothing(results(n));
    }
}

proof fn lemma_success_carries_nothing(result: Result<(), Seq<char>>)
    ensures
        result is Ok ==> result == Ok::<(), Seq<char>>(()),
{
    if let Ok(nothing) = result {
        assert(nothing == ());
    }
}

/// How a stack task ended, and the notifications that it asked for on the way.
pub struct StackTaskEnding {
    pub work: StackEnding,
    pub notices: Seq<Notice>,
}

/// How a stack task ends on a desktop, if it makes at most `steps` more requests, has made `made`
/// that were neither reads nor notifications, and has asked for `notices`.
pub open spec fn play_stack_task(
    desktop: Desktop,
    step: StackStep<ProgressModel<Task<StackModel>>>,
    results: spec_fn(nat) -> Result<(), Seq<char>>,
    made: nat,
    notices: Seq<Notice>,
    steps: nat,
) -> StackTaskEnding
    decreases steps,
{
    match step.progress {
        ProgressModel::Finished(result) => StackTaskEnding {
            work: StackEnding { desktop, stack: step.stack, next_id: step.next_id, result },
            notices,
        },
        ProgressModel::Ask(task, request) => if steps == 0 {
            arbitrary()
        } else {
            let rest = (steps - 1) as nat;
            let resumed = |reply: ReplyModel|
                stack_task_resumed(task, step.stack, step.next_id, reply);
            match request {
                RequestModel::Read(selection) => play_stack_task(
                    desktop,
                    resumed(ReplyModel::Read(desktop.read(selection))),
                    results,
                    made,
                    notices,
                    rest,
                ),
                RequestModel::Notify(notice) => play_stack_task(
                    desktop,
                    resumed(ReplyModel::Notified),
                    results,
                    made,
                    notices.push(notice),
                    rest,
                ),
                _ => play_stack_task(
                    desktop.after(request, results(made)),
                    resumed(ReplyModel::Written(results(made))),
                    results,
                    made + 1,
                    notices,
                    rest,
                ),
            }
        },
    }
}

/// A stack task does and results in what its work does and results in. One notification is asked
/// for if the work succeeds and notifications are enabled, and none otherwise.
pub proof fn law_stack_success_is_announced(
    action: StackAction,
    notifications: bool,
    desktop: Desktop,
    stack: Seq<EntryModel>,
    next_id: u64,
    limits: StackLimits,
    results: spec_fn(nat) -> Result<(), Seq<char>>,
)
    ensures
        ({
            let work = stack_performed(action, desktop, stack, next_id, limits, results);
            play_stack_task(
                desktop,
                StackStep {
                    progress: announced(
                        Notice::Stack(action),
                        notifications,
                        stack_started(action, stack, limits),
                    ),
                    stack,
                    next_id,
                },
                results,
                0,
                Seq::empty(),
                5,
            ) == (StackTaskEnding {
                work,
                notices: if work.result is Ok && notifications {
                    seq![Notice::Stack(action)]
                } else {
                    Seq::empty()
                },
            })
        }),
{
    reveal_with_fuel(play_stack, 5);
    reveal_with_fuel(play_stack_task, 6);
    assert(Seq::<Notice>::empty().push(Notice::Stack(action)) =~= seq![Notice::Stack(action)]);
    assert forall|n: nat| (#[trigger] results(n)) is Ok implies results(n) == Ok::<(), Seq<char>>(
        (),
    ) by {
        lemma_success_carries_nothing(results(n));
    }
}

/// A text that was read is encoded by exactly the bytes that were received and is within the
/// limit, and every text within the limit is read as it is.
pub proof fn law_reads_are_faithful(bytes: Seq<u8>, text: Seq<char>, max_bytes: u64)
    ensures
        decoded(bytes, max_bytes) == ReadModel::Text(text) <==> encode_utf8(text) == bytes
            && byte_length(text) <= max_bytes,
{
    encode_utf8_valid_utf8(text);
    encode_utf8_decode_utf8(text);
    if valid_utf8(bytes) {
        decode_utf8_encode_utf8(bytes);
    }
}

/// Receiving one byte more than the limit is enough: what is read does not depend on how much
/// more there is.
pub proof fn law_receiving_no_more_than_needed_changes_nothing(bytes: Seq<u8>, max_bytes: u64)
    requires
        bytes.len() <= u64::MAX,
    ensures
        bytes.len() > receive_limit(max_bytes) ==> decoded(
            bytes.take(receive_limit(max_bytes)),
            max_bytes,
        ) == decoded(bytes, max_bytes),
{
}

/// A selection whose bytes are not a text, or too many, is never written back, neither by an
/// action nor through the stack.
pub proof fn law_unreadable_selections_are_never_written_back(
    bytes: Seq<u8>,
    max_bytes: u64,
    regular: ReadModel,
    stack: Seq<EntryModel>,
    next_id: u64,
    limits: StackLimits,
    results: spec_fn(nat) -> Result<(), Seq<char>>,
)
    requires
        !valid_utf8(bytes) || bytes.len() > max_bytes,
    ensures
        ({
            let desktop = Desktop { primary: decoded(bytes, max_bytes), regular };
            let mirrored = Desktop { primary: regular, regular: decoded(bytes, max_bytes) };
            let copied = performed(ClipboardAction::CopyPrimary, desktop, results);
            let copied_back = performed(ClipboardAction::CopyRegular, mirrored, results);
            let switched = performed(ClipboardAction::Switch, desktop, results);
            let switched_back = performed(ClipboardAction::Switch, mirrored, results);
            let pushed = stack_performed(
                StackAction::PushPrimary,
                desktop,
                stack,
                next_id,
                limits,
                results,
            );
            let pushed_back = stack_performed(
                StackAction::PushRegular,
                mirrored,
                stack,
                next_id,
                limits,
                results,
            );
            let popped = stack_performed(
                StackAction::PopBoth,
                desktop,
                stack,
                next_id,
                limits,
                results,
            );
            &&& copied.result is Err && copied.desktop == desktop
            &&& copied_back.result is Err && copied_back.desktop == mirrored
            &&& switched.result is Err && switched.desktop == desktop
            &&& switched_back.result is Err && switched_back.desktop == mirrored
            &&& pushed.result is Err && pushed.stack == stack && pushed.desktop == desktop
            &&& pushed_back.result is Err && pushed_back.stack == stack && pushed_back.desktop
                == mirrored
            &&& popped.result is Err && popped.stack == stack && popped.desktop == desktop
        }),
{
    reveal_with_fuel(play, 6);
    reveal_with_fuel(play_stack, 5);
}

} // verus!
