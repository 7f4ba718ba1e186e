//! What the stack is for, step by step and from start to end.
//!
//! A law that speaks of a call holds of every value that the call may return.
use crate::action::ActionState;
use crate::clipboard::{ClipboardRead, ClipboardType, CopyClipboardType, ReadModel};
use crate::clipboard_laws::refuses;
use crate::exchange::{Progress, Reply, ReplyModel, Request, RequestModel, Stage, Task};
use crate::laws::{play_stack, stack_performed, Desktop};
use crate::notification::Notice;
use crate::stack::{
    copy_entry, copy_entry_with, find_entry, following_id, perform, pop_to_both, popped, position,
    pushed, stack_task_awaits, stands_at, validate_clipboard_size, validate_entry_size, EntryIds,
    EntryModel, StackAction, StackCopyRequest, StackEntry, StackLimits, StackModel, StackState,
};
use crate::text::decimal;
use crate::transfer::{PairModel, PairProgress, PairWrite};
use vstd::prelude::*;
use vstd::utf8::*;

verus! {

/// Whether a row of entries is another one, identity by identity and character by character.
pub open spec fn same_entries(left: Seq<StackEntry>, right: Seq<StackEntry>) -> bool {
    &&& left.len() == right.len()
    &&& forall|i: int|
        #![trigger left[i]]
        #![trigger right[i]]
        0 <= i < left.len() ==> left[i].id == right[i].id && left[i].value@ == right[i].value@
}

proof fn lemma_models_tell_entries_apart(left: Seq<StackEntry>, right: Seq<StackEntry>)
    requires
        left.len() == right.len(),
        forall|i: int| 0 <= i < left.len() ==> (#[trigger] left[i])@ == right[i]@,
    ensures
        same_entries(left, right),
{
    assert forall|i: int|
        #![trigger left[i]]
        #![trigger right[i]]
        0 <= i < left.len() implies left[i].id == right[i].id && left[i].value@
        == right[i].value@ by {
        assert(left[i]@ == right[i]@);
    }
}

/// The model of an entry is its identity and its text.
pub proof fn law_entries_are_modelled_whole(entry: StackEntry, stack: Vec<StackEntry>, place: int)
    requires
        0 <= place < stack@.len(),
    ensures
        entry@ == (EntryModel { id: entry.id, value: entry.value@ }),
        stack.deep_view().len() == stack@.len(),
        stack.deep_view()[place].id == stack@[place].id,
        stack.deep_view()[place].value == stack@[place].value@,
{
}

/// Identities are given out one after the other.
pub proof fn law_identities_are_given_out_in_order(
    ids: &mut EntryIds,
    id: u64,
    more: &mut EntryIds,
    value: String,
    entry: StackEntry,
    first: EntryIds,
)
    requires
        call_ensures(EntryIds::take, (ids,), id),
        call_ensures(StackEntry::new, (more, value), entry),
        call_ensures(EntryIds::new, (), first),
    ensures
        id == old(ids).next,
        old(ids).next < u64::MAX ==> final(ids).next == old(ids).next + 1,
        old(ids).next == u64::MAX ==> final(ids).next == 0,
        entry.id == old(more).next,
        entry.value@ == value@,
        old(more).next < u64::MAX ==> final(more).next == old(more).next + 1,
        old(more).next == u64::MAX ==> final(more).next == 0,
        first.next == 1,
        following_id(old(ids).next) == final(ids).next,
{
}

/// A push puts the text on top under the next identity. What is below stays as it was, except that
/// a full stack loses its oldest entry.
pub proof fn law_what_a_push_does(
    stack: &mut Vec<StackEntry>,
    ids: &mut EntryIds,
    value: String,
    capacity: usize,
)
    requires
        capacity > 0 || old(stack)@.len() > 0,
        call_ensures(crate::stack::push, (stack, ids, value, capacity), ()),
    ensures
        final(stack)@.len() > 0,
        final(stack)@.last().value@ == value@,
        final(stack)@.last().id == old(ids).next,
        old(stack)@.len() != capacity ==> same_entries(final(stack)@.drop_last(), old(stack)@),
        old(stack)@.len() == capacity ==> same_entries(
            final(stack)@.drop_last(),
            old(stack)@.drop_first(),
        ),
        old(ids).next < u64::MAX ==> final(ids).next == old(ids).next + 1,
{
    let before = old(stack).deep_view();
    let after = final(stack).deep_view();
    let kept = if old(stack)@.len() == capacity {
        old(stack)@.drop_first()
    } else {
        old(stack)@
    };
    assert(after.len() == final(stack)@.len());
    assert(final(stack)@.last()@ == after.last());
    let above = final(stack)@.drop_last();
    assert forall|i: int| 0 <= i < kept.len() implies (#[trigger] above[i])@ == kept[i]@ by {
        assert(after[i] == final(stack)@[i]@);
        if old(stack)@.len() == capacity {
            assert(before[i + 1] == old(stack)@[i + 1]@);
        } else {
            assert(before[i] == old(stack)@[i]@);
        }
    }
    lemma_models_tell_entries_apart(above, kept);
}

/// A stack grows by one entry on top, and from the bottom only a full one shrinks.
pub proof fn law_pushing_and_popping(
    stack: Seq<EntryModel>,
    entry: EntryModel,
    capacity: nat,
)
    requires
        capacity > 0 || stack.len() > 0,
    ensures
        pushed(stack, entry, capacity).last() == entry,
        stack.len() != capacity ==> popped(pushed(stack, entry, capacity)) == stack,
        stack.len() == capacity ==> popped(pushed(stack, entry, capacity)) == stack.drop_first(),
        stack.len() > 0 ==> popped(stack) == stack.drop_last(),
        stack.len() == 0 ==> popped(stack) == stack,
{
    let after = pushed(stack, entry, capacity);
    if stack.len() == capacity {
        assert(after.drop_last() =~= stack.drop_first());
    } else {
        assert(after.drop_last() =~= stack);
    }
}

/// A text fits on the stack, or in a selection, exactly if its UTF-8 takes at most the bytes that
/// are allowed.
pub proof fn law_which_texts_fit(
    value: &str,
    max_bytes: u64,
    stacked: Result<(), String>,
    selected: Result<(), String>,
)
    requires
        call_ensures(validate_entry_size, (value, max_bytes), stacked),
        call_ensures(validate_clipboard_size, (value, max_bytes), selected),
    ensures
        stacked is Ok <==> encode_utf8(value@).len() <= max_bytes,
        selected is Ok <==> encode_utf8(value@).len() <= max_bytes,
        stacked matches Err(message) ==> message@ == "stack entry is too large ("@ + decimal(
            encode_utf8(value@).len(),
        ) + " bytes; limit is "@ + decimal(max_bytes as nat) + ")"@,
        selected matches Err(message) ==> message@
            == "stacked value is too large for the clipboard ("@ + decimal(
            encode_utf8(value@).len(),
        ) + " bytes; limit is "@ + decimal(max_bytes as nat) + ")"@,
{
}

/// Whether the first entry with an identity is the one at `place`.
pub open spec fn is_first(stack: Seq<StackEntry>, id: u64, place: int) -> bool {
    &&& 0 <= place < stack.len()
    &&& stack[place].id == id
    &&& forall|i: int| 0 <= i < place ==> (#[trigger] stack[i]).id != id
}

/// Whether no entry has an identity.
pub open spec fn is_absent(stack: Seq<StackEntry>, id: u64) -> bool {
    forall|i: int| 0 <= i < stack.len() ==> (#[trigger] stack[i]).id != id
}

/// An entry is found at the first place that holds its identity, and not found exactly if there is
/// no such place.
pub proof fn law_entries_are_found_by_identity(
    stack: Vec<StackEntry>,
    id: u64,
    found: Option<usize>,
)
    requires
        call_ensures(find_entry, (&stack, id), found),
    ensures
        found is None <==> is_absent(stack@, id),
        found matches Some(place) ==> is_first(stack@, id, place as int),
{
    if let Some(place) = found {
        assert(stack.deep_view()[place as int].id == stack@[place as int].id);
        assert forall|i: int| 0 <= i < place implies (#[trigger] stack@[i]).id != id by {
            assert(stack.deep_view()[i].id == stack@[i].id);
        }
        assert(stack@[place as int].id == id);
    }
}

/// The position of an identity is the first place that holds it.
pub proof fn law_positions(stack: Seq<EntryModel>, id: u64, place: int)
    requires
        0 <= place < stack.len(),
        stack[place].id == id,
        forall|i: int| 0 <= i < place ==> (#[trigger] stack[i]).id != id,
    ensures
        position(stack, id) == Some(place),
{
    assert(stands_at(stack, id, place));
    let chosen = choose|index: int| stands_at(stack, id, index);
    assert(stands_at(stack, id, chosen));
    if chosen < place {
        assert(stack[chosen].id != id);
    }
    if place < chosen {
        assert(stack[place].id != id);
    }
}

/// An identity that no entry has is nowhere.
pub proof fn law_absent_identities_have_no_position(stack: Seq<EntryModel>, id: u64)
    requires
        forall|i: int| 0 <= i < stack.len() ==> (#[trigger] stack[i]).id != id,
    ensures
        position(stack, id) is None,
{
}

/// Copying an entry writes the text of the first entry with the identity to the selection that was
/// asked for, if the text fits there; nothing is written for an identity that no entry has.
pub proof fn law_what_copying_an_entry_writes(
    request: StackCopyRequest,
    stack: Vec<StackEntry>,
    max_bytes: u64,
    progress: Progress<ActionState>,
    place: int,
)
    requires
        call_ensures(copy_entry_with, (request, &stack, max_bytes), progress),
    ensures
        is_absent(stack@, request.id) ==> (progress matches Progress::Finished(Err(message))
            && message@ == "stacked entry no longer exists"@),
        is_first(stack@, request.id, place) && encode_utf8(stack@[place].value@).len() > max_bytes
            ==> (progress matches Progress::Finished(Err(message)) && message@
            == "stacked value is too large for the clipboard ("@ + decimal(
            encode_utf8(stack@[place].value@).len(),
        ) + " bytes; limit is "@ + decimal(max_bytes as nat) + ")"@),
        is_first(stack@, request.id, place) && encode_utf8(stack@[place].value@).len() <= max_bytes
            ==> (progress matches Progress::Ask(state, Request::Write(selection, text)) && state
            == ActionState::Writing && text@ == stack@[place].value@ && (selection is Primary
            <==> request.destination is Primary) && (selection is Regular
            <==> request.destination is Regular)),
{
    let entries = stack.deep_view();
    if is_absent(stack@, request.id) {
        assert forall|i: int| 0 <= i < entries.len() implies (#[trigger] entries[i]).id
            != request.id by {
            assert(entries[i].id == stack@[i].id);
        }
        law_absent_identities_have_no_position(entries, request.id);
    }
    if is_first(stack@, request.id, place) {
        assert(entries[place].id == stack@[place].id);
        assert forall|i: int| 0 <= i < place implies (#[trigger] entries[i]).id != request.id by {
            assert(entries[i].id == stack@[i].id);
        }
        law_positions(entries, request.id, place);
        assert(entries[place].value == stack@[place].value@);
    }
    if let Progress::Ask(state, asked) = progress {
        lemma_requests_are_what_they_model(asked);
    }
}

proof fn lemma_requests_are_what_they_model(request: Request)
    ensures
        request@ matches RequestModel::Write(selection, text) ==> (request matches Request::Write(
            written,
            value,
        ) && written == selection && value@ == text),
        request@ matches RequestModel::Clear(selection) ==> request == Request::Clear(selection),
        request@ matches RequestModel::Read(selection) ==> request == Request::Read(selection),
        request@ matches RequestModel::Notify(notice) ==> request == Request::Notify(notice),
{
}

/// A copy that succeeds is announced as a copy to where it went.
pub proof fn law_copies_of_entries_are_announced(
    request: StackCopyRequest,
    stack: Vec<StackEntry>,
    max_bytes: u64,
    notifications: bool,
    work: Progress<ActionState>,
    progress: Progress<Task<ActionState>>,
)
    requires
        call_ensures(copy_entry_with, (request, &stack, max_bytes), work),
        call_ensures(copy_entry, (request, &stack, max_bytes, notifications), progress),
    ensures
        work is Ask ==> (progress matches Progress::Ask(task, asked) && (work matches Progress::Ask(
            _,
            wanted,
        ) && asked@ == wanted@) && task.notice == Notice::StackCopy(request.destination)
            && task.notifications == notifications && task.stage == Stage::Working(
            ActionState::Writing,
        )),
        work matches Progress::Finished(Err(error)) ==> (progress matches Progress::Finished(
            Err(message),
        ) && message@ == error@),
{
    if let Progress::Ask(task, asked) = progress {
        if let Stage::Working(state) = task.stage {
            assert(task@.stage == Stage::Working(state@));
        }
    }
}

/// A push starts with a read of its selection, a pop with a write of the top of the stack to its
/// selection, a pop to both with a read of the primary selection. A pop is refused exactly if there
/// is no entry or its text does not fit.
pub proof fn law_how_stack_actions_start(
    action: StackAction,
    stack: Vec<StackEntry>,
    limits: StackLimits,
    notifications: bool,
    progress: Progress<Task<StackState>>,
)
    requires
        call_ensures(perform, (action, &stack, limits, notifications), progress),
    ensures
        progress matches Progress::Ask(task, _) ==> task.notice == Notice::Stack(action)
            && task.notifications == notifications && task.stage is Working,
        action is PushPrimary ==> (progress matches Progress::Ask(_, request) && request
            == Request::Read(ClipboardType::Primary)),
        action is PushRegular ==> (progress matches Progress::Ask(_, request) && request
            == Request::Read(ClipboardType::Regular)),
        action is PushPrimary || action is PushRegular ==> (progress matches Progress::Ask(task, _)
            && (task.stage matches Stage::Working(state) && state == (StackState::Pushing {
            capacity: limits.capacity,
            max_entry_bytes: limits.max_entry_bytes,
        }))),
        action is PopPrimary || action is PopRegular || action is PopBoth ==> {
            &&& stack@.len() == 0 ==> (progress matches Progress::Finished(Err(message)) && message@
                == "clipboard stack is empty"@)
            &&& stack@.len() > 0 && encode_utf8(stack@.last().value@).len()
                > limits.clipboard.max_bytes ==> (progress matches Progress::Finished(Err(message))
                && message@ == "stacked value is too large for the clipboard ("@ + decimal(
                encode_utf8(stack@.last().value@).len(),
            ) + " bytes; limit is "@ + decimal(limits.clipboard.max_bytes as nat) + ")"@)
            &&& stack@.len() > 0 && encode_utf8(stack@.last().value@).len()
                <= limits.clipboard.max_bytes ==> (progress matches Progress::Ask(task, request)
                && (task.stage matches Stage::Working(state) && (match action {
                StackAction::PopPrimary => state is Popping && (request matches Request::Write(
                    CopyClipboardType::Primary,
                    text,
                ) && text@ == stack@.last().value@),
                StackAction::PopRegular => state is Popping && (request matches Request::Write(
                    CopyClipboardType::Regular,
                    text,
                ) && text@ == stack@.last().value@),
                _ => request == Request::Read(ClipboardType::Primary) && (
                state matches StackState::Preparing { value } && value@ == stack@.last().value@),
            })))
        },
{
    if stack@.len() > 0 {
        assert(stack.deep_view().last() == stack@.last()@);
    }
    if let Progress::Ask(task, asked) = progress {
        lemma_requests_are_what_they_model(asked);
        if let Stage::Working(state) = task.stage {
            assert(task@.stage == Stage::Working(state@));
        }
    }
}

/// Popping to both selections on its own starts in the same way.
pub proof fn law_how_popping_to_both_starts(
    stack: Vec<StackEntry>,
    max_bytes: u64,
    progress: Progress<StackState>,
)
    requires
        call_ensures(pop_to_both, (&stack, max_bytes), progress),
    ensures
        progress is Ask <==> stack@.len() > 0 && encode_utf8(stack@.last().value@).len()
            <= max_bytes,
        progress matches Progress::Ask(state, request) ==> request == Request::Read(
            ClipboardType::Primary,
        ) && (state matches StackState::Preparing { value } && value@ == stack@.last().value@),
        stack@.len() == 0 ==> (progress matches Progress::Finished(Err(message)) && message@
            == "clipboard stack is empty"@),
{
    if stack@.len() > 0 {
        assert(stack.deep_view().last() == stack@.last()@);
    }
    if let Progress::Ask(state, asked) = progress {
        lemma_requests_are_what_they_model(asked);
    }
}

/// A push succeeds exactly if the selection was read as a text that is not empty and takes at most
/// the bytes that are allowed. The text is then on top of the stack; otherwise the stack stays as
/// it was and the refusal is that of the read.
pub proof fn law_which_reads_are_pushed(
    capacity: usize,
    max_entry_bytes: u64,
    stack: &mut Vec<StackEntry>,
    ids: &mut EntryIds,
    read: ClipboardRead,
    progress: Progress<StackState>,
)
    requires
        capacity > 0 || old(stack)@.len() > 0,
        call_ensures(
            StackState::resume,
            (StackState::Pushing { capacity, max_entry_bytes }, stack, ids, Reply::Read(read)),
            progress,
        ),
    ensures
        progress is Finished,
        progress matches Progress::Finished(Ok(_)) <==> (read matches ClipboardRead::Text(text)
            && text@.len() > 0 && encode_utf8(text@).len() <= max_entry_bytes),
        progress matches Progress::Finished(Ok(_)) ==> {
            &&& final(stack)@.len() > 0
            &&& read matches ClipboardRead::Text(text) ==> final(stack)@.last().value@ == text@
            &&& final(stack)@.last().id == old(ids).next
            &&& old(stack)@.len() != capacity ==> same_entries(
                final(stack)@.drop_last(),
                old(stack)@,
            )
            &&& old(stack)@.len() == capacity ==> same_entries(
                final(stack)@.drop_last(),
                old(stack)@.drop_first(),
            )
            &&& old(ids).next < u64::MAX ==> final(ids).next == old(ids).next + 1
            &&& old(ids).next == u64::MAX ==> final(ids).next == 0
        },
        progress matches Progress::Finished(Err(message)) ==> {
            &&& same_entries(final(stack)@, old(stack)@)
            &&& final(ids).next == old(ids).next
            &&& !(read is Text) ==> refuses(read, "source"@, message@)
            &&& read matches ClipboardRead::Text(text) ==> message@ == if text@.len() == 0 {
                "source"@ + " clipboard is empty"@
            } else {
                "stack entry is too large ("@ + decimal(encode_utf8(text@).len())
                    + " bytes; limit is "@ + decimal(max_entry_bytes as nat) + ")"@
            }
        },
{
    let before = old(stack).deep_view();
    let after = final(stack).deep_view();
    assert(after.len() == final(stack)@.len());
    assert(before.len() == old(stack)@.len());
    if let Progress::Finished(Ok(_)) = progress {
        let kept = if old(stack)@.len() == capacity {
            old(stack)@.drop_first()
        } else {
            old(stack)@
        };
        assert(final(stack)@.last()@ == after.last());
        let above = final(stack)@.drop_last();
        assert forall|i: int| 0 <= i < kept.len() implies (#[trigger] above[i])@ == kept[i]@ by {
            assert(after[i] == final(stack)@[i]@);
            if old(stack)@.len() == capacity {
                assert(before[i + 1] == old(stack)@[i + 1]@);
            } else {
                assert(before[i] == old(stack)@[i]@);
            }
        }
        lemma_models_tell_entries_apart(above, kept);
    } else {
        lemma_equal_models_are_equal_stacks(*old(stack), *final(stack));
    }
}

proof fn lemma_equal_models_are_equal_stacks(left: Vec<StackEntry>, right: Vec<StackEntry>)
    ensures
        left.deep_view() == right.deep_view() ==> same_entries(right@, left@),
        left.deep_view().len() > 0 && right.deep_view() == left.deep_view().drop_last()
            ==> same_entries(right@, left@.drop_last()),
{
    if left.deep_view() == right.deep_view() {
        assert(left.deep_view().len() == left@.len() && right.deep_view().len() == right@.len());
        assert forall|i: int| 0 <= i < right@.len() implies (#[trigger] right@[i])@ == left@[i]@ by {
            assert(right.deep_view()[i] == right@[i]@);
            assert(left.deep_view()[i] == left@[i]@);
        }
        lemma_models_tell_entries_apart(right@, left@);
    }
    if left.deep_view().len() > 0 && right.deep_view() == left.deep_view().drop_last() {
        assert(left.deep_view().len() == left@.len() && right.deep_view().len() == right@.len());
        assert forall|i: int| 0 <= i < right@.len() implies (#[trigger] right@[i])@
            == left@.drop_last()[i]@ by {
            assert(right.deep_view()[i] == right@[i]@);
            assert(left.deep_view()[i] == left@[i]@);
        }
        lemma_models_tell_entries_apart(right@, left@.drop_last());
    }
}

/// A pop takes the top entry from the stack exactly if the write succeeded, and ends as the write
/// did.
pub proof fn law_an_entry_leaves_after_its_write(
    stack: &mut Vec<StackEntry>,
    ids: &mut EntryIds,
    result: Result<(), String>,
    progress: Progress<StackState>,
)
    requires
        call_ensures(
            StackState::resume,
            (StackState::Popping, stack, ids, Reply::Written(result)),
            progress,
        ),
    ensures
        progress matches Progress::Finished(ended) && (ended is Ok <==> result is Ok) && (
        result matches Err(error) ==> (ended matches Err(message) && message@ == error@)),
        result is Ok && old(stack)@.len() > 0 ==> same_entries(
            final(stack)@,
            old(stack)@.drop_last(),
        ),
        result is Err || old(stack)@.len() == 0 ==> same_entries(final(stack)@, old(stack)@),
        final(ids).next == old(ids).next,
{
    assert(old(stack).deep_view().len() == old(stack)@.len());
    lemma_equal_models_are_equal_stacks(*old(stack), *final(stack));
}

/// Before a text goes to both selections, the primary one must have been read as a text or as
/// empty, so that it can be restored; the text then goes to the primary one first.
pub proof fn law_the_primary_selection_must_be_restorable(
    value: String,
    stack: &mut Vec<StackEntry>,
    ids: &mut EntryIds,
    read: ClipboardRead,
    progress: Progress<StackState>,
)
    requires
        call_ensures(
            StackState::resume,
            (StackState::Preparing { value }, stack, ids, Reply::Read(read)),
            progress,
        ),
    ensures
        progress is Ask <==> read is Text || read is Empty,
        progress matches Progress::Ask(state, request) ==> {
            &&& request matches Request::Write(selection, text) && selection is Primary && text@
                == value@
            &&& state matches StackState::PoppingBoth(
                PairWrite::Primary { regular, original_primary },
            ) && (regular matches Some(text) && text@ == value@) && (
            read matches ClipboardRead::Text(text) ==> (original_primary matches Some(kept)
                && kept@ == text@)) && (read is Empty ==> original_primary is None)
        },
        progress matches Progress::Finished(ended) ==> (ended matches Err(message) && (match read {
            ClipboardRead::NonText => message@
                == "cannot safely pop to both when the primary clipboard is non-text"@,
            ClipboardRead::Unsupported => message@
                == "cannot safely pop to both when the primary clipboard is unsupported"@,
            ClipboardRead::Oversized { limit } => message@
                == "cannot safely pop to both when the primary clipboard exceeds the configured "@
                + decimal(limit as nat) + "-byte limit"@,
            ClipboardRead::Error(error) => message@ == "could not read primary clipboard: "@
                + error@,
            _ => false,
        })),
        same_entries(final(stack)@, old(stack)@),
        final(ids).next == old(ids).next,
{
    lemma_equal_models_are_equal_stacks(*old(stack), *final(stack));
    if let Progress::Ask(state, request) = progress {
        lemma_requests_are_what_they_model(request);
        if let StackState::PoppingBoth(writes) = state {
            if let PairWrite::Primary { regular, original_primary } = writes {
                assert(writes@ == (PairModel::Primary {
                    regular: regular.deep_view(),
                    original_primary: original_primary.deep_view(),
                }));
            }
        }
    }
}

/// While both selections are written, the entry stays on the stack until both writes have
/// succeeded.
pub proof fn law_an_entry_leaves_after_both_writes(
    stack: &mut Vec<StackEntry>,
    ids: &mut EntryIds,
    writes: PairWrite<Option<String>>,
    result: Result<(), String>,
    progress: Progress<StackState>,
)
    requires
        call_ensures(
            StackState::resume,
            (StackState::PoppingBoth(writes), stack, ids, Reply::Written(result)),
            progress,
        ),
    ensures
        progress matches Progress::Finished(Ok(_)) <==> writes is Regular && result is Ok,
        progress matches Progress::Finished(Ok(_)) ==> (old(stack)@.len() > 0 ==> same_entries(
            final(stack)@,
            old(stack)@.drop_last(),
        )),
        !(writes is Regular && result is Ok) ==> same_entries(final(stack)@, old(stack)@),
        writes is Primary && result is Ok ==> (progress matches Progress::Ask(_, request) && (
        request matches Request::Write(CopyClipboardType::Regular, _) || request
            == Request::Clear(CopyClipboardType::Regular))),
        writes is Regular && result is Err ==> (progress matches Progress::Ask(_, request) && (
        request matches Request::Write(CopyClipboardType::Primary, _) || request
            == Request::Clear(CopyClipboardType::Primary))),
        writes matches PairWrite::Primary { regular: Some(text), .. } ==> (result is Ok ==> (
        progress matches Progress::Ask(_, Request::Write(_, written)) && written@ == text@)),
        writes matches PairWrite::Regular { original_primary: Some(text) } ==> (result is Err ==> (
        progress matches Progress::Ask(_, Request::Write(_, written)) && written@ == text@)),
        writes matches PairWrite::Regular { original_primary: None } ==> (result is Err ==> (
        progress matches Progress::Ask(_, Request::Clear(_)))),
        final(ids).next == old(ids).next,
{
    assert(old(stack).deep_view().len() == old(stack)@.len());
    lemma_equal_models_are_equal_stacks(*old(stack), *final(stack));
    if let Progress::Ask(state, request) = progress {
        lemma_requests_are_what_they_model(request);
    }
    match writes {
        PairWrite::Primary { regular: Some(text), .. } => {
            assert(Some(text).deep_view() == Some(text@));
        },
        PairWrite::Regular { original_primary: Some(text) } => {
            assert(Some(text).deep_view() == Some(text@));
        },
        _ => {},
    }
}

/// A stack task goes on as its work does; once the work has succeeded, its own notice is sent,
/// exactly if notifications are enabled.
pub proof fn law_how_stack_tasks_go_on(
    task: Task<StackState>,
    stack: &mut Vec<StackEntry>,
    ids: &mut EntryIds,
    reply: Reply,
    progress: Progress<Task<StackState>>,
    state: StackState,
    other: &mut Vec<StackEntry>,
    more: &mut EntryIds,
    work: Progress<StackState>,
)
    requires
        task.stage == Stage::Working(state),
        old(other).deep_view() == old(stack).deep_view(),
        old(more).next == old(ids).next,
        call_ensures(Task::<StackState>::resume, (task, stack, ids, reply), progress),
        call_ensures(StackState::resume, (state, other, more, reply), work),
    ensures
        same_entries(final(other)@, final(stack)@),
        final(more).next == final(ids).next,
        work matches Progress::Ask(next, asked) ==> (progress matches Progress::Ask(kept, request)
            && request@ == asked@ && kept.notice == task.notice && kept.notifications
            == task.notifications && (kept.stage matches Stage::Working(now) && now@ == next@)),
        work matches Progress::Finished(Ok(_)) ==> if task.notifications {
            progress matches Progress::Ask(kept, request) && request == Request::Notify(task.notice)
                && kept.stage is Announcing
        } else {
            progress matches Progress::Finished(Ok(_))
        },
        work matches Progress::Finished(Err(error)) ==> (progress matches Progress::Finished(
            Err(message),
        ) && message@ == error@),
{
    lemma_equal_models_are_equal_stacks(*final(stack), *final(other));
    if let Progress::Ask(kept, request) = progress {
        lemma_requests_are_what_they_model(request);
        if let Stage::Working(state) = kept.stage {
            assert(kept@.stage == Stage::Working(state@));
        }
    }
}

/// A stack task accepts exactly the replies of the kind that it waits for.
pub proof fn law_which_stack_replies_are_accepted(
    state: StackState,
    task: Task<StackState>,
    reply: Reply,
    accepted: bool,
    taken: bool,
)
    requires
        call_ensures(StackState::accepts, (&state, &reply), accepted),
        call_ensures(Task::<StackState>::accepts, (&task, &reply), taken),
    ensures
        state is Pushing || state is Preparing ==> (accepted <==> reply is Read),
        state is Popping || state is PoppingBoth ==> (accepted <==> reply is Written),
        task.stage is Announcing ==> (taken <==> reply is Notified),
        task.stage == Stage::Working(state) ==> (taken <==> accepted),
        taken <==> stack_task_awaits(task@, reply@),
{
}

/// A push from start to end: it succeeds exactly if the selection holds a text that is not empty
/// and takes at most the bytes that are allowed; that text is then on top.
pub proof fn law_pushes_in_full(
    action: StackAction,
    desktop: Desktop,
    stack: Seq<EntryModel>,
    next_id: u64,
    limits: StackLimits,
    results: spec_fn(nat) -> Result<(), Seq<char>>,
)
    requires
        action is PushPrimary || action is PushRegular,
        limits.capacity > 0 || stack.len() > 0,
    ensures
        ({
            let ending = stack_performed(action, desktop, stack, next_id, limits, results);
            let read = if action is PushPrimary {
                desktop.primary
            } else {
                desktop.regular
            };
            &&& ending.desktop == desktop
            &&& ending.result is Ok <==> (read matches ReadModel::Text(text) && text.len() > 0
                && encode_utf8(text).len() <= limits.max_entry_bytes)
            &&& ending.result is Ok ==> ending.stack.len() > 0 && ReadModel::Text(
                ending.stack.last().value,
            ) == read && ending.stack.last().id == next_id && ending.stack.drop_last()
                == if stack.len() == limits.capacity {
                stack.drop_first()
            } else {
                stack
            }
            &&& ending.result is Ok ==> ending.next_id == if next_id == u64::MAX {
                0
            } else {
                next_id + 1
            }
            &&& ending.result is Err ==> ending.stack == stack && ending.next_id == next_id
        }),
{
    reveal_with_fuel(play_stack, 5);
    let ending = stack_performed(action, desktop, stack, next_id, limits, results);
    if ending.result is Ok {
        assert(ending.stack.drop_last() =~= if stack.len() == limits.capacity {
            stack.drop_first()
        } else {
            stack
        });
    }
}

/// A pop to one selection from start to end: the text on top goes to that selection and leaves the
/// stack, exactly if there is one, it fits and the write succeeds.
pub proof fn law_pops_in_full(
    action: StackAction,
    desktop: Desktop,
    stack: Seq<EntryModel>,
    next_id: u64,
    limits: StackLimits,
    results: spec_fn(nat) -> Result<(), Seq<char>>,
)
    requires
        action is PopPrimary || action is PopRegular,
    ensures
        ({
            let ending = stack_performed(action, desktop, stack, next_id, limits, results);
            let fits = stack.len() > 0 && encode_utf8(stack.last().value).len()
                <= limits.clipboard.max_bytes;
            &&& ending.result is Ok <==> fits && results(0) is Ok
            &&& ending.result is Ok ==> ending.stack == stack.drop_last()
            &&& ending.result is Ok && action is PopPrimary ==> ending.desktop == (Desktop {
                primary: ReadModel::Text(stack.last().value),
                regular: desktop.regular,
            })
            &&& ending.result is Ok && action is PopRegular ==> ending.desktop == (Desktop {
                primary: desktop.primary,
                regular: ReadModel::Text(stack.last().value),
            })
            &&& ending.result is Err ==> ending.stack == stack && ending.desktop == desktop
            &&& ending.next_id == next_id
            &&& fits ==> ending.result == results(0)
            &&& stack.len() == 0 ==> ending.result == Err::<(), Seq<char>>(
                "clipboard stack is empty"@,
            )
        }),
{
    reveal_with_fuel(play_stack, 5);
}

/// A pop to both selections from start to end, for every way in which the read and the writes may
/// go.
pub proof fn law_pops_to_both_in_full(
    desktop: Desktop,
    stack: Seq<EntryModel>,
    next_id: u64,
    limits: StackLimits,
    results: spec_fn(nat) -> Result<(), Seq<char>>,
)
    ensures
        ({
            let ending = stack_performed(
                StackAction::PopBoth,
                desktop,
                stack,
                next_id,
                limits,
                results,
            );
            let fits = stack.len() > 0 && encode_utf8(stack.last().value).len()
                <= limits.clipboard.max_bytes;
            let safe = desktop.primary is Text || desktop.primary is Empty;
            &&& ending.result is Ok <==> fits && safe && results(0) is Ok && results(1) is Ok
            &&& ending.result is Ok ==> ending.stack == stack.drop_last()
                && ending.desktop.primary == ReadModel::Text(stack.last().value)
                && ending.desktop.regular == ReadModel::Text(stack.last().value)
            &&& ending.result is Err ==> ending.stack == stack && ending.desktop.regular
                == desktop.regular
            &&& ending.next_id == next_id
            &&& !fits || !safe ==> ending.desktop == desktop
            &&& fits && safe ==> (match (results(0), results(1), results(2)) {
                (Err(error), _, _) => ending.desktop == desktop && ending.result == Err::<
                    (),
                    Seq<char>,
                >("could not write primary clipboard: "@ + error),
                (Ok(_), Err(error), Ok(_)) => ending.desktop == desktop && ending.result == Err::<
                    (),
                    Seq<char>,
                >("could not write regular clipboard: "@ + error + "; primary clipboard restored"@),
                (Ok(_), Err(error), Err(rollback)) => ending.desktop.primary == ReadModel::Text(
                    stack.last().value,
                ) && ending.result == Err::<(), Seq<char>>(
                    "could not write regular clipboard: "@ + error
                        + "; could not restore primary clipboard: "@ + rollback,
                ),
                _ => true,
            })
        }),
{
    reveal_with_fuel(play_stack, 5);
}

/// A stack action waits for a read or for a write, and room is only wanting where a text would be
/// pushed on a stack that may hold nothing.
pub proof fn law_what_stack_actions_wait_for(
    state: StackModel,
    stack: Seq<EntryModel>,
    reply: ReplyModel,
)
    ensures
        state is Pushing || state is Preparing ==> (state.awaits(reply) <==> reply is Read),
        state is Popping || state is PoppingBoth ==> (state.awaits(reply) <==> reply is Written),
        stack.len() > 0 ==> state.has_room(stack, reply),
        !(state is Pushing) ==> state.has_room(stack, reply),
        state matches StackModel::Pushing { capacity, .. } ==> (capacity > 0 ==> state.has_room(
            stack,
            reply,
        )),
        reply matches ReplyModel::Read(read) ==> (!(read matches ReadModel::Text(text) && text.len()
            > 0) ==> state.has_room(stack, reply)),
        state matches StackModel::Pushing { max_entry_bytes, .. } ==> (
        reply matches ReplyModel::Read(ReadModel::Text(text)) ==> (encode_utf8(text).len()
            > max_entry_bytes ==> state.has_room(stack, reply))),
{
}

/// A pop to both selections that is being written goes on as the write to both selections does,
/// and ends as it ends.
pub proof fn law_how_pops_to_both_are_written(
    writes: PairWrite<Option<String>>,
    stack: &mut Vec<StackEntry>,
    ids: &mut EntryIds,
    result: Result<(), String>,
    pair: PairProgress<Option<String>>,
    progress: Progress<StackState>,
)
    requires
        call_ensures(PairWrite::<Option<String>>::resume, (writes, result), pair),
        call_ensures(
            StackState::resume,
            (StackState::PoppingBoth(writes), stack, ids, Reply::Written(result)),
            progress,
        ),
    ensures
        pair matches PairProgress::Write(next, selection, Some(text)) ==> (
        progress matches Progress::Ask(
            StackState::PoppingBoth(kept),
            Request::Write(written, value),
        ) && kept@ == next@ && written == selection && value@ == text@),
        pair matches PairProgress::Write(next, selection, None) ==> (
        progress matches Progress::Ask(StackState::PoppingBoth(kept), Request::Clear(cleared))
            && kept@ == next@ && cleared == selection),
        pair matches PairProgress::Finished(Ok(_)) ==> progress matches Progress::Finished(Ok(_)),
        pair matches PairProgress::Finished(Err(error)) ==> (progress matches Progress::Finished(
            Err(message),
        ) && message@ == error@),
{
    if let Progress::Ask(state, request) = progress {
        lemma_requests_are_what_they_model(request);
    }
    if let PairProgress::Write(next, selection, Some(text)) = pair {
        assert(Some(text).deep_view() == Some(text@));
    }
}

/// A stack task that has announced its success ends with it and leaves the stack alone.
pub proof fn law_announced_stack_tasks_end(
    task: Task<StackState>,
    stack: &mut Vec<StackEntry>,
    ids: &mut EntryIds,
    progress: Progress<Task<StackState>>,
)
    requires
        task.stage is Announcing,
        call_ensures(Task::<StackState>::resume, (task, stack, ids, Reply::Notified), progress),
    ensures
        progress matches Progress::Finished(Ok(_)),
        same_entries(final(stack)@, old(stack)@),
        final(ids).next == old(ids).next,
{
    lemma_equal_models_are_equal_stacks(*old(stack), *final(stack));
}

} // verus!
