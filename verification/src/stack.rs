//! The stack of texts that the two selections share.
use crate::action::{ActionModel, ActionState};
use crate::clipboard::{ClipboardRead, ClipboardType, CopyClipboardType, ReadLimits, ReadModel};
use crate::exchange::{
    announce, announced, Progress, ProgressModel, Reply, ReplyModel, Request, RequestModel,
    Stage, Task,
};
use crate::notification::Notice;
use crate::text::{byte_count, byte_length, decimal, decimal_text, join2, join3, join4};
use crate::transfer::{
    pair_started, pair_written, placement, write_both_with_rollback, write_optional, PairModel,
    PairProgress, PairProgressModel, PairWrite,
};
use vstd::prelude::*;
use vstd::string::*;

verus! {

/// What a menu item does with the stack.
#[derive(Clone, Copy, Debug, PartialEq, Eq, Structural)]
pub enum StackAction {
    PushPrimary,
    PushRegular,
    PopPrimary,
    PopRegular,
    PopBoth,
}

/// The selection that a stacked entry is copied to.
#[derive(Clone, Copy, Debug, PartialEq, Eq, Structural)]
pub enum StackCopyDestination {
    Primary,
    Regular,
}

/// A stacked entry and where to copy it.
#[derive(Clone, Copy, Debug, PartialEq, Eq, Structural)]
pub struct StackCopyRequest {
    pub id: u64,
    pub destination: StackCopyDestination,
}

/// A stacked text with an identity of its own.
#[derive(Debug, PartialEq, Eq)]
pub struct StackEntry {
    pub id: u64,
    pub value: String,
}

/// A stacked entry, with its text as a character sequence.
pub struct EntryModel {
    pub id: u64,
    pub value: Seq<char>,
}

impl View for StackEntry {
    type V = EntryModel;

    open spec fn view(&self) -> EntryModel {
        EntryModel { id: self.id, value: self.value@ }
    }
}

impl DeepView for StackEntry {
    type V = EntryModel;

    open spec fn deep_view(&self) -> EntryModel {
        self@
    }
}

impl Clone for StackEntry {
    fn clone(&self) -> (copy: Self)
        ensures
            copy == *self,
    {
        StackEntry { id: self.id, value: self.value.clone() }
    }
}

/// Bounds on the stack and on the selections that it exchanges texts with.
#[derive(Clone, Copy, Debug, PartialEq, Eq, Structural)]
pub struct StackLimits {
    pub capacity: usize,
    pub clipboard: ReadLimits,
    pub max_entry_bytes: u64,
}

/// The identities that are still to be given out.
#[derive(Debug, PartialEq, Eq)]
pub struct EntryIds {
    pub next: u64,
}

/// The identity that follows one.
pub open spec fn following_id(id: u64) -> u64 {
    if id == u64::MAX {
        0
    } else {
        (id + 1) as u64
    }
}

impl EntryIds {
    /// The identities of a fresh process; they start with 1.
    pub fn new() -> (ids: Self)
        ensures
            ids.next == 1,
    {
        EntryIds { next: 1 }
    }

    /// Gives out the next identity.
    pub fn take(&mut self) -> (id: u64)
        ensures
            id == old(self).next,
            final(self).next == following_id(old(self).next),
    {
        let id: u64 = self.next;
        self.next = if id == u64::MAX {
            0
        } else {
            id + 1
        };
        id
    }
}

impl StackEntry {
    /// An entry that holds `value` under a fresh identity.
    pub fn new(ids: &mut EntryIds, value: String) -> (entry: Self)
        ensures
            entry.value == value,
            entry.id == old(ids).next,
            final(ids).next == following_id(old(ids).next),
    {
        StackEntry { id: ids.take(), value }
    }
}

/// A stack with one more entry on top; a stack that is as large as it may be loses its oldest
/// entry first.
pub open spec fn pushed(stack: Seq<EntryModel>, entry: EntryModel, capacity: nat) -> Seq<
    EntryModel,
> {
    if stack.len() == capacity {
        stack.drop_first().push(entry)
    } else {
        stack.push(entry)
    }
}

/// Pushes `value` on the stack under a fresh identity.
pub fn push(stack: &mut Vec<StackEntry>, ids: &mut EntryIds, value: String, capacity: usize)
    requires
        capacity > 0 || old(stack)@.len() > 0,
    ensures
        final(stack).deep_view() == pushed(
            old(stack).deep_view(),
            EntryModel { id: old(ids).next, value: value@ },
            capacity as nat,
        ),
        final(ids).next == following_id(old(ids).next),
{
    if stack.len() == capacity {
        stack.remove(0);
    }
    stack.push(StackEntry::new(ids, value));
    assert(stack.deep_view() =~= pushed(
        old(stack).deep_view(),
        EntryModel { id: old(ids).next, value: value@ },
        capacity as nat,
    ));
}

/// Why a text is too large to be stacked.
pub open spec fn entry_too_large(length: nat, max_bytes: u64) -> Seq<char> {
    "stack entry is too large ("@ + decimal(length) + " bytes; limit is "@ + decimal(
        max_bytes as nat,
    ) + ")"@
}

/// Why a stacked text is too large for a selection.
pub open spec fn value_too_large(length: nat, max_bytes: u64) -> Seq<char> {
    "stacked value is too large for the clipboard ("@ + decimal(length) + " bytes; limit is "@
        + decimal(max_bytes as nat) + ")"@
}

/// Accepts a text that may be stacked: one of at most `max_bytes` bytes.
pub fn validate_entry_size(value: &str, max_bytes: u64) -> (result: Result<(), String>)
    ensures
        result is Ok <==> byte_length(value@) <= max_bytes,
        result matches Err(message) ==> message@ == entry_too_large(byte_length(value@), max_bytes),
{
    let length: usize = byte_count(value);
    if length as u64 > max_bytes {
        let mut message = join4(
            "stack entry is too large (",
            decimal_text(length as u128).as_str(),
            " bytes; limit is ",
            decimal_text(max_bytes as u128).as_str(),
        );
        message.append(")");
        return Err(message);
    }
    Ok(())
}

/// Accepts a stacked text that may be written to a selection: one of at most `max_bytes` bytes.
pub fn validate_clipboard_size(value: &str, max_bytes: u64) -> (result: Result<(), String>)
    ensures
        result is Ok <==> byte_length(value@) <= max_bytes,
        result matches Err(message) ==> message@ == value_too_large(byte_length(value@), max_bytes),
{
    let length: usize = byte_count(value);
    if length as u64 > max_bytes {
        let mut message = join4(
            "stacked value is too large for the clipboard (",
            decimal_text(length as u128).as_str(),
            " bytes; limit is ",
            decimal_text(max_bytes as u128).as_str(),
        );
        message.append(")");
        return Err(message);
    }
    Ok(())
}

/// Whether `index` is where the entry with an identity stands: the first place that holds it.
pub open spec fn stands_at(stack: Seq<EntryModel>, id: u64, index: int) -> bool {
    &&& 0 <= index < stack.len()
    &&& stack[index].id == id
    &&& forall|i: int| 0 <= i < index ==> (#[trigger] stack[i]).id != id
}

/// Where the entry with an identity stands, if the stack holds one.
pub open spec fn position(stack: Seq<EntryModel>, id: u64) -> Option<int> {
    if exists|index: int| stands_at(stack, id, index) {
        Some(choose|index: int| stands_at(stack, id, index))
    } else {
        None
    }
}

/// Finds the entry with the identity `id`.
pub fn find_entry(stack: &Vec<StackEntry>, id: u64) -> (found: Option<usize>)
    ensures
        match found {
            Some(index) => position(stack.deep_view(), id) == Some(index as int) && stands_at(
                stack.deep_view(),
                id,
                index as int,
            ),
            None => position(stack.deep_view(), id) is None && forall|i: int|
                0 <= i < stack@.len() ==> (#[trigger] stack@[i]).id != id,
        },
{
    let mut index: usize = 0;
    while index < stack.len()
        invariant
            index <= stack.len(),
            forall|i: int| 0 <= i < index ==> (#[trigger] stack@[i]).id != id,
        decreases stack.len() - index,
    {
        if stack[index].id == id {
            proof {
                let entries = stack.deep_view();
                assert(stands_at(entries, id, index as int));
                let chosen = choose|index: int| stands_at(entries, id, index);
                assert(stands_at(entries, id, chosen));
                if chosen < index {
                    assert(entries[chosen].id == stack@[chosen].id);
                }
            }
            return Some(index);
        }
        index += 1;
    }
    proof {
        assert forall|i: int| !stands_at(stack.deep_view(), id, i) by {
            if 0 <= i < stack@.len() {
                assert(stack.deep_view()[i].id == stack@[i].id);
            }
        }
    }
    None
}

/// The selection that a copy of a stacked entry goes to.
pub open spec fn copy_selection(destination: StackCopyDestination) -> CopyClipboardType {
    match destination {
        StackCopyDestination::Primary => CopyClipboardType::Primary,
        StackCopyDestination::Regular => CopyClipboardType::Regular,
    }
}

/// The first step of copying a stacked entry to a selection.
pub open spec fn entry_copied(
    request: StackCopyRequest,
    stack: Seq<EntryModel>,
    max_clipboard_bytes: u64,
) -> ProgressModel<ActionModel> {
    match position(stack, request.id) {
        None => ProgressModel::Finished(Err("stacked entry no longer exists"@)),
        Some(index) => if byte_length(stack[index].value) > max_clipboard_bytes {
            ProgressModel::Finished(
                Err(value_too_large(byte_length(stack[index].value), max_clipboard_bytes)),
            )
        } else {
            ProgressModel::Ask(
                ActionModel::Writing,
                RequestModel::Write(copy_selection(request.destination), stack[index].value),
            )
        },
    }
}

/// Starts to copy a stacked entry to a selection. The stack stays as it is.
pub fn copy_entry_with(
    request: StackCopyRequest,
    stack: &Vec<StackEntry>,
    max_clipboard_bytes: u64,
) -> (progress: Progress<ActionState>)
    ensures
        progress@ == entry_copied(request, stack.deep_view(), max_clipboard_bytes),
{
    let index = match find_entry(stack, request.id) {
        Some(index) => index,
        None => {
            return Progress::Finished(Err("stacked entry no longer exists".to_owned()));
        },
    };
    let value = stack[index].value.clone();
    assert(stack.deep_view()[index as int].value == value@);
    if let Err(message) = validate_clipboard_size(value.as_str(), max_clipboard_bytes) {
        return Progress::Finished(Err(message));
    }
    let selection = match request.destination {
        StackCopyDestination::Primary => CopyClipboardType::Primary,
        StackCopyDestination::Regular => CopyClipboardType::Regular,
    };
    Progress::Ask(ActionState::Writing, Request::Write(selection, value))
}

/// Starts to copy a stacked entry to a selection; success is to be reported.
pub fn copy_entry(
    request: StackCopyRequest,
    stack: &Vec<StackEntry>,
    max_clipboard_bytes: u64,
    notifications: bool,
) -> (progress: Progress<Task<ActionState>>)
    ensures
        progress@ == announced(
            Notice::StackCopy(request.destination),
            notifications,
            entry_copied(request, stack.deep_view(), max_clipboard_bytes),
        ),
{
    announce(
        Notice::StackCopy(request.destination),
        notifications,
        copy_entry_with(request, stack, max_clipboard_bytes),
    )
}

/// Where a stack action stands.
#[derive(Debug, PartialEq, Eq)]
pub enum StackState {
    /// A selection is being read, to be pushed.
    Pushing { capacity: usize, max_entry_bytes: u64 },
    /// The top of the stack is being written to one selection.
    Popping,
    /// The primary selection is being read, so that it can be restored.
    Preparing { value: String },
    /// The top of the stack is being written to both selections.
    PoppingBoth(PairWrite<Option<String>>),
}

/// A stack action under way, with texts as character sequences.
pub enum StackModel {
    Pushing { capacity: usize, max_entry_bytes: u64 },
    Popping,
    Preparing { value: Seq<char> },
    PoppingBoth(PairModel<Option<Seq<char>>>),
}

impl View for StackState {
    type V = StackModel;

    open spec fn view(&self) -> StackModel {
        match self {
            StackState::Pushing { capacity, max_entry_bytes } => StackModel::Pushing {
                capacity: *capacity,
                max_entry_bytes: *max_entry_bytes,
            },
            StackState::Popping => StackModel::Popping,
            StackState::Preparing { value } => StackModel::Preparing { value: value@ },
            StackState::PoppingBoth(writes) => StackModel::PoppingBoth(writes@),
        }
    }
}

/// The text that a read gives to push: a text that is not empty and not too large.
pub open spec fn pushable(read: ReadModel, max_entry_bytes: u64) -> Result<Seq<char>, Seq<char>> {
    match read {
        ReadModel::Text(value) => if value.len() == 0 {
            Err(ReadModel::Empty.refusal("source"@))
        } else if byte_length(value) > max_entry_bytes {
            Err(entry_too_large(byte_length(value), max_entry_bytes))
        } else {
            Ok(value)
        },
        _ => Err(read.refusal("source"@)),
    }
}

fn pushable_text(read: ClipboardRead, max_entry_bytes: u64) -> (result: Result<String, String>)
    ensures
        match pushable(read@, max_entry_bytes) {
            Ok(text) => result matches Ok(value) && value@ == text,
            Err(message) => result matches Err(error) && error@ == message,
        },
{
    let value = match read {
        ClipboardRead::Text(value) => if value.as_str().is_empty() {
            return ClipboardRead::Empty.into_text("source");
        } else {
            value
        },
        other => return other.into_text("source"),
    };
    match validate_entry_size(value.as_str(), max_entry_bytes) {
        Ok(()) => Ok(value),
        Err(message) => Err(message),
    }
}

/// What the primary selection is restored to if both selections cannot be written; only a text
/// and an empty selection can be restored.
pub open spec fn restorable(read: ReadModel) -> Result<Option<Seq<char>>, Seq<char>> {
    match read {
        ReadModel::Text(value) => Ok(Some(value)),
        ReadModel::Empty => Ok(None),
        ReadModel::NonText => Err(
            "cannot safely pop to both when the primary clipboard is non-text"@,
        ),
        ReadModel::Unsupported => Err(
            "cannot safely pop to both when the primary clipboard is unsupported"@,
        ),
        ReadModel::Oversized { limit } => Err(
            "cannot safely pop to both when the primary clipboard exceeds the configured "@
                + decimal(limit as nat) + "-byte limit"@,
        ),
        ReadModel::Error(error) => Err("could not read primary clipboard: "@ + error),
    }
}

fn restorable_value(read: ClipboardRead) -> (result: Result<Option<String>, String>)
    ensures
        match restorable(read@) {
            Ok(value) => result matches Ok(kept) && kept.deep_view() == value,
            Err(message) => result matches Err(error) && error@ == message,
        },
{
    match read {
        ClipboardRead::Text(value) => Ok(Some(value)),
        ClipboardRead::Empty => Ok(None),
        ClipboardRead::NonText => Err(
            "cannot safely pop to both when the primary clipboard is non-text".to_owned(),
        ),
        ClipboardRead::Unsupported => Err(
            "cannot safely pop to both when the primary clipboard is unsupported".to_owned(),
        ),
        ClipboardRead::Oversized { limit } => Err(
            join3(
                "cannot safely pop to both when the primary clipboard exceeds the configured ",
                decimal_text(limit as u128).as_str(),
                "-byte limit",
            ),
        ),
        ClipboardRead::Error(error) => Err(
            join2("could not read primary clipboard: ", error.as_str()),
        ),
    }
}

/// The text on top of the stack, if there is one that a selection may hold.
pub open spec fn poppable(stack: Seq<EntryModel>, max_clipboard_bytes: u64) -> Result<
    Seq<char>,
    Seq<char>,
> {
    if stack.len() == 0 {
        Err("clipboard stack is empty"@)
    } else if byte_length(stack.last().value) > max_clipboard_bytes {
        Err(value_too_large(byte_length(stack.last().value), max_clipboard_bytes))
    } else {
        Ok(stack.last().value)
    }
}

fn poppable_value(stack: &Vec<StackEntry>, max_clipboard_bytes: u64) -> (result: Result<
    String,
    String,
>)
    ensures
        match poppable(stack.deep_view(), max_clipboard_bytes) {
            Ok(text) => result matches Ok(value) && value@ == text,
            Err(message) => result matches Err(error) && error@ == message,
        },
{
    if stack.len() == 0 {
        return Err("clipboard stack is empty".to_owned());
    }
    let value = stack[stack.len() - 1].value.clone();
    assert(stack.deep_view().last().value == value@);
    match validate_clipboard_size(value.as_str(), max_clipboard_bytes) {
        Ok(()) => Ok(value),
        Err(message) => Err(message),
    }
}

/// The first step of writing the top of the stack to one selection.
pub open spec fn pop_started(
    stack: Seq<EntryModel>,
    selection: CopyClipboardType,
    max_clipboard_bytes: u64,
) -> ProgressModel<StackModel> {
    match poppable(stack, max_clipboard_bytes) {
        Ok(value) => ProgressModel::Ask(
            StackModel::Popping,
            RequestModel::Write(selection, value),
        ),
        Err(message) => ProgressModel::Finished(Err(message)),
    }
}

/// The first step of writing the top of the stack to both selections.
pub open spec fn pop_both_started(
    stack: Seq<EntryModel>,
    max_clipboard_bytes: u64,
) -> ProgressModel<StackModel> {
    match poppable(stack, max_clipboard_bytes) {
        Ok(value) => ProgressModel::Ask(
            StackModel::Preparing { value },
            RequestModel::Read(ClipboardType::Primary),
        ),
        Err(message) => ProgressModel::Finished(Err(message)),
    }
}

/// The first step of a stack action.
pub open spec fn stack_started(
    action: StackAction,
    stack: Seq<EntryModel>,
    limits: StackLimits,
) -> ProgressModel<StackModel> {
    let pushing = StackModel::Pushing {
        capacity: limits.capacity,
        max_entry_bytes: limits.max_entry_bytes,
    };
    match action {
        StackAction::PushPrimary => ProgressModel::Ask(
            pushing,
            RequestModel::Read(ClipboardType::Primary),
        ),
        StackAction::PushRegular => ProgressModel::Ask(
            pushing,
            RequestModel::Read(ClipboardType::Regular),
        ),
        StackAction::PopPrimary => pop_started(
            stack,
            CopyClipboardType::Primary,
            limits.clipboard.max_bytes,
        ),
        StackAction::PopRegular => pop_started(
            stack,
            CopyClipboardType::Regular,
            limits.clipboard.max_bytes,
        ),
        StackAction::PopBoth => pop_both_started(stack, limits.clipboard.max_bytes),
    }
}

fn pop_to_one(
    stack: &Vec<StackEntry>,
    selection: CopyClipboardType,
    max_clipboard_bytes: u64,
) -> (progress: Progress<StackState>)
    ensures
        progress@ == pop_started(stack.deep_view(), selection, max_clipboard_bytes),
{
    match poppable_value(stack, max_clipboard_bytes) {
        Ok(value) => Progress::Ask(StackState::Popping, Request::Write(selection, value)),
        Err(message) => Progress::Finished(Err(message)),
    }
}

/// Starts to write the top of the stack to both selections.
pub fn pop_to_both(stack: &Vec<StackEntry>, max_clipboard_bytes: u64) -> (progress: Progress<
    StackState,
>)
    ensures
        progress@ == pop_both_started(stack.deep_view(), max_clipboard_bytes),
{
    match poppable_value(stack, max_clipboard_bytes) {
        Ok(value) => Progress::Ask(
            StackState::Preparing { value },
            Request::Read(ClipboardType::Primary),
        ),
        Err(message) => Progress::Finished(Err(message)),
    }
}

fn apply_stack_action(
    action: StackAction,
    stack: &Vec<StackEntry>,
    limits: StackLimits,
) -> (progress: Progress<StackState>)
    ensures
        progress@ == stack_started(action, stack.deep_view(), limits),
{
    let max_clipboard_bytes: u64 = limits.clipboard.max_bytes;
    match action {
        StackAction::PushPrimary => Progress::Ask(
            StackState::Pushing {
                capacity: limits.capacity,
                max_entry_bytes: limits.max_entry_bytes,
            },
            Request::Read(ClipboardType::Primary),
        ),
        StackAction::PushRegular => Progress::Ask(
            StackState::Pushing {
                capacity: limits.capacity,
                max_entry_bytes: limits.max_entry_bytes,
            },
            Request::Read(ClipboardType::Regular),
        ),
        StackAction::PopPrimary => pop_to_one(
            stack,
            CopyClipboardType::Primary,
            max_clipboard_bytes,
        ),
        StackAction::PopRegular => pop_to_one(
            stack,
            CopyClipboardType::Regular,
            max_clipboard_bytes,
        ),
        StackAction::PopBoth => pop_to_both(stack, max_clipboard_bytes),
    }
}

/// Starts a stack action whose success is to be reported.
pub fn perform(
    action: StackAction,
    stack: &Vec<StackEntry>,
    limits: StackLimits,
    notifications: bool,
) -> (progress: Progress<Task<StackState>>)
    ensures
        progress@ == announced(
            Notice::Stack(action),
            notifications,
            stack_started(action, stack.deep_view(), limits),
        ),
{
    announce(Notice::Stack(action), notifications, apply_stack_action(action, stack, limits))
}

impl StackModel {
    /// Whether a reply is of the kind that the stack action waits for.
    pub open spec fn awaits(self, reply: ReplyModel) -> bool {
        match self {
            StackModel::Pushing { .. } | StackModel::Preparing { .. } => reply is Read,
            StackModel::Popping | StackModel::PoppingBoth(_) => reply is Written,
        }
    }

    /// Whether a text that would be pushed finds room: a stack that may hold nothing has no
    /// oldest entry to lose.
    pub open spec fn has_room(self, stack: Seq<EntryModel>, reply: ReplyModel) -> bool {
        match (self, reply) {
            (StackModel::Pushing { capacity, max_entry_bytes }, ReplyModel::Read(read)) => {
                pushable(read, max_entry_bytes) is Ok ==> capacity > 0 || stack.len() > 0
            },
            _ => true,
        }
    }
}

/// How far a stack action has come, the stack, and the next identity to give out.
pub struct StackStep<P> {
    pub progress: P,
    pub stack: Seq<EntryModel>,
    pub next_id: u64,
}

/// A stack without its top entry.
pub open spec fn popped(stack: Seq<EntryModel>) -> Seq<EntryModel> {
    if stack.len() == 0 {
        stack
    } else {
        stack.drop_last()
    }
}

/// Progress of a write to both selections as progress of the stack action: the entry leaves the
/// stack once both writes have succeeded.
pub open spec fn popping_both(
    progress: PairProgressModel<Option<Seq<char>>>,
    stack: Seq<EntryModel>,
    next_id: u64,
) -> StackStep<ProgressModel<StackModel>> {
    match progress {
        PairProgressModel::Write(state, selection, value) => StackStep {
            progress: ProgressModel::Ask(
                StackModel::PoppingBoth(state),
                placement(selection, value),
            ),
            stack,
            next_id,
        },
        PairProgressModel::Finished(result) => StackStep {
            progress: ProgressModel::Finished(result),
            stack: if result is Ok {
                popped(stack)
            } else {
                stack
            },
            next_id,
        },
    }
}

/// What follows in a stack action once the reply it waits for is there.
pub open spec fn stack_resumed(
    state: StackModel,
    stack: Seq<EntryModel>,
    next_id: u64,
    reply: ReplyModel,
) -> StackStep<ProgressModel<StackModel>> {
    match (state, reply) {
        (StackModel::Pushing { capacity, max_entry_bytes }, ReplyModel::Read(read)) => {
            match pushable(read, max_entry_bytes) {
                Ok(value) => StackStep {
                    progress: ProgressModel::Finished(Ok(())),
                    stack: pushed(stack, EntryModel { id: next_id, value }, capacity as nat),
                    next_id: following_id(next_id),
                },
                Err(message) => StackStep {
                    progress: ProgressModel::Finished(Err(message)),
                    stack,
                    next_id,
                },
            }
        },
        (StackModel::Popping, ReplyModel::Written(result)) => StackStep {
            progress: ProgressModel::Finished(result),
            stack: if result is Ok {
                popped(stack)
            } else {
                stack
            },
            next_id,
        },
        (StackModel::Preparing { value }, ReplyModel::Read(read)) => match restorable(read) {
            Ok(original_primary) => popping_both(
                pair_started(Some(value), Some(value), original_primary),
                stack,
                next_id,
            ),
            Err(message) => StackStep {
                progress: ProgressModel::Finished(Err(message)),
                stack,
                next_id,
            },
        },
        (StackModel::PoppingBoth(writes), ReplyModel::Written(result)) => popping_both(
            pair_written(writes, result),
            stack,
            next_id,
        ),
        _ => arbitrary(),
    }
}

fn pop_entry(stack: &mut Vec<StackEntry>)
    ensures
        final(stack).deep_view() == popped(old(stack).deep_view()),
{
    let _ = stack.pop();
    assert(stack.deep_view() =~= popped(old(stack).deep_view()));
}

fn ask_for_both(progress: PairProgress<Option<String>>, stack: &mut Vec<StackEntry>) -> (result:
    Progress<StackState>)
    ensures
        forall|next_id: u64|
            #[trigger]
            popping_both(progress@, old(stack).deep_view(), next_id) == (StackStep {
                progress: result@,
                stack: final(stack).deep_view(),
                next_id,
            }),
{
    match progress {
        PairProgress::Write(state, selection, value) => Progress::Ask(
            StackState::PoppingBoth(state),
            write_optional(selection, value),
        ),
        PairProgress::Finished(result) => {
            if result.is_ok() {
                pop_entry(stack);
            }
            Progress::Finished(result)
        },
    }
}

impl StackState {
    /// Whether `reply` is of the kind that the stack action waits for.
    pub fn accepts(&self, reply: &Reply) -> (accepted: bool)
        ensures
            accepted == self@.awaits(reply@),
    {
        match self {
            Self::Pushing { .. } | Self::Preparing { .. } => matches!(reply, Reply::Read(_)),
            Self::Popping | Self::PoppingBoth(_) => matches!(reply, Reply::Written(_)),
        }
    }

    /// Takes the reply to the request that the stack action waits for.
    pub fn resume(self, stack: &mut Vec<StackEntry>, ids: &mut EntryIds, reply: Reply) -> (progress:
        Progress<StackState>)
        requires
            self@.awaits(reply@),
            self@.has_room(old(stack).deep_view(), reply@),
        ensures
            stack_resumed(self@, old(stack).deep_view(), old(ids).next, reply@) == (StackStep {
                progress: progress@,
                stack: final(stack).deep_view(),
                next_id: final(ids).next,
            }),
    {
        match reply {
            Reply::Read(read) => match self {
                Self::Pushing { capacity, max_entry_bytes } => match pushable_text(
                    read,
                    max_entry_bytes,
                ) {
                    Ok(value) => {
                        push(stack, ids, value, capacity);
                        Progress::Finished(Ok(()))
                    },
                    Err(message) => Progress::Finished(Err(message)),
                },
                Self::Preparing { value } => match restorable_value(read) {
                    Ok(original_primary) => ask_for_both(
                        write_both_with_rollback(
                            Some(value.clone()),
                            Some(value),
                            original_primary,
                        ),
                        stack,
                    ),
                    Err(message) => Progress::Finished(Err(message)),
                },
                _ => Progress::Finished(Ok(())),
            },
            Reply::Written(result) => match self {
                Self::PoppingBoth(writes) => ask_for_both(writes.resume(result), stack),
                _ => {
                    if result.is_ok() {
                        pop_entry(stack);
                    }
                    Progress::Finished(result)
                },
            },
            Reply::Notified => Progress::Finished(Ok(())),
        }
    }
}

/// Whether a reply is of the kind that a task waits for.
pub open spec fn stack_task_awaits(task: Task<StackModel>, reply: ReplyModel) -> bool {
    match task.stage {
        Stage::Working(state) => state.awaits(reply),
        Stage::Announcing => reply is Notified,
    }
}

/// Whether a text that the task would push finds room.
pub open spec fn stack_task_has_room(
    task: Task<StackModel>,
    stack: Seq<EntryModel>,
    reply: ReplyModel,
) -> bool {
    match task.stage {
        Stage::Working(state) => state.has_room(stack, reply),
        Stage::Announcing => true,
    }
}

/// What follows in a task once the reply it waits for is there.
pub open spec fn stack_task_resumed(
    task: Task<StackModel>,
    stack: Seq<EntryModel>,
    next_id: u64,
    reply: ReplyModel,
) -> StackStep<ProgressModel<Task<StackModel>>> {
    match task.stage {
        Stage::Working(state) => {
            let step = stack_resumed(state, stack, next_id, reply);
            StackStep {
                progress: announced(task.notice, task.notifications, step.progress),
                stack: step.stack,
                next_id: step.next_id,
            }
        },
        Stage::Announcing => StackStep {
            progress: ProgressModel::Finished(Ok(())),
            stack,
            next_id,
        },
    }
}

impl Task<StackState> {
    /// Whether `reply` is of the kind that the task waits for.
    pub fn accepts(&self, reply: &Reply) -> (accepted: bool)
        ensures
            accepted == stack_task_awaits(self@, reply@),
    {
        match &self.stage {
            Stage::Working(state) => state.accepts(reply),
            Stage::Announcing => matches!(reply, Reply::Notified),
        }
    }

    /// Takes the reply to the request that the task waits for.
    pub fn resume(self, stack: &mut Vec<StackEntry>, ids: &mut EntryIds, reply: Reply) -> (progress:
        Progress<Task<StackState>>)
        requires
            stack_task_awaits(self@, reply@),
            stack_task_has_room(self@, old(stack).deep_view(), reply@),
        ensures
            stack_task_resumed(self@, old(stack).deep_view(), old(ids).next, reply@) == (StackStep {
                progress: progress@,
                stack: final(stack).deep_view(),
                next_id: final(ids).next,
            }),
    {
        match self.stage {
            Stage::Working(state) => announce(
                self.notice,
                self.notifications,
                state.resume(stack, ids, reply),
            ),
            Stage::Announcing => Progress::Finished(Ok(())),
        }
    }
}

} // verus!
