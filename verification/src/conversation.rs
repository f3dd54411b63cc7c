//! The ordered message log of one run.
//!
//! The log holds at most one system message, and only as its first entry.
//! Every operation keeps it so.

use vstd::prelude::*;
use vstd::string::*;
use crate::models::{
    assistant_role, lemma_roles_differ, system_role, tool_role, user_role, Message, MessageView,
};

verus! {

/// The system message with the given content.
pub open spec fn system_message(content: Seq<char>) -> MessageView {
    MessageView { role: system_role(), content }
}

/// The user message with the given content.
pub open spec fn user_message(content: Seq<char>) -> MessageView {
    MessageView { role: user_role(), content }
}

/// The assistant message with the given content.
pub open spec fn assistant_message(content: Seq<char>) -> MessageView {
    MessageView { role: assistant_role(), content }
}

/// The tool message with the given content.
pub open spec fn tool_message(content: Seq<char>) -> MessageView {
    MessageView { role: tool_role(), content }
}

/// A log is well formed when no entry but the first is a system message.
pub open spec fn well_formed(log: Seq<MessageView>) -> bool {
    forall|i: int| 0 < i < log.len() ==> (#[trigger] log[i]).role != system_role()
}

/// Whether the log starts with a system message.
pub open spec fn has_system(log: Seq<MessageView>) -> bool {
    log.len() > 0 && log[0].role == system_role()
}

/// The entries of `history` that are not system messages, in their order.
pub open spec fn without_system(history: Seq<MessageView>) -> Seq<MessageView>
    decreases history.len(),
{
    if history.len() == 0 {
        Seq::empty()
    } else if history.last().role == system_role() {
        without_system(history.drop_last())
    } else {
        without_system(history.drop_last()).push(history.last())
    }
}

/// The log a run starts with: the agent's instructions as a system message
/// unless they are empty, then the earlier conversation, then the input as
/// a user message.
pub open spec fn initial_log(
    instructions: Seq<char>,
    history: Seq<MessageView>,
    input: Seq<char>,
) -> Seq<MessageView> {
    let head = if instructions.len() > 0 {
        seq![system_message(instructions)]
    } else {
        Seq::empty()
    };
    (head + without_system(history)).push(user_message(input))
}

/// The log after its system message was brought in line with
/// `instructions`: an existing system message takes them as its content;
/// without one, a system message is put in front unless the instructions
/// are empty.
pub open spec fn resynchronized(log: Seq<MessageView>, instructions: Seq<char>) -> Seq<
    MessageView,
> {
    if has_system(log) {
        log.update(0, system_message(instructions))
    } else if instructions.len() > 0 {
        seq![system_message(instructions)] + log
    } else {
        log
    }
}

/// The index of the last entry that is not an assistant message, or -1
/// where every entry is one.
pub open spec fn last_non_assistant_index(log: Seq<MessageView>) -> int
    decreases log.len(),
{
    if log.len() == 0 {
        -1
    } else if log.last().role != assistant_role() {
        log.len() - 1
    } else {
        last_non_assistant_index(log.drop_last())
    }
}

/// No entry of `without_system(history)` is a system message.
pub proof fn lemma_without_system(history: Seq<MessageView>)
    ensures
        forall|i: int|
            0 <= i < without_system(history).len() ==> (#[trigger] without_system(
                history,
            )[i]).role != system_role(),
        without_system(history).len() <= history.len(),
    decreases history.len(),
{
    if history.len() > 0 {
        lemma_without_system(history.drop_last());
    }
}

/// A run's first log is well formed, and it holds a system message exactly
/// when the instructions are not empty: with empty instructions no entry of
/// the log is a system message.
pub proof fn lemma_initial_log(
    instructions: Seq<char>,
    history: Seq<MessageView>,
    input: Seq<char>,
)
    ensures
        well_formed(initial_log(instructions, history, input)),
        has_system(initial_log(instructions, history, input)) <==> instructions.len() > 0,
        instructions.len() == 0 ==> forall|i: int|
            0 <= i < initial_log(instructions, history, input).len() ==> (#[trigger] initial_log(
                instructions,
                history,
                input,
            )[i]).role != system_role(),
        initial_log(instructions, history, input).len() > 0,
        initial_log(instructions, history, input).last() == user_message(input),
{
    lemma_without_system(history);
    lemma_roles_differ();
    let log = initial_log(instructions, history, input);
    let body = without_system(history);
    if instructions.len() > 0 {
        assert forall|i: int| 0 < i < log.len() implies (#[trigger] log[i]).role
            != system_role() by {
            if i < log.len() - 1 {
                assert(log[i] == body[i - 1]);
            }
        }
    } else {
        assert forall|i: int| 0 <= i < log.len() implies (#[trigger] log[i]).role
            != system_role() by {
            if i < log.len() - 1 {
                assert(log[i] == body[i]);
            }
        }
    }
}

/// Bringing the system message in line keeps a log well formed. Afterwards
/// the log has a system message exactly when it had one before or the
/// instructions are not empty, and that message holds the instructions.
pub proof fn lemma_resynchronized(log: Seq<MessageView>, instructions: Seq<char>)
    requires
        well_formed(log),
    ensures
        well_formed(resynchronized(log, instructions)),
        has_system(resynchronized(log, instructions)) <==> (has_system(log) || instructions.len()
            > 0),
        has_system(resynchronized(log, instructions)) ==> resynchronized(log, instructions)[0]
            == system_message(instructions),
        resynchronized(log, instructions).len() >= log.len(),
        log.len() > 0 ==> resynchronized(log, instructions).last().role == log.last().role
            || (log.len() == 1 && has_system(log)),
{
    let out = resynchronized(log, instructions);
    if has_system(log) {
        assert forall|i: int| 0 < i < out.len() implies (#[trigger] out[i]).role
            != system_role() by {
            assert(out[i] == log[i]);
        }
    } else if instructions.len() > 0 {
        assert forall|i: int| 0 < i < out.len() implies (#[trigger] out[i]).role
            != system_role() by {
            assert(out[i] == log[i - 1]);
            if i - 1 > 0 {
            } else {
                assert(!has_system(log));
            }
        }
    }
}

/// The index that `last_non_assistant_index` gives is that of an entry
/// which is no assistant message, and every later entry is one.
pub proof fn lemma_last_non_assistant(log: Seq<MessageView>)
    ensures
        -1 <= last_non_assistant_index(log) < log.len(),
        last_non_assistant_index(log) >= 0 ==> log[last_non_assistant_index(log)].role
            != assistant_role(),
        forall|i: int|
            last_non_assistant_index(log) < i < log.len() ==> (#[trigger] log[i]).role
                == assistant_role(),
    decreases log.len(),
{
    if log.len() > 0 && log.last().role == assistant_role() {
        lemma_last_non_assistant(log.drop_last());
        assert forall|i: int| last_non_assistant_index(log) < i < log.len() implies (
        #[trigger] log[i]).role == assistant_role() by {
            if i < log.len() - 1 {
                assert(log[i] == log.drop_last()[i]);
            }
        }
    }
}

/// A log in which entry `i` is no assistant message has a last such entry,
/// at `i` or later.
pub proof fn lemma_non_assistant_found(log: Seq<MessageView>, i: int)
    requires
        0 <= i < log.len(),
        log[i].role != assistant_role(),
    ensures
        last_non_assistant_index(log) >= i,
{
    lemma_last_non_assistant(log);
}

/// Appending a message and bringing the system message in line both keep
/// a message that the model did not write in the log, and appending an
/// assistant message leaves the last such message where it is.
pub proof fn lemma_non_assistant_kept(log: Seq<MessageView>, message: MessageView, instructions: Seq<char>)
    requires
        last_non_assistant_index(log) >= 0,
    ensures
        last_non_assistant_index(log.push(message)) >= 0,
        message.role == assistant_role() ==> last_non_assistant_index(log.push(message))
            == last_non_assistant_index(log),
        last_non_assistant_index(resynchronized(log, instructions)) >= 0,
{
    lemma_last_non_assistant(log);
    lemma_roles_differ();
    let at = last_non_assistant_index(log);
    assert(log.push(message).drop_last() =~= log);
    assert(log.push(message)[at] == log[at]);
    lemma_non_assistant_found(log.push(message), at);
    let synced = resynchronized(log, instructions);
    if has_system(log) {
        if at == 0 {
            lemma_non_assistant_found(synced, 0);
        } else {
            assert(synced[at] == log[at]);
            lemma_non_assistant_found(synced, at);
        }
    } else if instructions.len() > 0 {
        lemma_non_assistant_found(synced, 0);
    }
}

/// The message log of one run.
pub struct ConversationState {
    messages: Vec<Message>,
}

impl View for ConversationState {
    type V = Seq<MessageView>;

    closed spec fn view(&self) -> Seq<MessageView> {
        self.messages.deep_view()
    }
}

impl ConversationState {
    #[verifier::type_invariant]
    spec fn inv(self) -> bool {
        well_formed(self.messages.deep_view())
    }

    /// The log a run starts with. System messages in `history` are left
    /// out: the only system message of a log is the one that carries the
    /// active agent's instructions.
    pub fn new(instructions: &str, history: &Vec<Message>, input: &str) -> (state:
        ConversationState)
        ensures
            state@ == initial_log(instructions@, history.deep_view(), input@),
            well_formed(state@),
    {
        let mut messages: Vec<Message> = Vec::new();
        if !instructions.is_empty() {
            messages.push(Message::system(instructions));
        }
        let ghost head = messages.deep_view();
        proof {
            assert(head =~= if instructions@.len() > 0 {
                seq![system_message(instructions@)]
            } else {
                Seq::empty()
            });
            assert(history.deep_view().subrange(0, 0) =~= Seq::empty());
            assert(head + without_system(Seq::empty()) =~= head);
        }
        let mut i: usize = 0;
        while i < history.len()
            invariant
                i <= history.len(),
                messages.deep_view() == head + without_system(
                    history.deep_view().subrange(0, i as int),
                ),
            decreases history.len() - i,
        {
            let ghost before = history.deep_view().subrange(0, i as int);
            let ghost after = history.deep_view().subrange(0, i + 1);
            assert(after.drop_last() =~= before);
            assert(after.last() == history@[i as int]@);
            let ghost so_far = messages.deep_view();
            if !history[i].is_system() {
                messages.push(history[i].clone());
                assert(without_system(after) == without_system(before).push(after.last()));
                assert(messages.deep_view() =~= so_far.push(after.last()));
                assert(messages.deep_view() =~= head + without_system(after));
            } else {
                assert(without_system(after) == without_system(before));
            }
            i += 1;
        }
        assert(history.deep_view().subrange(0, i as int) =~= history.deep_view());
        let ghost so_far = messages.deep_view();
        messages.push(Message::user(input));
        proof {
            assert(messages.deep_view() =~= so_far.push(user_message(input@)));
            assert(messages.deep_view() =~= initial_log(
                instructions@,
                history.deep_view(),
                input@,
            ));
            lemma_initial_log(instructions@, history.deep_view(), input@);
        }
        ConversationState { messages }
    }

    /// The messages, oldest first.
    pub fn messages(&self) -> (messages: &Vec<Message>)
        ensures
            messages.deep_view() == self@,
            well_formed(self@),
    {
        proof {
            use_type_invariant(self);
        }
        &self.messages
    }

    /// The number of messages.
    pub fn len(&self) -> (n: usize)
        ensures
            n == self@.len(),
    {
        self.messages.len()
    }

    /// Whether the log starts with a system message.
    pub fn has_system_message(&self) -> (b: bool)
        ensures
            b == has_system(self@),
    {
        self.messages.len() > 0 && self.messages[0].is_system()
    }

    /// The conversation with what the model said appended.
    pub fn push_assistant(self, content: &str) -> (next: ConversationState)
        ensures
            next@ == self@.push(assistant_message(content@)),
            well_formed(next@),
    {
        proof {
            lemma_roles_differ();
        }
        self.push(Message::assistant(content))
    }

    /// The conversation with the report of what a tool returned appended.
    pub fn push_tool(self, content: &str) -> (next: ConversationState)
        ensures
            next@ == self@.push(tool_message(content@)),
            well_formed(next@),
    {
        proof {
            lemma_roles_differ();
        }
        self.push(Message::tool(content))
    }

    fn push(self, message: Message) -> (next: ConversationState)
        requires
            message@.role != system_role(),
        ensures
            next@ == self@.push(message@),
            well_formed(next@),
    {
        proof {
            use_type_invariant(&self);
        }
        let ghost before = self.messages.deep_view();
        let mut messages = self.messages;
        messages.push(message);
        proof {
            assert(messages.deep_view() =~= before.push(message@));
            assert forall|i: int| 0 < i < messages.deep_view().len() implies (
            #[trigger] messages.deep_view()[i]).role != system_role() by {
                if i < before.len() {
                    assert(messages.deep_view()[i] == before[i]);
                }
            }
        }
        ConversationState { messages }
    }

    /// The conversation with its system message brought in line with the
    /// instructions of the agent that is now active.
    pub fn sync_system_message(self, instructions: &str) -> (next: ConversationState)
        ensures
            next@ == resynchronized(self@, instructions@),
            well_formed(next@),
    {
        proof {
            use_type_invariant(&self);
            lemma_resynchronized(self.messages.deep_view(), instructions@);
        }
        let ghost before = self.messages.deep_view();
        let mut messages = self.messages;
        if messages.len() > 0 && messages[0].is_system() {
            messages[0] = Message::system(instructions);
            assert(messages.deep_view() =~= resynchronized(before, instructions@));
        } else if !instructions.is_empty() {
            messages.insert(0, Message::system(instructions));
            assert(messages.deep_view() =~= resynchronized(before, instructions@));
        }
        ConversationState { messages }
    }

    /// The last message that the model did not write, if there is one.
    pub fn last_non_assistant(&self) -> (found: Option<Message>)
        ensures
            match found {
                Some(m) => last_non_assistant_index(self@) >= 0 && m@
                    == self@[last_non_assistant_index(self@)],
                None => last_non_assistant_index(self@) == -1,
            },
    {
        let mut i: usize = self.messages.len();
        assert(self.messages.deep_view().subrange(0, i as int) =~= self.messages.deep_view());
        while i > 0
            invariant
                i <= self.messages.len(),
                last_non_assistant_index(self.messages.deep_view())
                    == last_non_assistant_index(self.messages.deep_view().subrange(0, i as int)),
            decreases i,
        {
            let ghost prefix = self.messages.deep_view().subrange(0, i as int);
            assert(prefix.last() == self.messages@[i - 1]@);
            assert(prefix.drop_last() =~= self.messages.deep_view().subrange(0, i - 1));
            if !self.messages[i - 1].is_assistant() {
                assert(self.messages.deep_view()[i - 1] == self.messages@[i - 1]@);
                return Some(self.messages[i - 1].clone());
            }
            i -= 1;
        }
        None
    }
}

} // verus!
