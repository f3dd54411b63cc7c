//! Putting a streamed response back together.
//!
//! A streamed response arrives in chunks. The text of the answer comes in
//! pieces, and so does every tool call: fragments that carry the same index
//! belong to one call, and the call's id, name and arguments are what the
//! fragments hold, concatenated in the order of arrival.

use vstd::prelude::*;
use vstd::string::*;
use crate::json::{empty_object_text, json_normalized, JsonValue};
use crate::models::{StreamChunk, StreamChunkView, ToolCall, ToolCallDelta, ToolCallDeltaView, ToolCallView};
use crate::stream_events::{raw_text_event, StreamEvent, StreamEventView};

verus! {

/// The three growing texts of one tool call.
#[derive(Debug)]
pub struct ToolCallBuffer {
    pub id: String,
    pub name: String,
    pub arguments: String,
}

/// A [`ToolCallBuffer`] with its texts as sequences of characters.
pub struct ToolCallBufferView {
    pub id: Seq<char>,
    pub name: Seq<char>,
    pub arguments: Seq<char>,
}

impl View for ToolCallBuffer {
    type V = ToolCallBufferView;

    open spec fn view(&self) -> ToolCallBufferView {
        ToolCallBufferView { id: self.id@, name: self.name@, arguments: self.arguments@ }
    }
}

impl DeepView for ToolCallBuffer {
    type V = ToolCallBufferView;

    open spec fn deep_view(&self) -> ToolCallBufferView {
        self@
    }
}

/// The buffer of a call of which nothing has arrived.
pub open spec fn empty_buffer() -> ToolCallBufferView {
    ToolCallBufferView { id: Seq::empty(), name: Seq::empty(), arguments: Seq::empty() }
}

/// The text that an optional fragment adds: nothing where it is absent.
pub open spec fn fragment(piece: Option<Seq<char>>) -> Seq<char> {
    match piece {
        Some(text) => text,
        None => Seq::empty(),
    }
}

/// `calls`, extended by empty buffers to at least `len` entries.
pub open spec fn padded(calls: Seq<ToolCallBufferView>, len: nat) -> Seq<ToolCallBufferView> {
    if calls.len() >= len {
        calls
    } else {
        calls + Seq::new((len - calls.len()) as nat, |i: int| empty_buffer())
    }
}

/// The buffers after one fragment arrived: the buffer at the fragment's
/// index, created empty if need be, grows by what the fragment holds.
pub open spec fn absorb_delta(calls: Seq<ToolCallBufferView>, delta: ToolCallDeltaView) -> Seq<
    ToolCallBufferView,
> {
    let slots = padded(calls, delta.index + 1);
    let slot = slots[delta.index as int];
    slots.update(
        delta.index as int,
        ToolCallBufferView {
            id: slot.id + fragment(delta.id),
            name: slot.name + fragment(delta.name),
            arguments: slot.arguments + fragment(delta.arguments),
        },
    )
}

/// The buffers after the fragments arrived one after the other.
pub open spec fn absorb_deltas(calls: Seq<ToolCallBufferView>, deltas: Seq<ToolCallDeltaView>) -> Seq<
    ToolCallBufferView,
>
    decreases deltas.len(),
{
    if deltas.len() == 0 {
        calls
    } else {
        absorb_delta(absorb_deltas(calls, deltas.drop_last()), deltas.last())
    }
}

/// What has been put together so far.
pub struct AccumulatorView {
    /// The answer's text.
    pub content: Seq<char>,
    /// The tool calls, by index.
    pub calls: Seq<ToolCallBufferView>,
}

/// What has been put together after one more chunk.
pub open spec fn absorb_chunk(state: AccumulatorView, chunk: StreamChunkView) -> AccumulatorView {
    AccumulatorView {
        content: state.content + fragment(chunk.delta),
        calls: absorb_deltas(state.calls, chunk.tool_call_deltas),
    }
}

/// The event that lets an observer see a chunk's text at once; none for a
/// chunk without text.
pub open spec fn chunk_event(chunk: StreamChunkView) -> Option<StreamEventView> {
    match chunk.delta {
        Some(text) => Some(raw_text_event(text)),
        None => None,
    }
}

/// The id fragments of the fragments with index `index`, concatenated in
/// the order of arrival.
pub open spec fn id_fragments(deltas: Seq<ToolCallDeltaView>, index: nat) -> Seq<char>
    decreases deltas.len(),
{
    if deltas.len() == 0 {
        Seq::empty()
    } else if deltas.last().index == index {
        id_fragments(deltas.drop_last(), index) + fragment(deltas.last().id)
    } else {
        id_fragments(deltas.drop_last(), index)
    }
}

/// The name fragments of the fragments with index `index`, concatenated in
/// the order of arrival.
pub open spec fn name_fragments(deltas: Seq<ToolCallDeltaView>, index: nat) -> Seq<char>
    decreases deltas.len(),
{
    if deltas.len() == 0 {
        Seq::empty()
    } else if deltas.last().index == index {
        name_fragments(deltas.drop_last(), index) + fragment(deltas.last().name)
    } else {
        name_fragments(deltas.drop_last(), index)
    }
}

/// The argument fragments of the fragments with index `index`,
/// concatenated in the order of arrival.
pub open spec fn argument_fragments(deltas: Seq<ToolCallDeltaView>, index: nat) -> Seq<char>
    decreases deltas.len(),
{
    if deltas.len() == 0 {
        Seq::empty()
    } else if deltas.last().index == index {
        argument_fragments(deltas.drop_last(), index) + fragment(deltas.last().arguments)
    } else {
        argument_fragments(deltas.drop_last(), index)
    }
}

/// The number of buffers that a sequence of fragments needs: one more than
/// the largest index, and none for no fragment.
pub open spec fn slots_needed(deltas: Seq<ToolCallDeltaView>) -> nat
    decreases deltas.len(),
{
    if deltas.len() == 0 {
        0
    } else if deltas.last().index + 1 > slots_needed(deltas.drop_last()) {
        deltas.last().index + 1
    } else {
        slots_needed(deltas.drop_last())
    }
}

/// The buffer at `index` once all of `deltas` arrived, starting from no
/// buffer at all, holds exactly what the fragments with that index carried,
/// in the order of arrival; fragments with other indices leave it alone.
pub proof fn law_reassembly(deltas: Seq<ToolCallDeltaView>, index: nat)
    ensures
        absorb_deltas(Seq::empty(), deltas).len() == slots_needed(deltas),
        index < slots_needed(deltas) ==> absorb_deltas(Seq::empty(), deltas)[index as int] == (
        ToolCallBufferView {
            id: id_fragments(deltas, index),
            name: name_fragments(deltas, index),
            arguments: argument_fragments(deltas, index),
        }),
        index >= slots_needed(deltas) ==> id_fragments(deltas, index) == Seq::<char>::empty()
            && name_fragments(deltas, index) == Seq::<char>::empty() && argument_fragments(
            deltas,
            index,
        ) == Seq::<char>::empty(),
    decreases deltas.len(),
{
    if deltas.len() > 0 {
        let earlier = deltas.drop_last();
        let last = deltas.last();
        law_reassembly(earlier, index);
        let before = absorb_deltas(Seq::empty(), earlier);
        let slots = padded(before, last.index + 1);
        let after = absorb_delta(before, last);
        assert(after.len() == slots_needed(deltas));
        if index < slots_needed(deltas) {
            if index < before.len() {
                assert(slots[index as int] == before[index as int]);
            } else {
                assert(slots[index as int] == empty_buffer());
            }
            if last.index == index {
                assert(after[index as int].name =~= name_fragments(deltas, index));
                assert(after[index as int].id =~= id_fragments(deltas, index));
                assert(after[index as int].arguments =~= argument_fragments(deltas, index));
            } else {
                assert(after[index as int] == slots[index as int]);
            }
        }
    }
}

/// It makes no difference in how many chunks the fragments arrive: taking
/// them in one after the other is taking in all of them.
pub proof fn law_chunks_do_not_matter(
    calls: Seq<ToolCallBufferView>,
    first: Seq<ToolCallDeltaView>,
    second: Seq<ToolCallDeltaView>,
)
    ensures
        absorb_deltas(absorb_deltas(calls, first), second) == absorb_deltas(calls, first + second),
    decreases second.len(),
{
    if second.len() == 0 {
        assert(first + second =~= first);
    } else {
        law_chunks_do_not_matter(calls, first, second.drop_last());
        assert((first + second).drop_last() =~= first + second.drop_last());
        assert((first + second).last() == second.last());
    }
}

/// The fragment texts of all of `deltas`, whatever their index,
/// concatenated in the order of arrival.
pub open spec fn all_name_fragments(deltas: Seq<ToolCallDeltaView>) -> Seq<char>
    decreases deltas.len(),
{
    if deltas.len() == 0 {
        Seq::empty()
    } else {
        all_name_fragments(deltas.drop_last()) + fragment(deltas.last().name)
    }
}

/// As `all_name_fragments`, for the argument fragments.
pub open spec fn all_argument_fragments(deltas: Seq<ToolCallDeltaView>) -> Seq<char>
    decreases deltas.len(),
{
    if deltas.len() == 0 {
        Seq::empty()
    } else {
        all_argument_fragments(deltas.drop_last()) + fragment(deltas.last().arguments)
    }
}

/// Fragments that all carry one index are put together into one call whose
/// name and arguments are the fragments' texts, concatenated in the order
/// in which they arrived.
pub proof fn law_shared_index_concatenates(deltas: Seq<ToolCallDeltaView>, index: nat)
    requires
        deltas.len() > 0,
        forall|k: int| 0 <= k < deltas.len() ==> (#[trigger] deltas[k]).index == index,
    ensures
        absorb_deltas(Seq::empty(), deltas).len() == index + 1,
        absorb_deltas(Seq::empty(), deltas)[index as int].name == all_name_fragments(deltas),
        absorb_deltas(Seq::empty(), deltas)[index as int].arguments == all_argument_fragments(
            deltas,
        ),
    decreases deltas.len(),
{
    law_reassembly(deltas, index);
    lemma_shared_fragments(deltas, index);
}

/// For fragments that share one index, the texts for that index are all
/// the texts.
proof fn lemma_shared_fragments(deltas: Seq<ToolCallDeltaView>, index: nat)
    requires
        forall|k: int| 0 <= k < deltas.len() ==> (#[trigger] deltas[k]).index == index,
    ensures
        name_fragments(deltas, index) == all_name_fragments(deltas),
        argument_fragments(deltas, index) == all_argument_fragments(deltas),
        deltas.len() > 0 ==> slots_needed(deltas) == index + 1,
    decreases deltas.len(),
{
    if deltas.len() > 0 {
        let earlier = deltas.drop_last();
        assert forall|k: int| 0 <= k < earlier.len() implies (#[trigger] earlier[k]).index
            == index by {
            assert(earlier[k] == deltas[k]);
        }
        lemma_shared_fragments(earlier, index);
        assert(deltas[deltas.len() - 1].index == index);
        assert(deltas.last().index == index);
        if earlier.len() == 0 {
            assert(slots_needed(earlier) == 0);
        }
    }
}

/// The arguments of a finished call: what `serde_json` reads from the
/// accumulated text, or the empty object where the text is not JSON.
pub open spec fn finished_arguments(text: Seq<char>) -> Seq<char> {
    match json_normalized(text) {
        Some(compact) => compact,
        None => empty_object_text(),
    }
}

/// The calls that the buffers stand for: one for every buffer with a name,
/// in the order of the indices. Buffers without a name are passed over.
pub open spec fn finished_calls(calls: Seq<ToolCallBufferView>) -> Seq<ToolCallView>
    decreases calls.len(),
{
    if calls.len() == 0 {
        Seq::empty()
    } else if calls.last().name.len() == 0 {
        finished_calls(calls.drop_last())
    } else {
        finished_calls(calls.drop_last()).push(
            ToolCallView {
                id: calls.last().id,
                name: calls.last().name,
                arguments: finished_arguments(calls.last().arguments),
            },
        )
    }
}

/// Whether every fragment of the chunk has an index that a buffer list can
/// reach.
pub open spec fn indices_in_reach(chunk: StreamChunkView) -> bool {
    forall|k: int|
        0 <= k < chunk.tool_call_deltas.len() ==> (#[trigger] chunk.tool_call_deltas[k]).index
            < usize::MAX
}

/// Tests whether every fragment of the chunk has an index that a buffer
/// list can reach.
pub fn chunk_in_reach(chunk: &StreamChunk) -> (ok: bool)
    ensures
        ok == indices_in_reach(chunk@),
{
    let mut i: usize = 0;
    while i < chunk.tool_call_deltas.len()
        invariant
            i <= chunk.tool_call_deltas.len(),
            forall|k: int|
                0 <= k < i ==> (#[trigger] chunk@.tool_call_deltas[k]).index < usize::MAX,
        decreases chunk.tool_call_deltas.len() - i,
    {
        assert(chunk@.tool_call_deltas[i as int] == chunk.tool_call_deltas@[i as int]@);
        if chunk.tool_call_deltas[i].index == usize::MAX {
            return false;
        }
        i += 1;
    }
    true
}

/// Puts a streamed response back together, chunk by chunk.
pub struct StreamAccumulator {
    content: String,
    calls: Vec<ToolCallBuffer>,
}

impl View for StreamAccumulator {
    type V = AccumulatorView;

    closed spec fn view(&self) -> AccumulatorView {
        AccumulatorView { content: self.content@, calls: self.calls.deep_view() }
    }
}

fn append_fragment(text: &mut String, piece: &Option<String>)
    ensures
        final(text)@ == old(text)@ + fragment(piece.deep_view()),
{
    match piece {
        Some(more) => {
            text.append(more.as_str());
        },
        None => {
            assert(text@ + Seq::<char>::empty() =~= text@);
        },
    }
}

fn absorb_one(calls: &mut Vec<ToolCallBuffer>, delta: &ToolCallDelta)
    requires
        delta.index < usize::MAX,
    ensures
        final(calls).deep_view() == absorb_delta(old(calls).deep_view(), delta@),
{
    let ghost before = calls.deep_view();
    let ghost want = padded(before, (delta.index + 1) as nat);
    while calls.len() <= delta.index
        invariant
            calls.len() <= delta.index + 1 || calls.len() == before.len(),
            delta.index < usize::MAX,
            before.len() <= calls.len(),
            want == padded(before, (delta.index + 1) as nat),
            forall|k: int| 0 <= k < before.len() ==> calls@[k]@ == before[k],
            forall|k: int| before.len() <= k < calls.len() ==> calls@[k]@ == empty_buffer(),
        decreases delta.index + 1 - calls.len(),
    {
        calls.push(
            ToolCallBuffer { id: String::new(), name: String::new(), arguments: String::new() },
        );
    }
    assert(calls.deep_view() =~= want);
    let slot = &calls[delta.index];
    let mut id = slot.id.clone();
    let mut name = slot.name.clone();
    let mut arguments = slot.arguments.clone();
    append_fragment(&mut id, &delta.id);
    append_fragment(&mut name, &delta.name);
    append_fragment(&mut arguments, &delta.arguments);
    calls[delta.index] = ToolCallBuffer { id, name, arguments };
    assert(calls.deep_view() =~= absorb_delta(before, delta@));
}

impl StreamAccumulator {
    /// An accumulator that has seen nothing.
    pub fn new() -> (accumulator: StreamAccumulator)
        ensures
            accumulator@ == (AccumulatorView { content: Seq::empty(), calls: Seq::empty() }),
    {
        let accumulator = StreamAccumulator { content: String::new(), calls: Vec::new() };
        assert(accumulator.calls.deep_view() =~= Seq::empty());
        accumulator
    }

    /// Takes in one chunk. The chunk's text, if it has any, is handed back
    /// as the event that lets an observer see it at once.
    pub fn absorb(&mut self, chunk: &StreamChunk) -> (event: Option<StreamEvent>)
        requires
            indices_in_reach(chunk@),
        ensures
            final(self)@ == absorb_chunk(old(self)@, chunk@),
            event.deep_view() == chunk_event(chunk@),
    {
        append_fragment(&mut self.content, &chunk.delta);
        let ghost content = self.content@;
        let ghost before = self.calls.deep_view();
        let mut i: usize = 0;
        assert(chunk@.tool_call_deltas.subrange(0, 0) =~= Seq::empty());
        while i < chunk.tool_call_deltas.len()
            invariant
                i <= chunk.tool_call_deltas.len(),
                indices_in_reach(chunk@),
                self.content@ == content,
                self.calls.deep_view() == absorb_deltas(
                    before,
                    chunk@.tool_call_deltas.subrange(0, i as int),
                ),
            decreases chunk.tool_call_deltas.len() - i,
        {
            let ghost seen = chunk@.tool_call_deltas.subrange(0, i as int);
            let ghost next = chunk@.tool_call_deltas.subrange(0, i + 1);
            assert(next.drop_last() =~= seen);
            assert(next.last() == chunk.tool_call_deltas@[i as int]@);
            assert(chunk@.tool_call_deltas[i as int].index < usize::MAX);
            absorb_one(&mut self.calls, &chunk.tool_call_deltas[i]);
            i += 1;
        }
        assert(chunk@.tool_call_deltas.subrange(0, i as int) =~= chunk@.tool_call_deltas);
        match &chunk.delta {
            Some(text) => Some(StreamEvent::raw_text(text.as_str())),
            None => None,
        }
    }

    /// The answer's text so far.
    pub fn content(&self) -> (content: &str)
        ensures
            content@ == self@.content,
    {
        self.content.as_str()
    }

    /// The number of tool-call buffers so far, named or not.
    pub fn slots(&self) -> (n: usize)
        ensures
            n == self@.calls.len(),
    {
        self.calls.len()
    }

    /// The tool calls that have been put together: one for every buffer
    /// with a name, in the order of the indices. The arguments are read as
    /// JSON only now; text that is not JSON stands for the empty object.
    pub fn tool_calls(&self) -> (calls: Vec<ToolCall>)
        ensures
            calls.deep_view() == finished_calls(self@.calls),
    {
        let mut calls: Vec<ToolCall> = Vec::new();
        let mut i: usize = 0;
        assert(self.calls.deep_view().subrange(0, 0) =~= Seq::empty());
        assert(calls.deep_view() =~= Seq::empty());
        while i < self.calls.len()
            invariant
                i <= self.calls.len(),
                calls.deep_view() == finished_calls(self.calls.deep_view().subrange(0, i as int)),
            decreases self.calls.len() - i,
        {
            let ghost seen = self.calls.deep_view().subrange(0, i as int);
            let ghost next = self.calls.deep_view().subrange(0, i + 1);
            assert(next.drop_last() =~= seen);
            assert(next.last() == self.calls@[i as int]@);
            let buffer = &self.calls[i];
            if !buffer.name.as_str().is_empty() {
                let ghost so_far = calls.deep_view();
                let arguments = JsonValue::or_empty_object(
                    JsonValue::parse(buffer.arguments.as_str()),
                );
                let call = ToolCall {
                    id: buffer.id.clone(),
                    name: buffer.name.clone(),
                    arguments,
                };
                calls.push(call);
                assert(calls.deep_view() =~= so_far.push(call@));
            }
            i += 1;
        }
        assert(self.calls.deep_view().subrange(0, i as int) =~= self.calls.deep_view());
        calls
    }
}

} // verus!
