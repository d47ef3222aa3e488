//! What the line reader yields over a whole transport, and the proof that it
//! does not depend on how the transport cuts its bytes into chunks.

use vstd::prelude::*;
use crate::reader::{fresh, read_step, OutcomeView, ReaderView};
use crate::scan::{
    absent, is_first, lemma_position_facts, lemma_position_none, lemma_position_some, position,
};

verus! {

/// The delimiter-terminated lines of `data`, each with its delimiter. What
/// follows the last delimiter is no line and is left out.
pub open spec fn split_lines(data: Seq<u8>, byte: u8) -> Seq<Seq<u8>>
    decreases data.len(),
{
    match position(data, byte) {
        Some(i) => if 0 <= i < data.len() {
            seq![data.subrange(0, i + 1)] + split_lines(
                data.subrange(i + 1, data.len() as int),
                byte,
            )
        } else {
            Seq::empty()
        },
        None => Seq::empty(),
    }
}

/// The bytes of all chunks, in order.
pub open spec fn joined(chunks: Seq<Seq<u8>>) -> Seq<u8>
    decreases chunks.len(),
{
    if chunks.len() == 0 {
        Seq::empty()
    } else {
        chunks[0] + joined(chunks.drop_first())
    }
}

/// No chunk is empty: a transport offers an empty chunk only to say that it
/// has ended.
pub open spec fn all_nonempty(chunks: Seq<Seq<u8>>) -> bool {
    forall|k: int| 0 <= k < chunks.len() ==> (#[trigger] chunks[k]).len() > 0
}

/// What the transport offers after `used` bytes of its first chunk were
/// consumed: the rest of that chunk, if there is one, and then the others.
pub open spec fn after_consume(chunks: Seq<Seq<u8>>, used: nat) -> Seq<Seq<u8>> {
    if used >= chunks[0].len() {
        chunks.drop_first()
    } else {
        chunks.update(0, chunks[0].subrange(used as int, chunks[0].len() as int))
    }
}

/// The lines that a reader in state `state` yields when the transport offers
/// `chunks` and then ends. The reader is stepped once per offer; after a
/// complete line its buffer is taken and cleared. It may be suspended between
/// any two steps: nothing but `state` passes from one step to the next.
pub open spec fn lines_read(state: ReaderView, chunks: Seq<Seq<u8>>, byte: u8) -> Seq<Seq<u8>>
    decreases chunks.len(), (if chunks.len() > 0 { chunks[0].len() } else { 0 }),
{
    if chunks.len() == 0 {
        Seq::empty()
    } else {
        let (next, step) = read_step(state, byte, chunks[0]);
        match step.outcome {
            OutcomeView::EndOfInput => Seq::empty(),
            OutcomeView::Incomplete => lines_read(next, chunks.drop_first(), byte),
            OutcomeView::Complete(_) => if 0 < step.used {
                seq![next.buffer] + lines_read(fresh(), after_consume(chunks, step.used), byte)
            } else {
                Seq::empty()
            },
        }
    }
}

proof fn lemma_joined_one(chunk: Seq<u8>)
    ensures
        joined(seq![chunk]) == chunk,
{
    let one = seq![chunk];
    assert(one.drop_first() =~= Seq::<Seq<u8>>::empty());
    assert(joined(one.drop_first()) =~= Seq::<u8>::empty());
    assert(joined(one) =~= chunk);
}

proof fn lemma_joined_after_consume(chunks: Seq<Seq<u8>>, used: nat)
    requires
        chunks.len() > 0,
        used <= chunks[0].len(),
    ensures
        joined(after_consume(chunks, used)) == chunks[0].subrange(
            used as int,
            chunks[0].len() as int,
        ) + joined(chunks.drop_first()),
{
    let rest = chunks[0].subrange(used as int, chunks[0].len() as int);
    if used >= chunks[0].len() {
        assert(rest + joined(chunks.drop_first()) =~= joined(chunks.drop_first()));
    } else {
        let next = chunks.update(0, rest);
        assert(next.drop_first() =~= chunks.drop_first());
        assert(next[0] == rest);
    }
}

/// Without a delimiter there is no line.
pub proof fn lemma_split_lines_absent(data: Seq<u8>, byte: u8)
    requires
        absent(data, byte),
    ensures
        split_lines(data, byte) == Seq::<Seq<u8>>::empty(),
{
    lemma_position_none(data, byte);
}

/// With the first delimiter at `i`, the first line ends there and the others
/// are the lines of what follows.
pub proof fn lemma_split_lines_first(data: Seq<u8>, byte: u8, i: int)
    requires
        is_first(data, byte, i),
    ensures
        split_lines(data, byte) == seq![data.subrange(0, i + 1)] + split_lines(
            data.subrange(i + 1, data.len() as int),
            byte,
        ),
{
    lemma_position_some(data, byte, i);
}

/// A reader whose buffer holds no delimiter yields, over any chunks, the lines
/// of its buffer followed by the chunks' bytes.
pub proof fn lemma_lines_read(state: ReaderView, chunks: Seq<Seq<u8>>, byte: u8)
    requires
        all_nonempty(chunks),
        absent(state.buffer, byte),
    ensures
        lines_read(state, chunks, byte) == split_lines(state.buffer + joined(chunks), byte),
    decreases chunks.len(), (if chunks.len() > 0 { chunks[0].len() } else { 0 }),
{
    if chunks.len() == 0 {
        assert(state.buffer + joined(chunks) =~= state.buffer);
        lemma_split_lines_absent(state.buffer, byte);
    } else {
        let chunk = chunks[0];
        let others = chunks.drop_first();
        let data = state.buffer + joined(chunks);
        let (next, step) = read_step(state, byte, chunk);
        assert(chunk.len() > 0);
        assert(all_nonempty(others)) by {
            assert forall|k: int| 0 <= k < others.len() implies (#[trigger] others[k]).len()
                > 0 by {
                assert(others[k] == chunks[k + 1]);
            }
        }
        lemma_position_facts(chunk, byte);
        match position(chunk, byte) {
            Some(i) => {
                let at = state.buffer.len() + i;
                assert(is_first(data, byte, at)) by {
                    assert(data[at] == chunk[i]);
                    assert forall|j: int| 0 <= j < at implies data[j] != byte by {
                        if j < state.buffer.len() {
                            assert(data[j] == state.buffer[j]);
                        } else {
                            assert(data[j] == chunk[j - state.buffer.len()]);
                        }
                    }
                }
                lemma_split_lines_first(data, byte, at);
                assert(data.subrange(0, at + 1) =~= next.buffer);
                let following = after_consume(chunks, step.used);
                lemma_joined_after_consume(chunks, step.used);
                assert(data.subrange(at + 1, data.len() as int) =~= fresh().buffer + joined(
                    following,
                ));
                assert(all_nonempty(following)) by {
                    assert forall|k: int| 0 <= k < following.len() implies (
                    #[trigger] following[k]).len() > 0 by {
                        if step.used >= chunk.len() {
                            assert(following[k] == chunks[k + 1]);
                        } else if k > 0 {
                            assert(following[k] == chunks[k]);
                        }
                    }
                }
                lemma_lines_read(fresh(), following, byte);
            },
            None => {
                assert(absent(next.buffer, byte)) by {
                    assert forall|j: int| 0 <= j < next.buffer.len() implies next.buffer[j]
                        != byte by {
                        if j < state.buffer.len() {
                            assert(next.buffer[j] == state.buffer[j]);
                        } else {
                            assert(next.buffer[j] == chunk[j - state.buffer.len()]);
                        }
                    }
                }
                assert(next.buffer + joined(others) =~= data);
                lemma_lines_read(next, others, byte);
            },
        }
    }
}

/// Chunking invariance. However the transport cuts its bytes into non-empty
/// chunks, and wherever the reader is suspended between them, a reader that
/// starts empty yields the lines that it yields when all the bytes come as one
/// chunk: the delimiter-terminated lines of the bytes, in order, each once.
pub proof fn lemma_chunking_invariance(chunks: Seq<Seq<u8>>, byte: u8)
    requires
        all_nonempty(chunks),
    ensures
        lines_read(fresh(), chunks, byte) == split_lines(joined(chunks), byte),
        lines_read(fresh(), chunks, byte) == lines_read(fresh(), seq![joined(chunks)], byte),
{
    let data = joined(chunks);
    lemma_lines_read(fresh(), chunks, byte);
    assert(fresh().buffer + data =~= data);
    let whole = seq![data];
    lemma_joined_one(data);
    if data.len() == 0 {
        lemma_position_none(data, byte);
    } else {
        lemma_lines_read(fresh(), whole, byte);
    }
}

/// An unterminated tail is never a line: where the bytes end without a
/// delimiter, the reader yields the lines before the tail and nothing for it;
/// where they hold no delimiter at all, it yields nothing.
pub proof fn lemma_unterminated_tail_dropped(chunks: Seq<Seq<u8>>, tail: Seq<u8>, byte: u8)
    requires
        all_nonempty(chunks),
        tail.len() > 0,
        absent(tail, byte),
    ensures
        lines_read(fresh(), chunks.push(tail), byte) == lines_read(fresh(), chunks, byte),
        lines_read(fresh(), seq![tail], byte) == Seq::<Seq<u8>>::empty(),
{
    let all = chunks.push(tail);
    lemma_chunking_invariance(chunks, byte);
    lemma_chunking_invariance(all, byte);
    lemma_joined_push(chunks, tail);
    lemma_split_lines_tail(joined(chunks), tail, byte);
    lemma_unterminated_tail_dropped_first(tail, byte);
}

proof fn lemma_unterminated_tail_dropped_first(tail: Seq<u8>, byte: u8)
    requires
        tail.len() > 0,
        absent(tail, byte),
    ensures
        lines_read(fresh(), seq![tail], byte) == Seq::<Seq<u8>>::empty(),
{
    let one = seq![tail];
    lemma_chunking_invariance(one, byte);
    lemma_joined_one(tail);
    lemma_split_lines_absent(tail, byte);
}

proof fn lemma_joined_push(chunks: Seq<Seq<u8>>, last: Seq<u8>)
    ensures
        joined(chunks.push(last)) == joined(chunks) + last,
    decreases chunks.len(),
{
    let all = chunks.push(last);
    if chunks.len() == 0 {
        assert(all =~= seq![last]);
        lemma_joined_one(last);
        assert(joined(chunks) + last =~= last);
    } else {
        assert(all.drop_first() =~= chunks.drop_first().push(last));
        lemma_joined_push(chunks.drop_first(), last);
        assert(joined(all) =~= joined(chunks) + last);
    }
}

/// Bytes without a delimiter, put after `data`, add no line.
proof fn lemma_split_lines_tail(data: Seq<u8>, tail: Seq<u8>, byte: u8)
    requires
        absent(tail, byte),
    ensures
        split_lines(data + tail, byte) == split_lines(data, byte),
    decreases data.len(),
{
    let all = data + tail;
    lemma_position_facts(data, byte);
    match position(data, byte) {
        Some(i) => {
            assert(is_first(all, byte, i)) by {
                assert(all[i] == data[i]);
                assert forall|j: int| 0 <= j < i implies all[j] != byte by {
                    assert(all[j] == data[j]);
                }
            }
            lemma_split_lines_first(all, byte, i);
            lemma_split_lines_first(data, byte, i);
            let rest = data.subrange(i + 1, data.len() as int);
            assert(all.subrange(i + 1, all.len() as int) =~= rest + tail);
            assert(all.subrange(0, i + 1) =~= data.subrange(0, i + 1));
            lemma_split_lines_tail(rest, tail, byte);
        },
        None => {
            assert(absent(all, byte)) by {
                assert forall|j: int| 0 <= j < all.len() implies all[j] != byte by {
                    if j < data.len() {
                        assert(all[j] == data[j]);
                    } else {
                        assert(all[j] == tail[j - data.len()]);
                    }
                }
            }
            lemma_split_lines_absent(all, byte);
            lemma_split_lines_absent(data, byte);
        },
    }
}

} // verus!
