//! The model of a stream: an append-only sequence of entries, oldest first,
//! that can be looked at from its end and read after a cursor.

use vstd::prelude::*;
use crate::events::{EventView, INITIAL_ID};

verus! {

/// The latest entry of `stream`, if it has one.
pub open spec fn peek_latest<P>(stream: Seq<EventView<P>>) -> Option<EventView<P>> {
    if stream.len() == 0 {
        None
    } else {
        Some(stream.last())
    }
}

/// `stream` after `record` was appended and given `id`.
pub open spec fn produce<P>(stream: Seq<EventView<P>>, id: Seq<char>, record: P) -> Seq<
    EventView<P>,
> {
    stream.push(EventView { id, payload: record })
}

/// Every entry has an id of its own, and none has the initial token.
pub open spec fn ids_valid<P>(stream: Seq<EventView<P>>) -> bool {
    &&& forall|i: int| 0 <= i < stream.len() ==> (#[trigger] stream[i]).id != INITIAL_ID@
    &&& forall|i: int, j: int|
        #![trigger stream[i], stream[j]]
        0 <= i < j < stream.len() ==> stream[i].id != stream[j].id
}

/// The cursor of a reader that has read the first `place` entries: the
/// initial token, or the id of the entry that it read last.
pub open spec fn cursor_at<P>(stream: Seq<EventView<P>>, place: int) -> Seq<char> {
    if place <= 0 {
        INITIAL_ID@
    } else {
        stream[place - 1].id
    }
}

/// `cursor` is the cursor of a reader that has read the first `place`
/// entries, and there is an entry left to read.
pub open spec fn entry_follows<P>(stream: Seq<EventView<P>>, cursor: Seq<char>, place: int) -> bool {
    0 <= place < stream.len() && cursor_at(stream, place) == cursor
}

/// The first entry after `cursor`: the entry that follows the one whose id
/// the cursor is, or the first entry for the initial token. None where the
/// cursor is the id of the latest entry, or of no entry.
pub open spec fn consume_after<P>(stream: Seq<EventView<P>>, cursor: Seq<char>) -> Option<
    EventView<P>,
> {
    if exists|place: int| entry_follows(stream, cursor, place) {
        Some(stream[choose|place: int| entry_follows(stream, cursor, place)])
    } else {
        None
    }
}

/// A reader that has read the first `place` entries of a stream with valid
/// ids reads the entry at `place` next, and nothing where it has read them
/// all.
pub proof fn lemma_consume_at<P>(stream: Seq<EventView<P>>, place: int)
    requires
        ids_valid(stream),
        0 <= place <= stream.len(),
    ensures
        consume_after(stream, cursor_at(stream, place)) == if place < stream.len() {
            Some(stream[place])
        } else {
            None::<EventView<P>>
        },
{
    let cursor = cursor_at(stream, place);
    assert forall|other: int| entry_follows(stream, cursor, other) implies other == place by {
        if other < place {
            if other > 0 {
                assert(stream[other - 1].id != stream[place - 1].id);
            } else {
                assert(stream[place - 1].id != INITIAL_ID@);
            }
        } else if other > place {
            if place > 0 {
                assert(stream[place - 1].id != stream[other - 1].id);
            } else {
                assert(stream[other - 1].id != INITIAL_ID@);
            }
        }
    }
    if place < stream.len() {
        assert(entry_follows(stream, cursor, place));
    }
}

} // verus!
