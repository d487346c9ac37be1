//! Histories: what a sequence of commands, served one after another, does to
//! a store and how each command is answered.

use crate::command::CommandView;
use crate::frame::FrameView;
use crate::store::{lookup, Contents};
use vstd::prelude::*;

verus! {

/// The contents once `command` was served on `contents`: a set overwrites
/// the key, every other command leaves the contents as they are.
pub open spec fn contents_after(contents: Contents, command: CommandView) -> Contents {
    match command {
        CommandView::SetKey { key, value } => contents.insert(key, value),
        _ => contents,
    }
}

/// The frame that answers `command` on `contents`, or `None` where the
/// command is not served: `OK` for a set; for a get the value as a bulk
/// frame, or the null frame where the key is absent.
pub open spec fn answer(contents: Contents, command: CommandView) -> Option<FrameView> {
    match command {
        CommandView::SetKey { .. } => Some(FrameView::Simple("OK"@)),
        CommandView::Get { key } => Some(
            match lookup(contents, key) {
                Some(value) => FrameView::Bulk(value),
                None => FrameView::Null,
            },
        ),
        CommandView::Unsupported { .. } => None,
    }
}

/// Whether `command` is one that is served: a get or a set.
pub open spec fn served(command: CommandView) -> bool {
    command is Get || command is SetKey
}

/// The contents once every command of `history` was served, first to last.
pub open spec fn replay(contents: Contents, history: Seq<CommandView>) -> Contents
    decreases history.len(),
{
    if history.len() == 0 {
        contents
    } else {
        contents_after(replay(contents, history.drop_last()), history.last())
    }
}

/// Whether `command` sets `key`.
pub open spec fn sets(command: CommandView, key: Seq<char>) -> bool {
    command matches CommandView::SetKey { key: target, .. } && target == key
}

/// Whether `command` reads or sets one of `keys`.
pub open spec fn touches(command: CommandView, keys: Set<Seq<char>>) -> bool {
    match command {
        CommandView::Get { key } => keys.contains(key),
        CommandView::SetKey { key, .. } => keys.contains(key),
        CommandView::Unsupported { .. } => false,
    }
}

/// Whether no command of `history` sets `key`.
pub open spec fn never_sets(history: Seq<CommandView>, key: Seq<char>) -> bool {
    forall|i: int| 0 <= i < history.len() ==> !sets(#[trigger] history[i], key)
}

/// A history that never sets a key leaves the key as it was.
pub proof fn lemma_untouched_key_keeps_its_value(
    contents: Contents,
    history: Seq<CommandView>,
    key: Seq<char>,
)
    requires
        never_sets(history, key),
    ensures
        lookup(replay(contents, history), key) == lookup(contents, key),
    decreases history.len(),
{
    if history.len() > 0 {
        let earlier = history.drop_last();
        assert(never_sets(earlier, key)) by {
            assert forall|i: int| 0 <= i < earlier.len() implies !sets(
                #[trigger] earlier[i],
                key,
            ) by {
                assert(earlier[i] == history[i]);
            }
        }
        lemma_untouched_key_keeps_its_value(contents, earlier, key);
        assert(!sets(history[history.len() - 1], key));
    }
}

/// Replaying two histories one after the other is replaying their
/// concatenation.
pub proof fn lemma_replay_concatenation(
    contents: Contents,
    first: Seq<CommandView>,
    second: Seq<CommandView>,
)
    ensures
        replay(contents, first + second) == replay(replay(contents, first), second),
    decreases second.len(),
{
    if second.len() == 0 {
        assert(first + second =~= first);
    } else {
        lemma_replay_concatenation(contents, first, second.drop_last());
        assert((first + second).drop_last() =~= first + second.drop_last());
        assert((first + second).last() == second.last());
    }
}

/// A get that follows a set of the same key, with no set of that key in
/// between, is answered with exactly the value that was set, whatever came
/// before the set and whatever else was served in between.
pub proof fn lemma_get_after_set_returns_the_value(
    contents: Contents,
    before: Seq<CommandView>,
    key: Seq<char>,
    value: Seq<u8>,
    between: Seq<CommandView>,
)
    requires
        never_sets(between, key),
    ensures
        ({
            let history = before + seq![CommandView::SetKey { key, value }] + between;
            &&& lookup(replay(contents, history), key) == Some(value)
            &&& answer(replay(contents, history), CommandView::Get { key }) == Some(
                FrameView::Bulk(value),
            )
        }),
{
    let written = seq![CommandView::SetKey { key, value }];
    lemma_replay_concatenation(contents, before + written, between);
    lemma_replay_concatenation(contents, before, written);
    let at_set = replay(replay(contents, before), written);
    assert(written.drop_last() =~= Seq::<CommandView>::empty());
    assert(replay(replay(contents, before), written.drop_last()) == replay(contents, before));
    assert(at_set == replay(contents, before).insert(key, value));
    lemma_untouched_key_keeps_its_value(at_set, between, key);
}

/// A get of a key that was never set is answered with the null frame: on a
/// store that starts empty, after any history without a set of that key.
pub proof fn lemma_get_of_unset_key_is_null(history: Seq<CommandView>, key: Seq<char>)
    requires
        never_sets(history, key),
    ensures
        lookup(replay(Contents::empty(), history), key) == None::<Seq<u8>>,
        answer(replay(Contents::empty(), history), CommandView::Get { key }) == Some(
            FrameView::Null,
        ),
{
    lemma_untouched_key_keeps_its_value(Contents::empty(), history, key);
}

/// The last writer wins: where two sets of one key were served in some order
/// and no set of that key follows the second, a get returns the value of
/// the second, whatever other commands were served before, between and
/// after them.
pub proof fn lemma_last_writer_wins(
    contents: Contents,
    before: Seq<CommandView>,
    key: Seq<char>,
    first: Seq<u8>,
    between: Seq<CommandView>,
    second: Seq<u8>,
    after: Seq<CommandView>,
)
    requires
        never_sets(after, key),
    ensures
        ({
            let history = before + seq![CommandView::SetKey { key, value: first }] + between
                + seq![CommandView::SetKey { key, value: second }] + after;
            &&& lookup(replay(contents, history), key) == Some(second)
            &&& answer(replay(contents, history), CommandView::Get { key }) == Some(
                FrameView::Bulk(second),
            )
        }),
{
    let earlier = before + seq![CommandView::SetKey { key, value: first }] + between;
    lemma_get_after_set_returns_the_value(contents, earlier, key, second, after);
}

/// The commands of `history` that read or set one of `keys`, in their order.
pub open spec fn restricted(history: Seq<CommandView>, keys: Set<Seq<char>>) -> Seq<CommandView> {
    history.filter(|command: CommandView| touches(command, keys))
}

/// One served command with the frame that answered it.
pub struct Exchange {
    pub command: CommandView,
    pub answer: Option<FrameView>,
}

/// What the issuers of `history` observed: each command with its answer, in
/// the order in which the commands were served.
pub open spec fn transcript(contents: Contents, history: Seq<CommandView>) -> Seq<Exchange>
    decreases history.len(),
{
    if history.len() == 0 {
        Seq::empty()
    } else {
        transcript(contents, history.drop_last()).push(
            Exchange {
                command: history.last(),
                answer: answer(replay(contents, history.drop_last()), history.last()),
            },
        )
    }
}

/// A transcript has one exchange for each command of the history.
pub proof fn lemma_transcript_length(contents: Contents, history: Seq<CommandView>)
    ensures
        transcript(contents, history).len() == history.len(),
    decreases history.len(),
{
    if history.len() > 0 {
        lemma_transcript_length(contents, history.drop_last());
    }
}

/// The value of a key depends only on the commands that touch a set of keys
/// to which it belongs: commands on other keys can be left out of the
/// history.
pub proof fn lemma_value_ignores_other_keys(
    contents: Contents,
    history: Seq<CommandView>,
    keys: Set<Seq<char>>,
    key: Seq<char>,
)
    requires
        keys.contains(key),
    ensures
        lookup(replay(contents, history), key) == lookup(
            replay(contents, restricted(history, keys)),
            key,
        ),
    decreases history.len(),
{
    reveal(Seq::filter);
    if history.len() > 0 {
        let earlier = history.drop_last();
        let last = history.last();
        lemma_value_ignores_other_keys(contents, earlier, keys, key);
        if touches(last, keys) {
            let kept = restricted(earlier, keys);
            assert(restricted(history, keys) == kept.push(last));
            assert(kept.push(last).drop_last() =~= kept);
        }
    }
}

/// No interference between disjoint keys: what the issuers of the commands
/// on `keys` observed in a history that interleaves them with commands on
/// other keys is what they would have observed had their commands been
/// served alone, in the same order.
pub proof fn lemma_disjoint_keys_do_not_interfere(
    contents: Contents,
    history: Seq<CommandView>,
    keys: Set<Seq<char>>,
)
    ensures
        transcript(contents, history).filter(|exchange: Exchange| touches(exchange.command, keys))
            == transcript(contents, restricted(history, keys)),
    decreases history.len(),
{
    reveal(Seq::filter);
    if history.len() > 0 {
        let earlier = history.drop_last();
        let last = history.last();
        let exchange = Exchange { command: last, answer: answer(replay(contents, earlier), last) };
        lemma_disjoint_keys_do_not_interfere(contents, earlier, keys);
        assert(transcript(contents, history).drop_last() =~= transcript(contents, earlier));
        assert(transcript(contents, history).last() == exchange);
        if touches(last, keys) {
            let kept = restricted(earlier, keys);
            assert(restricted(history, keys) == kept.push(last));
            assert(kept.push(last).drop_last() =~= kept);
            if let CommandView::Get { key } = last {
                lemma_value_ignores_other_keys(contents, earlier, keys, key);
            }
            assert(answer(replay(contents, kept), last) == exchange.answer);
        }
    }
}

} // verus!
