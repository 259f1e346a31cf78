use vstd::prelude::*;

use crate::state::has_item;
use crate::state::item_pos;
use crate::state::store_wf;
use crate::state::ItemView;
use crate::state::Pubkey;
use crate::state::StoreError;
use crate::state::StoreView;
use crate::state::TodoError;
use crate::state::UserProfile;
use crate::transitions::resolve_item;
use crate::transitions::spec_add_todo;
use crate::transitions::spec_initialize_user;
use crate::transitions::spec_mark_todo;
use crate::transitions::spec_remove_todo;
use crate::transitions::spec_unmark_todo;
use crate::transitions::spec_update_todo;

verus! {

/// The store an initialization followed by one successful add per entry of
/// `contents` reaches, starting from nothing.
pub open spec fn after_adds(authority: Pubkey, contents: Seq<Seq<char>>) -> StoreView
    decreases contents.len(),
{
    if contents.len() <= 0 {
        spec_initialize_user(
            StoreView { profile: None, items: Seq::<ItemView>::empty() },
            authority,
        ).0
    } else {
        spec_add_todo(after_adds(authority, contents.drop_last()), authority, contents.last()).0
    }
}

/// After an initialization and `contents.len()` adds, as long as the 8-bit
/// ceiling is not reached, both profile counters stand at exactly the
/// number of adds, and one item is live per add.
proof fn lemma_after_adds_counters(authority: Pubkey, contents: Seq<Seq<char>>)
    requires
        contents.len() <= 255,
    ensures
        after_adds(authority, contents).profile == Some(
            UserProfile {
                authority,
                last_todo: contents.len() as u8,
                todo_count: contents.len() as u8,
            },
        ),
        after_adds(authority, contents).items.len() == contents.len(),
    decreases contents.len(),
{
    if contents.len() > 0 {
        lemma_after_adds_counters(authority, contents.drop_last());
    }
}

/// In any run that initializes a profile and then only adds items, the call
/// that hands out the Nth item assigns it index N - 1 and raises
/// `item_count` by exactly one, until the 256th add, which fails with
/// `MathOverflow`: the 8-bit index space is a lifetime ceiling.
pub proof fn lemma_add_todo_sequence(authority: Pubkey, contents: Seq<Seq<char>>)
    ensures
        forall|i: int|
            0 <= i < contents.len() && i < 255 ==> (#[trigger] spec_add_todo(
                after_adds(authority, contents.take(i)),
                authority,
                contents[i],
            )).1 == Ok::<u8, StoreError>(i as u8),
        forall|i: int|
            0 <= i < contents.len() && i < 255 ==> (#[trigger] spec_add_todo(
                after_adds(authority, contents.take(i)),
                authority,
                contents[i],
            )).0.profile->Some_0.todo_count == i + 1,
        contents.len() > 255 ==> spec_add_todo(
            after_adds(authority, contents.take(255)),
            authority,
            contents[255],
        ).1 == Err::<u8, StoreError>(StoreError::Todo(TodoError::MathOverflow)),
        contents.len() > 255 ==> spec_add_todo(
            after_adds(authority, contents.take(255)),
            authority,
            contents[255],
        ).0 == after_adds(authority, contents.take(255)),
{
    assert forall|i: int| 0 <= i < contents.len() && i < 255 implies (#[trigger] spec_add_todo(
        after_adds(authority, contents.take(i)),
        authority,
        contents[i],
    )).1 == Ok::<u8, StoreError>(i as u8) && (spec_add_todo(
        after_adds(authority, contents.take(i)),
        authority,
        contents[i],
    )).0.profile->Some_0.todo_count == i + 1 by {
        lemma_after_adds_counters(authority, contents.take(i));
    }
    if contents.len() > 255 {
        lemma_after_adds_counters(authority, contents.take(255));
    }
}

/// Marking an already-marked item always fails with `AlreadyMarked` and
/// leaves the store unchanged.
pub proof fn lemma_mark_todo_already_marked(s: StoreView, authority: Pubkey, todo_idx: u8)
    requires
        store_wf(s),
        resolve_item(s, authority, todo_idx) is Ok,
        s.items[item_pos(s.items, todo_idx)].marked,
    ensures
        spec_mark_todo(s, authority, todo_idx).0 == s,
        spec_mark_todo(s, authority, todo_idx).1 == Err::<(), StoreError>(
            StoreError::Todo(TodoError::AlreadyMarked),
        ),
{
}

/// Unmarking an item that is not marked always fails with `NotMarked` and
/// leaves the store unchanged.
pub proof fn lemma_unmark_todo_not_marked(s: StoreView, authority: Pubkey, todo_idx: u8)
    requires
        store_wf(s),
        resolve_item(s, authority, todo_idx) is Ok,
        !s.items[item_pos(s.items, todo_idx)].marked,
    ensures
        spec_unmark_todo(s, authority, todo_idx).0 == s,
        spec_unmark_todo(s, authority, todo_idx).1 == Err::<(), StoreError>(
            StoreError::Todo(TodoError::NotMarked),
        ),
{
}

/// Removing a live item succeeds, steps `item_count` down by exactly one,
/// and leaves no record at that index, so every later mark, unmark, update
/// or remove naming the index fails: the record no longer exists.
pub proof fn lemma_remove_todo_item_gone(s: StoreView, authority: Pubkey, todo_idx: u8)
    requires
        store_wf(s),
        resolve_item(s, authority, todo_idx) is Ok,
    ensures
        ({
            let post = spec_remove_todo(s, authority, todo_idx).0;
            &&& spec_remove_todo(s, authority, todo_idx).1 == Ok::<(), StoreError>(())
            &&& post.profile->Some_0.todo_count == s.profile->Some_0.todo_count - 1
            &&& !has_item(post.items, todo_idx)
            &&& spec_mark_todo(post, authority, todo_idx) == (
                post,
                Err::<(), StoreError>(StoreError::ItemNotFound),
            )
            &&& spec_unmark_todo(post, authority, todo_idx) == (
                post,
                Err::<(), StoreError>(StoreError::ItemNotFound),
            )
            &&& forall|c: Seq<char>|
                #[trigger] spec_update_todo(post, authority, todo_idx, c) == (
                    post,
                    Err::<(), StoreError>(StoreError::ItemNotFound),
                )
            &&& spec_remove_todo(post, authority, todo_idx) == (
                post,
                Err::<(), StoreError>(StoreError::ItemNotFound),
            )
        }),
{
    let j = item_pos(s.items, todo_idx);
    let post = spec_remove_todo(s, authority, todo_idx).0;
    assert(0 <= j < s.items.len() && s.items[j].idx == todo_idx);
    assert(!has_item(post.items, todo_idx)) by {
        if has_item(post.items, todo_idx) {
            let k = choose|k: int|
                0 <= k < post.items.len() && post.items[k].idx == todo_idx;
            let ki = if k < j {
                k
            } else {
                k + 1
            };
            assert(post.items[k] == s.items[ki]);
            if ki < j {
                assert(s.items[ki].idx != s.items[j].idx);
            } else {
                assert(s.items[j].idx != s.items[ki].idx);
            }
        }
    }
}

/// Updating an item's content alters neither its completion flag nor its
/// index nor its owner, and touches no other record.
pub proof fn lemma_update_todo_content_only(
    s: StoreView,
    authority: Pubkey,
    todo_idx: u8,
    content: Seq<char>,
)
    requires
        store_wf(s),
        resolve_item(s, authority, todo_idx) is Ok,
    ensures
        ({
            let post = spec_update_todo(s, authority, todo_idx, content).0;
            let j = item_pos(s.items, todo_idx);
            &&& spec_update_todo(s, authority, todo_idx, content).1 == Ok::<(), StoreError>(())
            &&& post.profile == s.profile
            &&& post.items.len() == s.items.len()
            &&& post.items[j].content == content
            &&& post.items[j].idx == s.items[j].idx
            &&& post.items[j].marked == s.items[j].marked
            &&& post.items[j].authority == s.items[j].authority
            &&& forall|k: int|
                0 <= k < s.items.len() && k != j ==> #[trigger] post.items[k] == s.items[k]
        }),
{
}

} // verus!
