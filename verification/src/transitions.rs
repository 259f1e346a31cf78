use vstd::prelude::*;

use crate::state::has_item;
use crate::state::item_pos;
use crate::state::ItemView;
use crate::state::Pubkey;
use crate::state::StoreError;
use crate::state::StoreView;
use crate::state::TodoError;
use crate::state::UserProfile;

verus! {

/// The profile a fresh initialization writes: both counters at zero.
pub open spec fn fresh_profile(authority: Pubkey) -> UserProfile {
    UserProfile { authority, last_todo: 0, todo_count: 0 }
}

/// Creates the profile for `authority`. Fails, changing nothing, when one
/// already exists at the derived address.
pub open spec fn spec_initialize_user(s: StoreView, authority: Pubkey) -> (StoreView, Result<
    (),
    StoreError,
>) {
    match s.profile {
        Some(p) => (s, Err(StoreError::AlreadyInitialized)),
        None => (
            StoreView { profile: Some(fresh_profile(authority)), items: s.items },
            Ok(()),
        ),
    }
}

/// Allocates a new item at index `last_todo`, unmarked, and steps both
/// counters with overflow-checked arithmetic; the assigned index is the
/// success value. Fails with `MathOverflow` once a counter stands at the
/// 8-bit ceiling, and changes nothing on any failure.
pub open spec fn spec_add_todo(s: StoreView, authority: Pubkey, content: Seq<char>) -> (StoreView,
    Result<u8, StoreError>,
) {
    match s.profile {
        None => (s, Err(StoreError::NotInitialized)),
        Some(p) => if p.authority != authority {
            (s, Err(StoreError::Todo(TodoError::Unauthorized)))
        } else if p.last_todo == 255 || p.todo_count == 255 {
            (s, Err(StoreError::Todo(TodoError::MathOverflow)))
        } else {
            (
                StoreView {
                    profile: Some(
                        UserProfile {
                            authority: p.authority,
                            last_todo: (p.last_todo + 1) as u8,
                            todo_count: (p.todo_count + 1) as u8,
                        },
                    ),
                    items: s.items.push(
                        ItemView { authority: p.authority, idx: p.last_todo, content, marked: false },
                    ),
                },
                Ok(p.last_todo),
            )
        },
    }
}

/// Resolution common to the per-item instructions: the profile must exist,
/// the signer must be its authority, and an item with the named index must
/// be live. `Ok` carries the item's position.
pub open spec fn resolve_item(s: StoreView, authority: Pubkey, todo_idx: u8) -> Result<
    int,
    StoreError,
> {
    match s.profile {
        None => Err(StoreError::NotInitialized),
        Some(p) => if p.authority != authority {
            Err(StoreError::Todo(TodoError::Unauthorized))
        } else if !has_item(s.items, todo_idx) {
            Err(StoreError::ItemNotFound)
        } else {
            Ok(item_pos(s.items, todo_idx))
        },
    }
}

/// Sets the completion flag of the item at `todo_idx`. Fails with
/// `AlreadyMarked` when the flag is already set, and changes nothing on any
/// failure.
pub open spec fn spec_mark_todo(s: StoreView, authority: Pubkey, todo_idx: u8) -> (StoreView,
    Result<(), StoreError>,
) {
    match resolve_item(s, authority, todo_idx) {
        Err(e) => (s, Err(e)),
        Ok(j) => {
            let it = s.items[j];
            if it.marked {
                (s, Err(StoreError::Todo(TodoError::AlreadyMarked)))
            } else {
                (
                    StoreView {
                        profile: s.profile,
                        items: s.items.update(j, ItemView { marked: true, ..it }),
                    },
                    Ok(()),
                )
            }
        },
    }
}

/// Clears the completion flag of the item at `todo_idx`. Fails with
/// `NotMarked` when the flag is not set, and changes nothing on any failure.
pub open spec fn spec_unmark_todo(s: StoreView, authority: Pubkey, todo_idx: u8) -> (StoreView,
    Result<(), StoreError>,
) {
    match resolve_item(s, authority, todo_idx) {
        Err(e) => (s, Err(e)),
        Ok(j) => {
            let it = s.items[j];
            if !it.marked {
                (s, Err(StoreError::Todo(TodoError::NotMarked)))
            } else {
                (
                    StoreView {
                        profile: s.profile,
                        items: s.items.update(j, ItemView { marked: false, ..it }),
                    },
                    Ok(()),
                )
            }
        },
    }
}

/// Destroys the item at `todo_idx` and steps `todo_count` down with
/// underflow-checked arithmetic; `last_todo` is deliberately left alone, so
/// the index is never handed out again. Changes nothing on any failure.
pub open spec fn spec_remove_todo(s: StoreView, authority: Pubkey, todo_idx: u8) -> (StoreView,
    Result<(), StoreError>,
) {
    match resolve_item(s, authority, todo_idx) {
        Err(e) => (s, Err(e)),
        Ok(j) => {
            let p = s.profile->Some_0;
            if p.todo_count == 0 {
                (s, Err(StoreError::Todo(TodoError::MathOverflow)))
            } else {
                (
                    StoreView {
                        profile: Some(
                            UserProfile {
                                authority: p.authority,
                                last_todo: p.last_todo,
                                todo_count: (p.todo_count - 1) as u8,
                            },
                        ),
                        items: s.items.remove(j),
                    },
                    Ok(()),
                )
            }
        },
    }
}

/// Overwrites the content of the item at `todo_idx`, leaving its index,
/// flag and owner untouched. Changes nothing on any failure.
pub open spec fn spec_update_todo(
    s: StoreView,
    authority: Pubkey,
    todo_idx: u8,
    content: Seq<char>,
) -> (StoreView, Result<(), StoreError>) {
    match resolve_item(s, authority, todo_idx) {
        Err(e) => (s, Err(e)),
        Ok(j) => {
            let it = s.items[j];
            (
                StoreView { profile: s.profile, items: s.items.update(j, ItemView { content, ..it }) },
                Ok(()),
            )
        },
    }
}

} // verus!
