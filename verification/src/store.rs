use vstd::prelude::*;

use crate::state::has_item;
use crate::state::item_pos;
use crate::state::pubkey_eq;
use crate::state::store_wf;
use crate::state::ItemView;
use crate::state::Pubkey;
use crate::state::StoreError;
use crate::state::StoreView;
use crate::state::TodoAccount;
use crate::state::TodoError;
use crate::state::UserProfile;
use crate::transitions::resolve_item;
use crate::transitions::spec_add_todo;
use crate::transitions::spec_initialize_user;
use crate::transitions::spec_mark_todo;
use crate::transitions::spec_remove_todo;
use crate::transitions::spec_unmark_todo;
use crate::transitions::spec_update_todo;

verus! {

/// Everything stored under one owner identity: the profile record, once
/// initialized, and the live item records. Stands for the slice of the
/// account store reachable from the derived addresses
/// `("USER_STATE", authority)` and `("TODO_STATE", authority, idx)`.
pub struct TodoList {
    pub profile: Option<UserProfile>,
    pub items: Vec<TodoAccount>,
}

impl View for TodoList {
    type V = StoreView;

    open spec fn view(&self) -> StoreView {
        StoreView {
            profile: self.profile,
            items: self.items@.map_values(|t: TodoAccount| t@),
        }
    }
}

impl TodoList {
    /// An empty store: no profile yet, no items.
    pub fn new() -> (s: Self)
        ensures
            s@ == (StoreView { profile: None, items: Seq::<ItemView>::empty() }),
            store_wf(s@),
    {
        let s = TodoList { profile: None, items: Vec::new() };
        proof {
            assert(s@.items =~= Seq::<ItemView>::empty());
        }
        s
    }

    /// The position of the live item with index `todo_idx`, if any.
    fn find_item(&self, todo_idx: u8) -> (r: Option<usize>)
        ensures
            match r {
                Some(j) => j < self.items@.len() && self@.items[j as int].idx == todo_idx,
                None => !has_item(self@.items, todo_idx),
            },
    {
        let mut i: usize = 0;
        while i < self.items.len()
            invariant
                0 <= i <= self.items@.len(),
                forall|k: int| 0 <= k < i ==> (#[trigger] self@.items[k]).idx != todo_idx,
            decreases self.items@.len() - i,
        {
            if self.items[i].idx == todo_idx {
                return Some(i);
            }
            i = i + 1;
        }
        None
    }

    /// Creates the profile for `authority`; rejected when it already exists.
    pub fn initialize_user(&mut self, authority: Pubkey) -> (r: Result<(), StoreError>)
        requires
            store_wf(old(self)@),
        ensures
            store_wf(final(self)@),
            r == spec_initialize_user(old(self)@, authority).1,
            final(self)@ == spec_initialize_user(old(self)@, authority).0,
    {
        if self.profile.is_some() {
            return Err(StoreError::AlreadyInitialized);
        }
        self.profile = Some(
            UserProfile { authority, last_todo: 0, todo_count: 0 },
        );
        proof {
            assert(self@ =~= spec_initialize_user(old(self)@, authority).0);
        }
        Ok(())
    }

    /// Allocates a new item with the given content at the next free index,
    /// unmarked, and steps both profile counters; returns the assigned
    /// index. Rejected on a missing profile, a foreign signer, or a counter
    /// at the 8-bit ceiling.
    pub fn add_todo(&mut self, authority: Pubkey, content: String) -> (r: Result<u8, StoreError>)
        requires
            store_wf(old(self)@),
        ensures
            store_wf(final(self)@),
            r == spec_add_todo(old(self)@, authority, content@).1,
            final(self)@ == spec_add_todo(old(self)@, authority, content@).0,
    {
        let p = match &self.profile {
            None => {
                return Err(StoreError::NotInitialized);
            },
            Some(p) => *p,
        };
        if !pubkey_eq(&p.authority, &authority) {
            return Err(StoreError::Todo(TodoError::Unauthorized));
        }
        if p.last_todo == 255 || p.todo_count == 255 {
            return Err(StoreError::Todo(TodoError::MathOverflow));
        }
        let idx = p.last_todo;
        self.items.push(
            TodoAccount { authority: p.authority, idx, content, marked: false },
        );
        self.profile = Some(
            UserProfile {
                authority: p.authority,
                last_todo: idx + 1,
                todo_count: p.todo_count + 1,
            },
        );
        proof {
            assert(self@.items =~= spec_add_todo(old(self)@, authority, content@).0.items);
            assert(self@ =~= spec_add_todo(old(self)@, authority, content@).0);
        }
        Ok(idx)
    }

    /// Sets the completion flag of the item at `todo_idx`; rejected when the
    /// item is already marked, or cannot be resolved.
    pub fn mark_todo(&mut self, authority: Pubkey, todo_idx: u8) -> (r: Result<(), StoreError>)
        requires
            store_wf(old(self)@),
        ensures
            store_wf(final(self)@),
            r == spec_mark_todo(old(self)@, authority, todo_idx).1,
            final(self)@ == spec_mark_todo(old(self)@, authority, todo_idx).0,
    {
        let j = match self.resolve(authority, todo_idx) {
            Err(e) => {
                return Err(e);
            },
            Ok(j) => j,
        };
        if self.items[j].marked {
            return Err(StoreError::Todo(TodoError::AlreadyMarked));
        }
        self.items[j].marked = true;
        proof {
            assert(self@.items =~= spec_mark_todo(old(self)@, authority, todo_idx).0.items);
            assert(self@ =~= spec_mark_todo(old(self)@, authority, todo_idx).0);
        }
        Ok(())
    }

    /// Clears the completion flag of the item at `todo_idx`; rejected when
    /// the item is not marked, or cannot be resolved.
    pub fn unmark_todo(&mut self, authority: Pubkey, todo_idx: u8) -> (r: Result<(), StoreError>)
        requires
            store_wf(old(self)@),
        ensures
            store_wf(final(self)@),
            r == spec_unmark_todo(old(self)@, authority, todo_idx).1,
            final(self)@ == spec_unmark_todo(old(self)@, authority, todo_idx).0,
    {
        let j = match self.resolve(authority, todo_idx) {
            Err(e) => {
                return Err(e);
            },
            Ok(j) => j,
        };
        if !self.items[j].marked {
            return Err(StoreError::Todo(TodoError::NotMarked));
        }
        self.items[j].marked = false;
        proof {
            assert(self@.items =~= spec_unmark_todo(old(self)@, authority, todo_idx).0.items);
            assert(self@ =~= spec_unmark_todo(old(self)@, authority, todo_idx).0);
        }
        Ok(())
    }

    /// Destroys the item at `todo_idx` and steps `todo_count` down;
    /// `last_todo` stays, so the index is never handed out again. Rejected
    /// when the item cannot be resolved.
    pub fn remove_todo(&mut self, authority: Pubkey, todo_idx: u8) -> (r: Result<(), StoreError>)
        requires
            store_wf(old(self)@),
        ensures
            store_wf(final(self)@),
            r == spec_remove_todo(old(self)@, authority, todo_idx).1,
            final(self)@ == spec_remove_todo(old(self)@, authority, todo_idx).0,
    {
        let j = match self.resolve(authority, todo_idx) {
            Err(e) => {
                return Err(e);
            },
            Ok(j) => j,
        };
        let p = match &self.profile {
            None => {
                return Err(StoreError::NotInitialized);
            },
            Some(p) => *p,
        };
        if p.todo_count == 0 {
            return Err(StoreError::Todo(TodoError::MathOverflow));
        }
        self.items.remove(j);
        self.profile = Some(
            UserProfile {
                authority: p.authority,
                last_todo: p.last_todo,
                todo_count: p.todo_count - 1,
            },
        );
        proof {
            assert(self@.items =~= spec_remove_todo(old(self)@, authority, todo_idx).0.items);
            assert(self@ =~= spec_remove_todo(old(self)@, authority, todo_idx).0);
        }
        Ok(())
    }

    /// Overwrites the content of the item at `todo_idx`, touching nothing
    /// else of it. Rejected when the item cannot be resolved.
    pub fn update_todo(&mut self, authority: Pubkey, todo_idx: u8, content: String) -> (r: Result<
        (),
        StoreError,
    >)
        requires
            store_wf(old(self)@),
        ensures
            store_wf(final(self)@),
            r == spec_update_todo(old(self)@, authority, todo_idx, content@).1,
            final(self)@ == spec_update_todo(old(self)@, authority, todo_idx, content@).0,
    {
        let j = match self.resolve(authority, todo_idx) {
            Err(e) => {
                return Err(e);
            },
            Ok(j) => j,
        };
        self.items[j].content = content;
        proof {
            assert(self@.items =~= spec_update_todo(old(self)@, authority, todo_idx, content@).0.items);
            assert(self@ =~= spec_update_todo(old(self)@, authority, todo_idx, content@).0);
        }
        Ok(())
    }

    /// A borrow of the live item with index `todo_idx`, if any.
    pub fn get_todo(&self, todo_idx: u8) -> (r: Option<&TodoAccount>)
        requires
            store_wf(self@),
        ensures
            match r {
                Some(t) => has_item(self@.items, todo_idx) && t@ == self@.items[item_pos(
                    self@.items,
                    todo_idx,
                )],
                None => !has_item(self@.items, todo_idx),
            },
    {
        match self.find_item(todo_idx) {
            None => None,
            Some(j) => {
                proof {
                    lemma_pos_unique(self@, todo_idx, j as int);
                }
                Some(&self.items[j])
            },
        }
    }

    /// Shared front half of the per-item instructions: profile present,
    /// signer authorized, item found.
    fn resolve(&self, authority: Pubkey, todo_idx: u8) -> (r: Result<usize, StoreError>)
        requires
            store_wf(self@),
        ensures
            match r {
                Ok(j) => resolve_item(self@, authority, todo_idx) == Ok::<int, StoreError>(j as int)
                    && j < self.items@.len() && self@.items[j as int].idx == todo_idx,
                Err(e) => resolve_item(self@, authority, todo_idx) == Err::<int, StoreError>(e),
            },
    {
        let p = match &self.profile {
            None => {
                return Err(StoreError::NotInitialized);
            },
            Some(p) => *p,
        };
        if !pubkey_eq(&p.authority, &authority) {
            return Err(StoreError::Todo(TodoError::Unauthorized));
        }
        match self.find_item(todo_idx) {
            None => Err(StoreError::ItemNotFound),
            Some(j) => {
                proof {
                    lemma_pos_unique(self@, todo_idx, j as int);
                }
                Ok(j)
            },
        }
    }
}

/// Under the well-formedness invariant indices are distinct, so any
/// position holding `todo_idx` is the one `item_pos` picks.
proof fn lemma_pos_unique(s: StoreView, todo_idx: u8, j: int)
    requires
        store_wf(s),
        0 <= j < s.items.len(),
        s.items[j].idx == todo_idx,
    ensures
        item_pos(s.items, todo_idx) == j,
        has_item(s.items, todo_idx),
{
    assert(has_item(s.items, todo_idx));
    let k = item_pos(s.items, todo_idx);
    assert(0 <= k < s.items.len() && s.items[k].idx == todo_idx);
    if k != j {
        if k < j {
            assert(s.items[k].idx != s.items[j].idx);
        } else {
            assert(s.items[j].idx != s.items[k].idx);
        }
    }
}

} // verus!
