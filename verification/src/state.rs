use vstd::prelude::*;

verus! {

/// A 32-byte public key: the identity that owns a profile and its items.
#[derive(Clone, Copy, Debug)]
pub struct Pubkey {
    pub bytes: [u8; 32],
}

/// Byte-for-byte equality of two public keys.
pub fn pubkey_eq(a: &Pubkey, b: &Pubkey) -> (r: bool)
    ensures
        r == (*a == *b),
{
    broadcast use vstd::array::axiom_array_ext_equal;

    let mut i: usize = 0;
    while i < 32
        invariant
            0 <= i <= 32,
            forall|k: int| 0 <= k < i ==> a.bytes[k] == b.bytes[k],
        decreases 32 - i,
    {
        if a.bytes[i] != b.bytes[i] {
            return false;
        }
        i = i + 1;
    }
    proof {
        assert(a.bytes =~= b.bytes);
    }
    true
}

/// Per-user profile record: tracks how many items are live and which index
/// the next item will receive. Indices are never reused, so `last_todo`
/// only ever grows while `todo_count` moves both ways.
#[derive(Clone, Copy, Debug)]
pub struct UserProfile {
    pub authority: Pubkey,
    pub last_todo: u8,
    pub todo_count: u8,
}

/// One todo item record, addressed by `(authority, idx)`.
#[derive(Debug)]
pub struct TodoAccount {
    pub authority: Pubkey,
    pub idx: u8,
    pub content: String,
    pub marked: bool,
}

/// Errors raised by the instruction handlers themselves.
#[derive(Clone, Copy, PartialEq, Eq, Structural, Debug)]
pub enum TodoError {
    Unauthorized,
    NotAllowed,
    MathOverflow,
    AlreadyMarked,
    NotMarked,
}

/// Errors of the account-resolution layer, plus the handlers' own errors.
/// Resolution fails when the record an instruction names does not exist,
/// or when a profile is initialized twice.
#[derive(Clone, Copy, PartialEq, Eq, Structural, Debug)]
pub enum StoreError {
    AlreadyInitialized,
    NotInitialized,
    ItemNotFound,
    Todo(TodoError),
}

/// Mathematical image of one todo item.
#[verifier::ext_equal]
pub ghost struct ItemView {
    pub authority: Pubkey,
    pub idx: u8,
    pub content: Seq<char>,
    pub marked: bool,
}

/// Mathematical image of everything stored under one owner identity:
/// the profile, if initialized, and the live items.
#[verifier::ext_equal]
pub ghost struct StoreView {
    pub profile: Option<UserProfile>,
    pub items: Seq<ItemView>,
}

impl View for TodoAccount {
    type V = ItemView;

    open spec fn view(&self) -> ItemView {
        ItemView {
            authority: self.authority,
            idx: self.idx,
            content: self.content@,
            marked: self.marked,
        }
    }
}

/// There is an item with index `idx` among `items`.
pub open spec fn has_item(items: Seq<ItemView>, idx: u8) -> bool {
    exists|j: int| 0 <= j < items.len() && items[j].idx == idx
}

/// The position of the item with index `idx`; meaningful only under
/// `store_wf`, which makes indices distinct.
pub open spec fn item_pos(items: Seq<ItemView>, idx: u8) -> int {
    choose|j: int| 0 <= j < items.len() && items[j].idx == idx
}

/// Well-formedness of a store: an uninitialized store holds no items; an
/// initialized one holds exactly `todo_count` items, every item belongs to
/// the profile's authority, carries an index below `last_todo`, and no two
/// items share an index. `todo_count <= last_todo` is the profile invariant:
/// indices are never reused once handed out.
pub open spec fn store_wf(s: StoreView) -> bool {
    match s.profile {
        None => s.items.len() == 0,
        Some(p) => {
            &&& p.todo_count <= p.last_todo
            &&& s.items.len() == p.todo_count
            &&& forall|j: int|
                0 <= j < s.items.len() ==> (#[trigger] s.items[j]).authority == p.authority
                    && s.items[j].idx < p.last_todo
            &&& forall|j: int, k: int|
                0 <= j < k < s.items.len() ==> (#[trigger] s.items[j]).idx != (
                #[trigger] s.items[k]).idx
        },
    }
}

} // verus!
