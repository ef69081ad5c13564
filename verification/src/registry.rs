//! A per-owner record registry: records are created under strictly increasing
//! ids, and only a record's owner may mark it completed.

use vstd::prelude::*;

verus! {

/// Identifier of a stored record, handed out by the allocator in `TodoList`.
pub type TodoItemId = i32;

/// An opaque identity token for the party that created a record. The zero
/// token is reserved as the null identity and never names a real caller.
#[derive(Clone, Copy, Debug, PartialEq, Eq, Hash, Structural)]
pub struct AccountId {
    pub id: u64,
}

/// The null identity: no real caller carries it.
pub fn zero_address() -> (result: AccountId)
    ensures
        result == (AccountId { id: 0 }),
{
    AccountId { id: 0 }
}

/// Closed set of record priorities.
#[derive(Clone, Copy, Debug, PartialEq, Eq, Structural)]
pub enum Prioritise {
    HIGH,
    LOW,
    MEDIUM,
}

/// The two ways an update can be refused.
#[derive(Clone, Copy, Debug, PartialEq, Eq, Structural)]
pub enum TodoError {
    /// The referenced id maps to no record.
    ItemNotExists,
    /// The caller is not the record's owner.
    NotAOwner,
}

/// One stored record.
#[derive(Debug)]
pub struct TodoItem {
    pub owner: AccountId,
    pub item_name: String,
    pub is_completed: bool,
    pub priority: Prioritise,
}

/// The mathematical content of a `TodoItem`.
pub struct ItemView {
    pub owner: AccountId,
    pub name: Seq<char>,
    pub completed: bool,
    pub priority: Prioritise,
}

impl View for TodoItem {
    type V = ItemView;

    open spec fn view(&self) -> ItemView {
        ItemView {
            owner: self.owner,
            name: self.item_name@,
            completed: self.is_completed,
            priority: self.priority,
        }
    }
}

impl Clone for TodoItem {
    fn clone(&self) -> (result: Self)
        ensures
            result == *self,
    {
        Self {
            owner: self.owner,
            item_name: self.item_name.clone(),
            is_completed: self.is_completed,
            priority: self.priority,
        }
    }
}

impl Default for TodoItem {
    fn default() -> (result: Self)
        ensures
            result@ == (ItemView {
                owner: AccountId { id: 0 },
                name: Seq::<char>::empty(),
                completed: false,
                priority: Prioritise::HIGH,
            }),
    {
        Self {
            owner: zero_address(),
            item_name: String::new(),
            is_completed: false,
            priority: Prioritise::HIGH,
        }
    }
}

/// Event describing a freshly created record, for the host to hand to its
/// observers after the mutation is committed.
#[derive(Debug)]
pub struct ItemCreated {
    pub item: TodoItem,
}

/// Event describing a completed update, for the host to hand to its observers
/// after the mutation is committed.
#[derive(Debug)]
pub struct ItemUpdated {
    pub item: TodoItem,
}

/// The record store: an id allocator plus a slot per allocated id.
///
/// The slot for id `i` (ids start at 1) is `items[i - 1]`; it is `Some` once a
/// record has been created under that id and stays so, since there is no
/// delete. An id allocated by `get_item_id` but never used by `create_todo`
/// leaves its slot `None` forever.
pub struct TodoList {
    pub owner: AccountId,
    pub items: Vec<Option<TodoItem>>,
    pub item_id: i32,
}

/// The mathematical content of one slot.
pub open spec fn slot_view(slot: Option<TodoItem>) -> Option<ItemView> {
    match slot {
        Option::Some(t) => Some(t@),
        Option::None => None,
    }
}

impl TodoList {
    /// One slot exists for every id the allocator has handed out, and ids
    /// start at 1.
    pub open spec fn wf(self) -> bool {
        &&& 1 <= self.item_id
        &&& self.items@.len() == self.item_id - 1
    }

    /// The store's slots as a mathematical sequence: entry `i` holds the
    /// record with id `i + 1`, if one was created.
    pub open spec fn slots(self) -> Seq<Option<ItemView>> {
        self.items@.map_values(|slot: Option<TodoItem>| slot_view(slot))
    }

    /// The record stored under `id`, if any.
    pub open spec fn spec_get(self, id: int) -> Option<ItemView> {
        if 1 <= id && id <= self.slots().len() {
            self.slots()[id - 1]
        } else {
            None
        }
    }

    /// Construct an empty store owned by `caller`, with the allocator at 1.
    pub fn new(caller: AccountId) -> (result: Self)
        ensures
            result.wf(),
            result.owner == caller,
            result.item_id == 1,
            result.slots() =~= Seq::<Option<ItemView>>::empty(),
    {
        Self { owner: caller, items: Vec::new(), item_id: 1 }
    }

    /// Hand out the next id: returns the current counter and advances it.
    /// The slot for the returned id starts empty.
    pub fn get_item_id(&mut self) -> (result: TodoItemId)
        requires
            old(self).wf(),
            old(self).item_id < i32::MAX,
        ensures
            final(self).wf(),
            result == old(self).item_id,
            final(self).item_id == old(self).item_id + 1,
            final(self).owner == old(self).owner,
            final(self).slots() == old(self).slots().push(None),
    {
        let id = self.item_id;
        self.item_id += 1;
        self.items.push(None);
        proof {
            assert(self.slots() =~= old(self).slots().push(None));
        }
        id
    }

    /// What one successful `create_todo` does: the allocator advances by one
    /// and the new record is appended, open and owned by the caller.
    pub open spec fn create_transition(
        pre: Self,
        post: Self,
        caller: AccountId,
        name: Seq<char>,
        priority: Prioritise,
    ) -> bool {
        &&& post.item_id == pre.item_id + 1
        &&& post.owner == pre.owner
        &&& post.slots() == pre.slots().push(
            Some(ItemView { owner: caller, name, completed: false, priority }),
        )
    }

    /// The id that the next `create_todo` on `pre` assigns.
    pub open spec fn created_id(pre: Self) -> int {
        pre.item_id as int
    }

    /// Create a record owned by `caller`: it receives the next id, starts
    /// with `is_completed == false`, and keeps the given name and priority.
    /// There is no failure path.
    pub fn create_todo(
        &mut self,
        caller: AccountId,
        item_name: String,
        priority: Prioritise,
    ) -> (result: Result<(), TodoError>)
        requires
            old(self).wf(),
            old(self).item_id < i32::MAX,
            caller != (AccountId { id: 0 }),
        ensures
            final(self).wf(),
            result == Ok::<(), TodoError>(()),
            Self::create_transition(*old(self), *final(self), caller, item_name@, priority),
            final(self).spec_get(Self::created_id(*old(self))) == Some(
                ItemView { owner: caller, name: item_name@, completed: false, priority },
            ),
    {
        let item_id = self.get_item_id();
        let ghost mid = *self;
        let item = TodoItem { owner: caller, item_name, is_completed: false, priority };
        let idx = (item_id - 1) as usize;
        self.items[idx] = Some(item);
        proof {
            let ghost target = old(self).slots().push(
                Some(ItemView { owner: caller, name: item_name@, completed: false, priority }),
            );
            assert forall|j: int| 0 <= j < target.len() implies self.slots()[j] == target[j] by {
                if j != idx as int {
                    assert(mid.slots()[j] == slot_view(mid.items@[j]));
                }
            }
            assert(self.slots() =~= target);
        }
        Ok(())
    }

    /// What one successful `update_item` does: the addressed record is marked
    /// completed; its owner, name and priority, every other slot, the
    /// allocator and the store's owner are untouched.
    pub open spec fn update_transition(pre: Self, post: Self, caller: AccountId, id: int) -> bool {
        &&& pre.spec_get(id) matches Some(v) && v.owner == caller && post.slots() == pre.slots().update(
            id - 1,
            Some(ItemView { owner: v.owner, name: v.name, completed: true, priority: v.priority }),
        )
        &&& post.item_id == pre.item_id
        &&& post.owner == pre.owner
    }

    /// Mark the record under `item_id` completed. Succeeds exactly when a
    /// record exists there and `caller` is its owner; a rejected call leaves
    /// the store untouched.
    pub fn update_item(&mut self, caller: AccountId, item_id: TodoItemId) -> (result: Result<
        (),
        TodoError,
    >)
        requires
            old(self).wf(),
        ensures
            final(self).wf(),
            result == Ok::<(), TodoError>(()) <==> (old(self).spec_get(item_id as int) matches Some(v)
                && v.owner == caller),
            result == Err::<(), TodoError>(TodoError::ItemNotExists) <==> old(self).spec_get(
                item_id as int,
            ) is None,
            result == Err::<(), TodoError>(TodoError::NotAOwner) <==> (old(self).spec_get(
                item_id as int,
            ) matches Some(v) && v.owner != caller),
            result is Ok ==> Self::update_transition(*old(self), *final(self), caller, item_id as int),
            result is Err ==> *final(self) == *old(self),
    {
        if item_id < 1 || (item_id - 1) as usize >= self.items.len() {
            return Err(TodoError::ItemNotExists);
        }
        let idx = (item_id - 1) as usize;
        let updated = match &self.items[idx] {
            Option::Some(value) => {
                if value.owner != caller {
                    return Err(TodoError::NotAOwner);
                }
                TodoItem {
                    owner: caller,
                    item_name: value.item_name.clone(),
                    is_completed: true,
                    priority: value.priority,
                }
            },
            Option::None => {
                return Err(TodoError::ItemNotExists);
            },
        };
        let ghost pre = *self;
        self.items[idx] = Some(updated);
        proof {
            let ghost v = pre.spec_get(item_id as int)->Some_0;
            let ghost target = pre.slots().update(
                item_id - 1,
                Some(ItemView { owner: v.owner, name: v.name, completed: true, priority: v.priority }),
            );
            assert forall|j: int| 0 <= j < target.len() implies self.slots()[j] == target[j] by {
                if j != idx as int {
                    assert(pre.slots()[j] == slot_view(pre.items@[j]));
                }
            }
            assert(self.slots() =~= target);
        }
        Ok(())
    }

    /// The records among the first `n` slots whose owner is `account`, in
    /// ascending id order.
    pub open spec fn owned_upto(
        slots: Seq<Option<ItemView>>,
        n: int,
        account: AccountId,
    ) -> Seq<ItemView>
        decreases n,
    {
        if n <= 0 {
            Seq::empty()
        } else {
            let rest = Self::owned_upto(slots, n - 1, account);
            match slots[n - 1] {
                Option::Some(v) => if v.owner == account {
                    rest.push(v)
                } else {
                    rest
                },
                Option::None => rest,
            }
        }
    }

    /// How many of the first `n` slots hold a record.
    pub open spec fn count_upto(slots: Seq<Option<ItemView>>, n: int) -> int
        decreases n,
    {
        if n <= 0 {
            0
        } else {
            Self::count_upto(slots, n - 1) + if slots[n - 1] is Some {
                1int
            } else {
                0int
            }
        }
    }

    /// All records owned by `account`, in ascending id order. A fresh scan of
    /// the whole id range on every call; linear in the number of slots.
    pub fn get_my_todo(&self, account: AccountId) -> (result: Vec<TodoItem>)
        requires
            self.wf(),
        ensures
            result@.map_values(|t: TodoItem| t@) == Self::owned_upto(
                self.slots(),
                self.slots().len() as int,
                account,
            ),
            result@.len() == Self::owned_upto(
                self.slots(),
                self.slots().len() as int,
                account,
            ).len(),
            forall|k: int| 0 <= k < result@.len() ==> (#[trigger] result@[k])@ == Self::owned_upto(
                self.slots(),
                self.slots().len() as int,
                account,
            )[k],
    {
        let mut result: Vec<TodoItem> = Vec::new();
        let mut i: usize = 0;
        while i < self.items.len()
            invariant
                self.wf(),
                i <= self.items@.len(),
                result@.map_values(|t: TodoItem| t@) == Self::owned_upto(
                    self.slots(),
                    i as int,
                    account,
                ),
            decreases self.items@.len() - i,
        {
            let ghost prev = result@.map_values(|t: TodoItem| t@);
            match &self.items[i] {
                Option::Some(value) => {
                    if value.owner == account {
                        result.push(value.clone());
                        proof {
                            assert(result@.map_values(|t: TodoItem| t@) =~= prev.push(
                                self.slots()[i as int]->Some_0,
                            ));
                        }
                    }
                },
                Option::None => {},
            }
            i += 1;
        }
        result
    }

    /// The number of records in the store: a scan of the whole id range,
    /// counting the slots that hold one.
    pub fn get_all_todo(&self) -> (result: i32)
        requires
            self.wf(),
        ensures
            result == Self::count_upto(self.slots(), self.slots().len() as int),
    {
        let mut count: i32 = 0;
        let mut i: usize = 0;
        while i < self.items.len()
            invariant
                self.wf(),
                i <= self.items@.len(),
                count == Self::count_upto(self.slots(), i as int),
                0 <= count <= i,
            decreases self.items@.len() - i,
        {
            match &self.items[i] {
                Option::Some(_value) => {
                    count += 1;
                },
                Option::None => {},
            }
            i += 1;
        }
        count
    }

    /// A copy of the record under `item_id`, if one exists.
    pub fn get_item(&self, item_id: TodoItemId) -> (result: Option<TodoItem>)
        requires
            self.wf(),
        ensures
            match result {
                Option::Some(t) => self.spec_get(item_id as int) == Some(t@),
                Option::None => self.spec_get(item_id as int) is None,
            },
    {
        if item_id < 1 || (item_id - 1) as usize >= self.items.len() {
            return None;
        }
        match &self.items[(item_id - 1) as usize] {
            Option::Some(value) => Some(value.clone()),
            Option::None => None,
        }
    }
}

/// The ids among the first `n` slots whose record's owner is `account`, in
/// ascending order: the ids of the records that `owned_upto` lists.
pub open spec fn owned_ids(slots: Seq<Option<ItemView>>, n: int, account: AccountId) -> Seq<int>
    decreases n,
{
    if n <= 0 {
        Seq::empty()
    } else {
        let rest = owned_ids(slots, n - 1, account);
        match slots[n - 1] {
            Option::Some(v) => if v.owner == account {
                rest.push(n)
            } else {
                rest
            },
            Option::None => rest,
        }
    }
}

/// The listing for an owner is exactly that owner's records, in ascending id
/// order: the `k`-th listed record is the record stored under the `k`-th
/// matching id, the matching ids are strictly ascending, every listed record
/// belongs to `account`, and every stored record of `account` is listed.
pub proof fn lemma_owned_listing_exact(slots: Seq<Option<ItemView>>, n: int, account: AccountId)
    requires
        0 <= n <= slots.len(),
    ensures
        owned_ids(slots, n, account).len() == TodoList::owned_upto(slots, n, account).len(),
        forall|k: int| 0 <= k < owned_ids(slots, n, account).len() ==> 1 <= #[trigger] owned_ids(
            slots,
            n,
            account,
        )[k] <= n,
        forall|k: int| 0 <= k < owned_ids(slots, n, account).len() ==> slots[#[trigger] owned_ids(
            slots,
            n,
            account,
        )[k] - 1] == Some(TodoList::owned_upto(slots, n, account)[k]),
        forall|k: int| 0 <= k < TodoList::owned_upto(slots, n, account).len()
            ==> (#[trigger] TodoList::owned_upto(slots, n, account)[k]).owner == account,
        forall|k: int| 0 <= k < owned_ids(slots, n, account).len() - 1 ==> #[trigger] owned_ids(
            slots,
            n,
            account,
        )[k] < owned_ids(slots, n, account)[k + 1],
        forall|id: int| #![auto] 1 <= id <= n && (slots[id - 1] matches Some(v) && v.owner
            == account) ==> owned_ids(slots, n, account).contains(id),
    decreases n,
{
    if n > 0 {
        lemma_owned_listing_exact(slots, n - 1, account);
        assert forall|id: int| #![auto]
            1 <= id <= n && (slots[id - 1] matches Some(v) && v.owner
                == account) implies owned_ids(slots, n, account).contains(id) by {
            let prev = owned_ids(slots, n - 1, account);
            if id < n {
                assert(prev.contains(id));
                let k = choose|k: int| 0 <= k < prev.len() && prev[k] == id;
                assert(owned_ids(slots, n, account)[k] == id);
            } else {
                assert(owned_ids(slots, n, account).last() == n);
            }
        }
    }
}

/// Ids are never reused: the id that the next creation on `s` assigns is
/// strictly greater than the id of every record already stored.
pub proof fn lemma_assigned_id_fresh(s: TodoList)
    requires
        s.wf(),
    ensures
        forall|id: int| s.spec_get(id) is Some ==> id < TodoList::created_id(s),
{
}

/// Ids assigned by consecutive creations are strictly increasing, so the ids
/// handed out along any sequence of creations are unique.
pub proof fn lemma_create_ids_strictly_increasing(
    s0: TodoList,
    s1: TodoList,
    s2: TodoList,
    caller1: AccountId,
    name1: Seq<char>,
    priority1: Prioritise,
    caller2: AccountId,
    name2: Seq<char>,
    priority2: Prioritise,
)
    requires
        TodoList::create_transition(s0, s1, caller1, name1, priority1),
        TodoList::create_transition(s1, s2, caller2, name2, priority2),
    ensures
        TodoList::created_id(s0) < TodoList::created_id(s1),
{
}

/// When every allocated id was used by a creation (no slot left empty), the
/// scan count equals the number of creations: after `n` creations on a fresh
/// store with no deletes, `get_all_todo` returns `n`.
pub proof fn lemma_count_all_creates(slots: Seq<Option<ItemView>>, n: int)
    requires
        0 <= n <= slots.len(),
        forall|i: int| 0 <= i < n ==> slots[i] is Some,
    ensures
        TodoList::count_upto(slots, n) == n,
    decreases n,
{
    if n > 0 {
        lemma_count_all_creates(slots, n - 1);
    }
}

/// Updating twice is harmless: after one authorized update, a second update
/// of the same record by the same caller is still allowed, and it leaves the
/// record completed and otherwise exactly as the first update left it.
pub proof fn lemma_update_twice(
    s0: TodoList,
    s1: TodoList,
    s2: TodoList,
    caller: AccountId,
    id: int,
)
    requires
        s0.wf(),
        TodoList::update_transition(s0, s1, caller, id),
        TodoList::update_transition(s1, s2, caller, id),
    ensures
        s1.spec_get(id) matches Some(v) && v.owner == caller && v.completed,
        s2.spec_get(id) == s1.spec_get(id),
        s2.slots() == s1.slots(),
{
    let v0 = s0.spec_get(id)->Some_0;
    let v1 = s1.spec_get(id)->Some_0;
    assert(s1.slots()[id - 1] == Some(
        ItemView { owner: v0.owner, name: v0.name, completed: true, priority: v0.priority },
    ));
    assert(s2.slots() =~= s1.slots());
}

} // verus!
