use vstd::prelude::*;

verus! {

/// What a bill is to the contracts: its description and its amount in cents.
pub type BillView = (Seq<char>, int);

/// A bill: a description and an amount of money, held in cents.
#[derive(Clone, Debug)]
pub struct Bill {
    pub description: String,
    pub amount: i64,
}

impl View for Bill {
    type V = BillView;

    open spec fn view(&self) -> BillView {
        (self.description@, self.amount as int)
    }
}

impl Bill {
    pub fn new(description: String, amount: i64) -> (r: Bill)
        ensures
            r@ == (description@, amount as int),
    {
        Bill { description, amount }
    }
}

/// The store that adding each bill of `added` in turn makes of `store`:
/// each add puts one bill at the end, as `BillManager::add_bill` does.
pub open spec fn after_adds(store: Seq<BillView>, added: Seq<BillView>) -> Seq<BillView>
    decreases added.len(),
{
    if added.len() == 0 {
        store
    } else {
        after_adds(store, added.drop_last()).push(added.last())
    }
}

/// Adding bills one after another keeps every one of them, in the order in
/// which they were added: a store that starts empty then holds as many bills
/// as were added, and lists exactly those.
pub proof fn lemma_adds_kept_in_order(store: Seq<BillView>, added: Seq<BillView>)
    ensures
        after_adds(store, added) == store + added,
        after_adds(store, added).len() == store.len() + added.len(),
        after_adds(Seq::empty(), added) == added,
{
    lemma_adds_append(store, added);
    lemma_adds_append(Seq::empty(), added);
    assert(Seq::<BillView>::empty() + added =~= added);
}

proof fn lemma_adds_append(store: Seq<BillView>, added: Seq<BillView>)
    ensures
        after_adds(store, added) == store + added,
    decreases added.len(),
{
    if added.len() == 0 {
        assert(store + added =~= store);
    } else {
        lemma_adds_append(store, added.drop_last());
        assert(store + added =~= (store + added.drop_last()).push(added.last()));
    }
}

/// The ordered collection of bills; insertion order is listing order.
pub struct BillManager {
    bills: Vec<Bill>,
}

impl View for BillManager {
    type V = Seq<BillView>;

    closed spec fn view(&self) -> Seq<BillView> {
        self.bills@.map_values(|b: Bill| b@)
    }
}

impl BillManager {
    pub fn new() -> (r: BillManager)
        ensures
            r@ == Seq::<BillView>::empty(),
    {
        BillManager { bills: Vec::new() }
    }

    /// Appends a bill at the end of the store.
    pub fn add_bill(&mut self, bill: Bill)
        ensures
            final(self)@ == old(self)@.push(bill@),
    {
        self.bills.push(bill);
        assert(self@ =~= old(self)@.push(bill@));
    }

    /// Removes the bill at zero-based `index` if there is one; later bills
    /// move down by one place. Returns whether a bill was removed.
    pub fn remove_bill(&mut self, index: usize) -> (removed: bool)
        ensures
            removed == (index < old(self)@.len()),
            removed ==> final(self)@ == old(self)@.remove(index as int),
            removed ==> final(self)@.len() == old(self)@.len() - 1,
            removed ==> forall|j: int| 0 <= j < index ==> final(self)@[j] == old(self)@[j],
            removed ==> forall|j: int|
                index <= j < final(self)@.len() ==> final(self)@[j] == old(self)@[j + 1],
            !removed ==> final(self)@ == old(self)@,
    {
        if index < self.bills.len() {
            self.bills.remove(index);
            assert(self@ =~= old(self)@.remove(index as int));
            true
        } else {
            false
        }
    }

    /// All bills, borrowed, in store order.
    pub fn get_bills(&self) -> (r: Vec<&Bill>)
        ensures
            r@.len() == self@.len(),
            forall|i: int| 0 <= i < r@.len() ==> r@[i]@ == self@[i],
    {
        let mut r: Vec<&Bill> = Vec::new();
        let mut i: usize = 0;
        while i < self.bills.len()
            invariant
                i <= self.bills@.len(),
                r@.len() == i,
                forall|k: int| 0 <= k < i ==> r@[k]@ == self@[k],
            decreases self.bills@.len() - i,
        {
            r.push(&self.bills[i]);
            i = i + 1;
        }
        r
    }
}

} // verus!
