//! The shared store: two append-only sequences of facts.

use vstd::prelude::*;
use vstd::seq_lib::lemma_multiset_commutative;
use crate::facts::{food_facts, FoodPrefFact, StoreDietTypeArgsAux, StoreFoodPrefArgsAux};

verus! {

/// What a store holds: every food preference and every diet declaration
/// recorded so far, each in the order of recording.
pub struct StoreView {
    pub food_prefs: Seq<FoodPrefFact>,
    pub diets: Seq<StoreDietTypeArgsAux>,
}

impl StoreView {
    /// The store in which nothing has been recorded.
    pub open spec fn empty() -> StoreView {
        StoreView { food_prefs: Seq::empty(), diets: Seq::empty() }
    }

    /// The store after `prefs` have been recorded, in their order.
    pub open spec fn append_food_prefs(self, prefs: Seq<FoodPrefFact>) -> StoreView {
        StoreView { food_prefs: self.food_prefs + prefs, diets: self.diets }
    }

    /// The store after `diets` have been recorded, in their order.
    pub open spec fn append_diets(self, diets: Seq<StoreDietTypeArgsAux>) -> StoreView {
        StoreView { food_prefs: self.food_prefs, diets: self.diets + diets }
    }

    /// The number of records of both categories together.
    pub open spec fn total_len(self) -> nat {
        self.food_prefs.len() + self.diets.len()
    }
}

/// The store that the tools write to and the synthesis step reads.
pub struct MockProjectUntitled {
    food_prefs: Vec<StoreFoodPrefArgsAux>,
    diets: Vec<StoreDietTypeArgsAux>,
}

impl View for MockProjectUntitled {
    type V = StoreView;

    closed spec fn view(&self) -> StoreView {
        StoreView { food_prefs: food_facts(self.food_prefs@), diets: self.diets@ }
    }
}

impl MockProjectUntitled {
    /// An empty store.
    pub fn new() -> (store: Self)
        ensures
            store@ == StoreView::empty(),
    {
        let store = MockProjectUntitled { food_prefs: Vec::new(), diets: Vec::new() };
        assert(food_facts(store.food_prefs@) =~= Seq::empty());
        store
    }

    /// Records one food preference after all earlier ones.
    pub fn add_food_pref(&mut self, food_pref: StoreFoodPrefArgsAux)
        ensures
            final(self)@ == old(self)@.append_food_prefs(seq![food_pref@]),
    {
        self.food_prefs.push(food_pref);
        assert(food_facts(self.food_prefs@) =~= food_facts(old(self).food_prefs@) + seq![
            food_pref@,
        ]);
    }

    /// Records one diet declaration after all earlier ones.
    pub fn add_diet(&mut self, diet: StoreDietTypeArgsAux)
        ensures
            final(self)@ == old(self)@.append_diets(seq![diet]),
    {
        self.diets.push(diet);
        assert(self.diets@ =~= old(self).diets@ + seq![diet]);
    }

    /// The recorded food preferences, oldest first.
    pub fn get_food_prefs(&self) -> (prefs: &Vec<StoreFoodPrefArgsAux>)
        ensures
            food_facts(prefs@) == self@.food_prefs,
    {
        &self.food_prefs
    }

    /// The recorded diet declarations, oldest first.
    pub fn get_diets(&self) -> (diets: &Vec<StoreDietTypeArgsAux>)
        ensures
            diets@ == self@.diets,
    {
        &self.diets
    }

    /// Records a whole list of food preferences, in the order of the list.
    /// The diet declarations are left as they were.
    pub fn append_food_prefs(&mut self, list: Vec<StoreFoodPrefArgsAux>)
        ensures
            final(self)@ == old(self)@.append_food_prefs(food_facts(list@)),
    {
        let ghost added = food_facts(list@);
        let mut list = list;
        self.food_prefs.append(&mut list);
        assert(food_facts(self.food_prefs@) =~= food_facts(old(self).food_prefs@) + added);
    }

    /// Records a whole list of diet declarations, in the order of the list.
    /// The food preferences are left as they were.
    pub fn append_diets(&mut self, list: Vec<StoreDietTypeArgsAux>)
        ensures
            final(self)@ == old(self)@.append_diets(list@),
    {
        let mut list = list;
        self.diets.append(&mut list);
    }

    /// A copy of everything recorded so far. Later appends to the store do
    /// not reach the copy.
    pub fn snapshot(&self) -> (copy: Snapshot)
        ensures
            copy@ == self@,
    {
        let mut food_prefs: Vec<StoreFoodPrefArgsAux> = Vec::new();
        let mut i: usize = 0;
        while i < self.food_prefs.len()
            invariant
                i <= self.food_prefs.len(),
                food_facts(food_prefs@) == food_facts(self.food_prefs@.take(i as int)),
            decreases self.food_prefs.len() - i,
        {
            let copy = self.food_prefs[i].clone();
            food_prefs.push(copy);
            assert(food_facts(self.food_prefs@.take(i + 1)) =~= food_facts(
                self.food_prefs@.take(i as int),
            ).push(self.food_prefs@[i as int]@));
            i += 1;
        }
        assert(self.food_prefs@.take(i as int) =~= self.food_prefs@);
        let mut diets: Vec<StoreDietTypeArgsAux> = Vec::new();
        let mut j: usize = 0;
        while j < self.diets.len()
            invariant
                j <= self.diets.len(),
                diets@ == self.diets@.take(j as int),
            decreases self.diets.len() - j,
        {
            diets.push(self.diets[j]);
            j += 1;
        }
        assert(self.diets@.take(j as int) =~= self.diets@);
        Snapshot { food_prefs, diets }
    }
}

/// A point-in-time copy of a store's contents.
#[derive(Debug, PartialEq, Eq)]
pub struct Snapshot {
    pub food_prefs: Vec<StoreFoodPrefArgsAux>,
    pub diets: Vec<StoreDietTypeArgsAux>,
}

impl View for Snapshot {
    type V = StoreView;

    open spec fn view(&self) -> StoreView {
        StoreView { food_prefs: food_facts(self.food_prefs@), diets: self.diets@ }
    }
}

/// One completed append, as the store sees it.
pub enum AppendCall {
    FoodPrefs(Seq<FoodPrefFact>),
    Diets(Seq<StoreDietTypeArgsAux>),
}

impl AppendCall {
    /// The number of records that the call hands over.
    pub open spec fn len(self) -> nat {
        match self {
            AppendCall::FoodPrefs(prefs) => prefs.len(),
            AppendCall::Diets(diets) => diets.len(),
        }
    }
}

impl StoreView {
    /// The store after one append call.
    pub open spec fn apply(self, call: AppendCall) -> StoreView {
        match call {
            AppendCall::FoodPrefs(prefs) => self.append_food_prefs(prefs),
            AppendCall::Diets(diets) => self.append_diets(diets),
        }
    }

    /// The store after the calls have completed one after the other.
    pub open spec fn apply_all(self, calls: Seq<AppendCall>) -> StoreView
        decreases calls.len(),
    {
        if calls.len() == 0 {
            self
        } else {
            self.apply_all(calls.drop_last()).apply(calls.last())
        }
    }
}

/// The number of records that the calls hand over, all together.
pub open spec fn appended_len(calls: Seq<AppendCall>) -> nat
    decreases calls.len(),
{
    if calls.len() == 0 {
        0
    } else {
        appended_len(calls.drop_last()) + calls.last().len()
    }
}

/// A store grows by exactly the records that the append calls hand over:
/// after any number of completed calls its two sequences together are longer
/// by the sum of the calls' lengths. A snapshot has the store's contents, so
/// the same holds of a snapshot taken then.
pub proof fn lemma_total_len_after_appends(before: StoreView, calls: Seq<AppendCall>)
    ensures
        before.apply_all(calls).total_len() == before.total_len() + appended_len(calls),
    decreases calls.len(),
{
    if calls.len() > 0 {
        lemma_total_len_after_appends(before, calls.drop_last());
    }
}

/// Every append only adds at the end: what was recorded before a run of
/// append calls is still there afterwards, in the same places.
pub proof fn lemma_appends_keep_earlier_records(before: StoreView, calls: Seq<AppendCall>)
    ensures
        before.food_prefs.is_prefix_of(before.apply_all(calls).food_prefs),
        before.diets.is_prefix_of(before.apply_all(calls).diets),
    decreases calls.len(),
{
    if calls.len() > 0 {
        lemma_appends_keep_earlier_records(before, calls.drop_last());
    }
}

/// An append of no records changes nothing.
pub proof fn lemma_empty_append_changes_nothing(before: StoreView)
    ensures
        before.append_food_prefs(Seq::empty()) == before,
        before.append_diets(Seq::empty()) == before,
{
}

/// Appends to different categories do not interfere: in either order they
/// leave the same store.
pub proof fn lemma_appends_to_different_categories_commute(
    before: StoreView,
    prefs: Seq<FoodPrefFact>,
    diets: Seq<StoreDietTypeArgsAux>,
)
    ensures
        before.append_food_prefs(prefs).append_diets(diets) == before.append_diets(
            diets,
        ).append_food_prefs(prefs),
{
}

/// Three sequences joined hold the same items, however the last two are
/// ordered.
proof fn lemma_last_two_swapped<A>(first: Seq<A>, second: Seq<A>, third: Seq<A>)
    ensures
        (first + second + third).to_multiset() == (first + third + second).to_multiset(),
{
    lemma_multiset_commutative(first + second, third);
    lemma_multiset_commutative(first, second);
    lemma_multiset_commutative(first + third, second);
    lemma_multiset_commutative(first, third);
}

/// Whichever of two append calls completes first, the store holds the same
/// records of each category afterwards; only their order within a category
/// can differ.
pub proof fn lemma_order_of_appends_keeps_the_records(
    before: StoreView,
    one: AppendCall,
    other: AppendCall,
)
    ensures
        before.apply(one).apply(other).food_prefs.to_multiset() == before.apply(other).apply(
            one,
        ).food_prefs.to_multiset(),
        before.apply(one).apply(other).diets.to_multiset() == before.apply(other).apply(
            one,
        ).diets.to_multiset(),
{
    match (one, other) {
        (AppendCall::FoodPrefs(a), AppendCall::FoodPrefs(b)) => {
            lemma_last_two_swapped(before.food_prefs, a, b);
        },
        (AppendCall::Diets(a), AppendCall::Diets(b)) => {
            lemma_last_two_swapped(before.diets, a, b);
        },
        _ => {},
    }
}

} // verus!
