//! The subscription request builder: from the caller's choice of filters to
//! the descriptor that is submitted to the node.

use vstd::prelude::*;
use crate::descriptor::{
    categories, has_category, well_formed, AccountsFilter, AccountsFilterView, BlocksFilter, BlocksFilterView,
    Category, FilterCriteria, FilterCriteriaView, FilterEntry, FilterEntryView, SlotsFilter,
    SubscriptionDescriptor, TransactionsFilter, TransactionsFilterView,
};

verus! {

/// The caller's choice of what to subscribe to. The three fields are
/// independent, and every combination is valid, the empty one too.
#[derive(Clone, Debug, PartialEq, Eq)]
pub struct FilterSelection {
    /// An account address, where account updates are wanted.
    pub account: Option<String>,
    /// Whether block updates are wanted.
    pub blocks: bool,
    /// Whether transaction updates are wanted.
    pub transactions: bool,
}

/// A selection as contracts see it: the address as a sequence of characters.
pub struct FilterSelectionView {
    pub account: Option<Seq<char>>,
    pub blocks: bool,
    pub transactions: bool,
}

impl View for FilterSelection {
    type V = FilterSelectionView;

    open spec fn view(&self) -> FilterSelectionView {
        FilterSelectionView {
            account: match self.account {
                Some(address) => Some(address@),
                None => None,
            },
            blocks: self.blocks,
            transactions: self.transactions,
        }
    }
}

impl Default for FilterSelection {
    /// The selection that asks for nothing.
    fn default() -> (selection: FilterSelection)
        ensures
            selection@ == (FilterSelectionView { account: None, blocks: false, transactions: false }),
    {
        FilterSelection { account: None, blocks: false, transactions: false }
    }
}

/// The entry for account updates: named after its category, with no address,
/// no owner and no test on the data.
pub open spec fn accounts_entry() -> FilterEntryView {
    FilterEntryView {
        name: Category::Accounts.name_spec(),
        criteria: FilterCriteriaView::Accounts(
            AccountsFilterView { account: Seq::empty(), owner: Seq::empty(), filters: Seq::empty() },
        ),
    }
}

/// The entry for block updates: named after its category, unfiltered.
pub open spec fn blocks_entry() -> FilterEntryView {
    FilterEntryView {
        name: Category::Blocks.name_spec(),
        criteria: FilterCriteriaView::Blocks(
            BlocksFilterView {
                account_include: Seq::empty(),
                include_transactions: None,
                include_accounts: None,
                include_entries: None,
            },
        ),
    }
}

/// The entry for slot updates: named after its category, with no restriction
/// by commitment level.
pub open spec fn slots_entry() -> FilterEntryView {
    FilterEntryView {
        name: Category::Slots.name_spec(),
        criteria: FilterCriteriaView::Slots(SlotsFilter { filter_by_commitment: None }),
    }
}

/// The entry for transaction updates: named after its category, without vote
/// transactions and without failed ones, and with no constraint on signature
/// or accounts.
pub open spec fn transactions_entry() -> FilterEntryView {
    FilterEntryView {
        name: Category::Transactions.name_spec(),
        criteria: FilterCriteriaView::Transactions(
            TransactionsFilterView {
                vote: Some(false),
                failed: Some(false),
                signature: None,
                account_include: Seq::empty(),
                account_exclude: Seq::empty(),
                account_required: Seq::empty(),
            },
        ),
    }
}

/// The descriptor that a selection stands for: the accounts entry where an
/// address is given, then the blocks entry and with it the slots entry where
/// blocks are wanted, then the transactions entry where transactions are
/// wanted.
pub open spec fn descriptor_for(selection: FilterSelectionView) -> Seq<FilterEntryView> {
    let accounts = if selection.account is Some {
        seq![accounts_entry()]
    } else {
        Seq::empty()
    };
    let blocks = if selection.blocks {
        seq![blocks_entry(), slots_entry()]
    } else {
        Seq::empty()
    };
    let transactions = if selection.transactions {
        seq![transactions_entry()]
    } else {
        Seq::empty()
    };
    accounts + blocks + transactions
}

/// Whether a selection asks for updates of `category`. Blocks bring slots with
/// them.
pub open spec fn wanted(selection: FilterSelectionView, category: Category) -> bool {
    match category {
        Category::Accounts => selection.account is Some,
        Category::Slots => selection.blocks,
        Category::Transactions => selection.transactions,
        Category::Blocks => selection.blocks,
    }
}

/// Builds the subscription descriptor for a selection. Total, and without
/// side effects.
///
/// The address of the account filter decides only whether account updates are
/// asked for: it is not put into the criteria, which stay empty.
pub fn create_subscription_request(selection: &FilterSelection) -> (descriptor:
    SubscriptionDescriptor)
    ensures
        descriptor@ == descriptor_for(selection@),
        well_formed(descriptor@),
        selection.blocks ==> has_category(descriptor@, Category::Blocks) && has_category(
            descriptor@,
            Category::Slots,
        ),
        selection.account is None && !selection.blocks && !selection.transactions
            ==> descriptor@.len() == 0,
        selection.transactions ==> has_category(descriptor@, Category::Transactions),
        forall|i: int|
            0 <= i < descriptor@.len() && (#[trigger] descriptor@[i]).criteria.category()
                == Category::Transactions ==> descriptor@[i] == transactions_entry(),
        forall|category: Category|
            has_category(descriptor@, category) <==> wanted(selection@, category),
{
    let mut entries: Vec<FilterEntry> = Vec::new();

    // Accounts, where an address is given. The address itself goes nowhere.
    if selection.account.is_some() {
        let filter = AccountsFilter { account: Vec::new(), owner: Vec::new(), filters: Vec::new() };
        assert(filter@.account =~= Seq::empty() && filter@.owner =~= Seq::empty()
            && filter@.filters =~= Seq::empty());
        entries.push(
            FilterEntry {
                name: Category::Accounts.name(),
                criteria: FilterCriteria::Accounts(filter),
            },
        );
    }

    // Blocks, and the slots that tracking them needs.
    if selection.blocks {
        entries.push(
            FilterEntry {
                name: Category::Blocks.name(),
                criteria: FilterCriteria::Blocks(BlocksFilter::default()),
            },
        );
        entries.push(
            FilterEntry {
                name: Category::Slots.name(),
                criteria: FilterCriteria::Slots(SlotsFilter { filter_by_commitment: None }),
            },
        );
    }

    // Transactions, without votes and without failures.
    if selection.transactions {
        let filter = TransactionsFilter {
            vote: Some(false),
            failed: Some(false),
            signature: None,
            account_include: Vec::new(),
            account_exclude: Vec::new(),
            account_required: Vec::new(),
        };
        assert(filter@.account_include =~= Seq::empty() && filter@.account_exclude
            =~= Seq::empty() && filter@.account_required =~= Seq::empty());
        entries.push(
            FilterEntry {
                name: Category::Transactions.name(),
                criteria: FilterCriteria::Transactions(filter),
            },
        );
    }

    let descriptor = SubscriptionDescriptor { entries };
    proof {
        assert(descriptor@ =~= descriptor_for(selection@));
        lemma_descriptor_for(selection@);
    }
    descriptor
}

/// What the descriptor of a selection holds.
///
/// It is well formed. Its categories are those that the selection asks for,
/// so with blocks it holds both the blocks and the slots category, and for
/// the empty selection it holds nothing. No category has two entries, and
/// every entry bears the name of its category. The entry of the transactions
/// category is always the one without vote and failed transactions and with
/// empty account lists.
pub proof fn lemma_descriptor_for(selection: FilterSelectionView)
    ensures
        well_formed(descriptor_for(selection)),
        forall|category: Category|
            has_category(descriptor_for(selection), category) <==> wanted(selection, category),
        categories(descriptor_for(selection)) == Set::new(
            |category: Category| wanted(selection, category),
        ),
        selection.blocks ==> has_category(descriptor_for(selection), Category::Blocks)
            && has_category(descriptor_for(selection), Category::Slots),
        selection.account is None && !selection.blocks && !selection.transactions
            ==> descriptor_for(selection).len() == 0,
        selection.transactions ==> has_category(descriptor_for(selection), Category::Transactions),
        forall|i: int|
            0 <= i < descriptor_for(selection).len() && (#[trigger] descriptor_for(
                selection,
            )[i]).criteria.category() == Category::Transactions ==> descriptor_for(selection)[i]
                == transactions_entry(),
        forall|i: int, j: int|
            0 <= i < j < descriptor_for(selection).len() ==> (#[trigger] descriptor_for(
                selection,
            )[i]).criteria.category() != (#[trigger] descriptor_for(
                selection,
            )[j]).criteria.category(),
        forall|i: int|
            0 <= i < descriptor_for(selection).len() ==> (#[trigger] descriptor_for(
                selection,
            )[i]).name == descriptor_for(selection)[i].criteria.category().name_spec(),
{
    let d = descriptor_for(selection);
    let a: int = if selection.account is Some { 1 } else { 0 };
    if selection.account is Some {
        assert(d[0] == accounts_entry());
        assert(d[0].criteria.category() == Category::Accounts);
    }
    if selection.blocks {
        assert(d[a] == blocks_entry());
        assert(d[a + 1] == slots_entry());
        assert(d[a].criteria.category() == Category::Blocks);
        assert(d[a + 1].criteria.category() == Category::Slots);
    }
    if selection.transactions {
        let t: int = d.len() - 1;
        assert(d[t] == transactions_entry());
        assert(d[t].criteria.category() == Category::Transactions);
    }
    assert forall|category: Category| has_category(d, category) implies wanted(
        selection,
        category,
    ) by {
        let i: int = choose|i: int|
            0 <= i < d.len() && (#[trigger] d[i]).criteria.category() == category;
        assert(wanted(selection, d[i].criteria.category()));
    }
    assert(categories(d) =~= Set::new(|category: Category| wanted(selection, category)));
}

/// Building is repeatable: what is built from one selection, however often, is
/// one descriptor. The address of the account filter does not enter into it,
/// only whether there is one.
pub proof fn lemma_build_is_repeatable(
    selection: FilterSelectionView,
    again: FilterSelectionView,
    first: SubscriptionDescriptor,
    second: SubscriptionDescriptor,
)
    requires
        selection.account is Some == again.account is Some,
        selection.blocks == again.blocks,
        selection.transactions == again.transactions,
        first@ == descriptor_for(selection),
        second@ == descriptor_for(again),
    ensures
        first@ == second@,
{
}

} // verus!
