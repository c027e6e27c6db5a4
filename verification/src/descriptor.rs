//! The subscription descriptor: which categories of updates the caller wants,
//! and under which criteria.
//!
//! A descriptor is a list of named filter entries. The category of an entry is
//! the kind of its criteria, so an entry cannot stand in a category that its
//! criteria do not belong to. Contracts speak of a descriptor through its
//! view, a sequence of [`FilterEntryView`].

use vstd::prelude::*;

verus! {

/// A category of updates that a subscription can ask for.
#[derive(Clone, Copy, Debug, PartialEq, Eq, Hash, Structural)]
pub enum Category {
    Accounts,
    Slots,
    Transactions,
    Blocks,
}

impl Category {
    /// The name of the category, which is also the name of the one filter
    /// entry that the request builder files under it.
    pub open spec fn name_spec(self) -> Seq<char> {
        match self {
            Category::Accounts => "accounts"@,
            Category::Slots => "slots"@,
            Category::Transactions => "transactions"@,
            Category::Blocks => "blocks"@,
        }
    }

    /// The name of the category.
    pub fn name(self) -> (name: String)
        ensures
            name@ == self.name_spec(),
    {
        match self {
            Category::Accounts => "accounts".to_owned(),
            Category::Slots => "slots".to_owned(),
            Category::Transactions => "transactions".to_owned(),
            Category::Blocks => "blocks".to_owned(),
        }
    }
}

/// A test on the data of an account.
#[derive(Clone, Debug, PartialEq, Eq)]
pub enum AccountsDataFilter {
    /// The data holds `bytes` at `offset`.
    Memcmp { offset: u64, bytes: Vec<u8> },
    /// The data has this length.
    Datasize(u64),
    /// The data is, or is not, a valid token account.
    TokenAccountState(bool),
}

/// Criteria for account updates: the addresses and owners to match, and tests
/// on the account data. With all three empty the filter matches no account.
#[derive(Clone, Debug, PartialEq, Eq)]
pub struct AccountsFilter {
    pub account: Vec<String>,
    pub owner: Vec<String>,
    pub filters: Vec<AccountsDataFilter>,
}

/// Criteria for slot updates. `None` puts no restriction by commitment level.
#[derive(Clone, Copy, Debug, PartialEq, Eq, Structural)]
pub struct SlotsFilter {
    pub filter_by_commitment: Option<bool>,
}

/// Criteria for transaction updates. `vote` and `failed` say whether vote
/// transactions and failed transactions are wanted; the lists name accounts
/// that a transaction must, must not, or must all mention.
#[derive(Clone, Debug, PartialEq, Eq)]
pub struct TransactionsFilter {
    pub vote: Option<bool>,
    pub failed: Option<bool>,
    pub signature: Option<String>,
    pub account_include: Vec<String>,
    pub account_exclude: Vec<String>,
    pub account_required: Vec<String>,
}

/// Criteria for block updates. The default is unfiltered.
#[derive(Clone, Debug, PartialEq, Eq)]
pub struct BlocksFilter {
    pub account_include: Vec<String>,
    pub include_transactions: Option<bool>,
    pub include_accounts: Option<bool>,
    pub include_entries: Option<bool>,
}

/// The criteria of one filter entry, by category.
#[derive(Clone, Debug, PartialEq, Eq)]
pub enum FilterCriteria {
    Accounts(AccountsFilter),
    Slots(SlotsFilter),
    Transactions(TransactionsFilter),
    Blocks(BlocksFilter),
}

/// A named filter in one category of a descriptor.
#[derive(Clone, Debug, PartialEq, Eq)]
pub struct FilterEntry {
    pub name: String,
    pub criteria: FilterCriteria,
}

/// The structured request that tells the node which updates to deliver.
#[derive(Clone, Debug, PartialEq, Eq)]
pub struct SubscriptionDescriptor {
    pub entries: Vec<FilterEntry>,
}

/// The sequences of characters that a list of strings holds.
pub open spec fn texts(strings: Seq<String>) -> Seq<Seq<char>> {
    strings.map_values(|s: String| s@)
}

/// [`AccountsDataFilter`] as contracts see it.
pub enum AccountsDataFilterView {
    Memcmp { offset: u64, bytes: Seq<u8> },
    Datasize(u64),
    TokenAccountState(bool),
}

/// [`AccountsFilter`] as contracts see it.
pub struct AccountsFilterView {
    pub account: Seq<Seq<char>>,
    pub owner: Seq<Seq<char>>,
    pub filters: Seq<AccountsDataFilterView>,
}

/// [`TransactionsFilter`] as contracts see it.
pub struct TransactionsFilterView {
    pub vote: Option<bool>,
    pub failed: Option<bool>,
    pub signature: Option<Seq<char>>,
    pub account_include: Seq<Seq<char>>,
    pub account_exclude: Seq<Seq<char>>,
    pub account_required: Seq<Seq<char>>,
}

/// [`BlocksFilter`] as contracts see it.
pub struct BlocksFilterView {
    pub account_include: Seq<Seq<char>>,
    pub include_transactions: Option<bool>,
    pub include_accounts: Option<bool>,
    pub include_entries: Option<bool>,
}

/// [`FilterCriteria`] as contracts see it.
pub enum FilterCriteriaView {
    Accounts(AccountsFilterView),
    Slots(SlotsFilter),
    Transactions(TransactionsFilterView),
    Blocks(BlocksFilterView),
}

/// [`FilterEntry`] as contracts see it.
pub struct FilterEntryView {
    pub name: Seq<char>,
    pub criteria: FilterCriteriaView,
}

impl View for AccountsDataFilter {
    type V = AccountsDataFilterView;

    open spec fn view(&self) -> AccountsDataFilterView {
        match *self {
            AccountsDataFilter::Memcmp { offset, bytes } => AccountsDataFilterView::Memcmp {
                offset,
                bytes: bytes@,
            },
            AccountsDataFilter::Datasize(size) => AccountsDataFilterView::Datasize(size),
            AccountsDataFilter::TokenAccountState(valid) => AccountsDataFilterView::TokenAccountState(
                valid,
            ),
        }
    }
}

impl View for AccountsFilter {
    type V = AccountsFilterView;

    open spec fn view(&self) -> AccountsFilterView {
        AccountsFilterView {
            account: texts(self.account@),
            owner: texts(self.owner@),
            filters: self.filters@.map_values(|f: AccountsDataFilter| f@),
        }
    }
}

impl View for TransactionsFilter {
    type V = TransactionsFilterView;

    open spec fn view(&self) -> TransactionsFilterView {
        TransactionsFilterView {
            vote: self.vote,
            failed: self.failed,
            signature: match self.signature {
                Some(s) => Some(s@),
                None => None,
            },
            account_include: texts(self.account_include@),
            account_exclude: texts(self.account_exclude@),
            account_required: texts(self.account_required@),
        }
    }
}

impl View for BlocksFilter {
    type V = BlocksFilterView;

    open spec fn view(&self) -> BlocksFilterView {
        BlocksFilterView {
            account_include: texts(self.account_include@),
            include_transactions: self.include_transactions,
            include_accounts: self.include_accounts,
            include_entries: self.include_entries,
        }
    }
}

impl View for FilterCriteria {
    type V = FilterCriteriaView;

    open spec fn view(&self) -> FilterCriteriaView {
        match *self {
            FilterCriteria::Accounts(f) => FilterCriteriaView::Accounts(f@),
            FilterCriteria::Slots(f) => FilterCriteriaView::Slots(f),
            FilterCriteria::Transactions(f) => FilterCriteriaView::Transactions(f@),
            FilterCriteria::Blocks(f) => FilterCriteriaView::Blocks(f@),
        }
    }
}

impl View for FilterEntry {
    type V = FilterEntryView;

    open spec fn view(&self) -> FilterEntryView {
        FilterEntryView { name: self.name@, criteria: self.criteria@ }
    }
}

impl View for SubscriptionDescriptor {
    type V = Seq<FilterEntryView>;

    open spec fn view(&self) -> Seq<FilterEntryView> {
        self.entries@.map_values(|e: FilterEntry| e@)
    }
}

impl FilterCriteriaView {
    /// The category that the criteria belong to.
    pub open spec fn category(self) -> Category {
        match self {
            FilterCriteriaView::Accounts(_) => Category::Accounts,
            FilterCriteriaView::Slots(_) => Category::Slots,
            FilterCriteriaView::Transactions(_) => Category::Transactions,
            FilterCriteriaView::Blocks(_) => Category::Blocks,
        }
    }
}

/// Whether `entries` hold a filter in `category`.
pub open spec fn has_category(entries: Seq<FilterEntryView>, category: Category) -> bool {
    exists|i: int| 0 <= i < entries.len() && (#[trigger] entries[i]).criteria.category() == category
}

/// The categories in which `entries` hold a filter.
pub open spec fn categories(entries: Seq<FilterEntryView>) -> Set<Category> {
    Set::new(|category: Category| has_category(entries, category))
}

/// What holds of every descriptor that this crate makes: no two entries of one
/// category share a name, and a descriptor that asks for blocks asks for slots
/// too, because block-level tracking needs the slots.
pub open spec fn well_formed(entries: Seq<FilterEntryView>) -> bool {
    &&& forall|i: int, j: int|
        0 <= i < j < entries.len() && (#[trigger] entries[i]).criteria.category() == (
        #[trigger] entries[j]).criteria.category() ==> entries[i].name != entries[j].name
    &&& has_category(entries, Category::Blocks) ==> has_category(entries, Category::Slots)
}

impl FilterCriteria {
    /// The category that the criteria belong to.
    pub fn category(&self) -> (category: Category)
        ensures
            category == self@.category(),
    {
        match self {
            FilterCriteria::Accounts(_) => Category::Accounts,
            FilterCriteria::Slots(_) => Category::Slots,
            FilterCriteria::Transactions(_) => Category::Transactions,
            FilterCriteria::Blocks(_) => Category::Blocks,
        }
    }
}

impl Default for BlocksFilter {
    /// The unfiltered criteria: no account is singled out, and nothing is said
    /// about what a block update includes.
    fn default() -> (filter: BlocksFilter)
        ensures
            filter@ == (BlocksFilterView {
                account_include: Seq::empty(),
                include_transactions: None,
                include_accounts: None,
                include_entries: None,
            }),
    {
        let filter = BlocksFilter {
            account_include: Vec::new(),
            include_transactions: None,
            include_accounts: None,
            include_entries: None,
        };
        assert(filter@.account_include =~= Seq::empty());
        filter
    }
}

impl Default for SubscriptionDescriptor {
    /// The descriptor that asks for nothing.
    fn default() -> (descriptor: SubscriptionDescriptor)
        ensures
            descriptor@ == Seq::<FilterEntryView>::empty(),
            well_formed(descriptor@),
    {
        let descriptor = SubscriptionDescriptor { entries: Vec::new() };
        assert(descriptor@ =~= Seq::empty());
        descriptor
    }
}

impl SubscriptionDescriptor {
    /// Whether the descriptor asks for nothing.
    pub fn is_empty(&self) -> (empty: bool)
        ensures
            empty == (self@.len() == 0),
    {
        self.entries.len() == 0
    }

    /// Whether the descriptor holds a filter in `category`.
    pub fn has_category(&self, category: Category) -> (found: bool)
        ensures
            found == has_category(self@, category),
    {
        let mut i: usize = 0;
        while i < self.entries.len()
            invariant
                i <= self.entries.len(),
                forall|k: int| 0 <= k < i ==> (#[trigger] self@[k]).criteria.category() != category,
            decreases self.entries.len() - i,
        {
            if self.entries[i].criteria.category() == category {
                assert(self@[i as int].criteria.category() == category);
                return true;
            }
            i = i + 1;
        }
        false
    }
}

} // verus!
