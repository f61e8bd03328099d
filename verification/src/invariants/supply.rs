use crate::identity::Identity;
use crate::instructions::initialize::{initial_pool, InitializeParams};
use crate::instructions::preserve_heritage::{
    family_after_preservation, pool_after_preservation, preservation_refusal,
};
use crate::instructions::purchase_tokens::{
    family_after_purchase, lemma_step_never_lowers, pool_after_purchase, price_steps,
    purchase_refusal, stepped_price,
};
use crate::state::family_account::FamilyAccount;
use crate::state::token_pool::TokenPool;
use vstd::prelude::*;

verus! {

/// The pool together with the account of every family there may be. The
/// account of a family that has bought nothing yet is there as well, blank.
pub struct Books {
    pub pool: TokenPool,
    pub families: Seq<FamilyAccount>,
}

/// One entry in the books: a purchase or a preservation, by the family whose
/// account is at `slot`.
pub enum Entry {
    Purchase { slot: int, buyer: Identity, amount: u64, now: i64, bump: u8 },
    Preservation { slot: int, ipfs_hash: Seq<char>, token_cost: u64 },
}

/// The sum of one column over all the accounts.
pub open spec fn total(families: Seq<FamilyAccount>, column: spec_fn(FamilyAccount) -> int) -> int
    decreases families.len(),
{
    if families.len() == 0 {
        0
    } else {
        total(families.drop_last(), column) + column(families.last())
    }
}

/// Tokens that the families hold.
pub open spec fn total_balance(families: Seq<FamilyAccount>) -> int {
    total(families, |f: FamilyAccount| f.token_balance as int)
}

/// Tokens that the families have spent.
pub open spec fn total_spent(families: Seq<FamilyAccount>) -> int {
    total(families, |f: FamilyAccount| f.total_spent as int)
}

/// Trees that the families have funded.
pub open spec fn total_trees_funded(families: Seq<FamilyAccount>) -> int {
    total(families, |f: FamilyAccount| f.trees_funded as int)
}

/// Heritage items that the families have preserved.
pub open spec fn total_heritage_items(families: Seq<FamilyAccount>) -> int {
    total(families, |f: FamilyAccount| f.heritage_items as int)
}

/// The books after a purchase. One that is refused, or names no account,
/// leaves them as they were.
pub open spec fn purchased(books: Books, slot: int, buyer: Identity, amount: u64, now: i64, bump: u8)
    -> Books {
    if 0 <= slot < books.families.len() && purchase_refusal(
        books.pool,
        books.families[slot],
        amount,
    ) is None {
        Books {
            pool: pool_after_purchase(books.pool, amount),
            families: books.families.update(
                slot,
                family_after_purchase(books.families[slot], buyer, amount, now, bump),
            ),
        }
    } else {
        books
    }
}

/// The books after a preservation. One that is refused, or names no account,
/// leaves them as they were.
pub open spec fn preserved(books: Books, slot: int, ipfs_hash: Seq<char>, token_cost: u64)
    -> Books {
    if 0 <= slot < books.families.len() && preservation_refusal(
        books.pool,
        books.families[slot],
        ipfs_hash,
        token_cost,
    ) is None {
        Books {
            pool: pool_after_preservation(books.pool, token_cost),
            families: books.families.update(
                slot,
                family_after_preservation(books.pool, books.families[slot], token_cost),
            ),
        }
    } else {
        books
    }
}

/// The books after one entry.
pub open spec fn entered(books: Books, entry: Entry) -> Books {
    match entry {
        Entry::Purchase { slot, buyer, amount, now, bump } => purchased(
            books,
            slot,
            buyer,
            amount,
            now,
            bump,
        ),
        Entry::Preservation { slot, ipfs_hash, token_cost } => preserved(
            books,
            slot,
            ipfs_hash,
            token_cost,
        ),
    }
}

/// The books after a run of entries, the first of them entered first.
pub open spec fn entered_all(books: Books, entries: Seq<Entry>) -> Books
    decreases entries.len(),
{
    if entries.len() == 0 {
        books
    } else {
        entered(entered_all(books, entries.drop_last()), entries.last())
    }
}

/// Whether a run of entries holds purchases only.
pub open spec fn purchases_only(entries: Seq<Entry>) -> bool {
    forall|i: int| 0 <= i < entries.len() ==> entries[i] is Purchase
}

/// Every token issued is held by a family or has been spent by one.
pub open spec fn supply_accounted(books: Books) -> bool {
    total_balance(books.families) + total_spent(books.families) == books.pool.total_supply
}

/// What the pool counts as funded and preserved is what the families have
/// funded and preserved.
pub open spec fn funding_accounted(books: Books) -> bool {
    &&& total_trees_funded(books.families) == books.pool.trees_funded
    &&& total_heritage_items(books.families) == books.pool.heritage_preserved
}

/// The books right after the pool was set up: nothing issued, every account
/// blank.
pub open spec fn opening_books(
    authority: Identity,
    params: InitializeParams,
    bump: u8,
    families: Seq<FamilyAccount>,
) -> Books {
    Books { pool: initial_pool(authority, params, bump), families }
}

/// Whether every account is blank.
pub open spec fn all_blank(families: Seq<FamilyAccount>) -> bool {
    forall|i: int| 0 <= i < families.len() ==> (#[trigger] families[i]).blank()
}

proof fn lemma_total_after_update(
    families: Seq<FamilyAccount>,
    slot: int,
    account: FamilyAccount,
    column: spec_fn(FamilyAccount) -> int,
)
    requires
        0 <= slot < families.len(),
    ensures
        total(families.update(slot, account), column) == total(families, column) - column(
            families[slot],
        ) + column(account),
    decreases families.len(),
{
    let updated = families.update(slot, account);
    if slot == families.len() - 1 {
        assert(updated.drop_last() =~= families.drop_last());
    } else {
        lemma_total_after_update(families.drop_last(), slot, account, column);
        assert(updated.drop_last() =~= families.drop_last().update(slot, account));
    }
}

proof fn lemma_total_of_blank(families: Seq<FamilyAccount>)
    requires
        all_blank(families),
    ensures
        total_balance(families) == 0,
        total_spent(families) == 0,
        total_trees_funded(families) == 0,
        total_heritage_items(families) == 0,
    decreases families.len(),
{
    if families.len() > 0 {
        lemma_total_of_blank(families.drop_last());
    }
}

/// A purchase adds to the supply what it adds to the buyer's balance, and
/// touches no other column.
pub proof fn lemma_purchase_keeps_accounts(
    books: Books,
    slot: int,
    buyer: Identity,
    amount: u64,
    now: i64,
    bump: u8,
)
    ensures
        ({
            let after = purchased(books, slot, buyer, amount, now, bump);
            &&& after.families.len() == books.families.len()
            &&& total_balance(after.families) - total_balance(books.families)
                == after.pool.total_supply - books.pool.total_supply
            &&& total_spent(after.families) == total_spent(books.families)
            &&& total_trees_funded(after.families) == total_trees_funded(books.families)
            &&& total_heritage_items(after.families) == total_heritage_items(books.families)
            &&& after.pool.trees_funded == books.pool.trees_funded
            &&& after.pool.heritage_preserved == books.pool.heritage_preserved
            &&& after.pool.token_price >= books.pool.token_price
            &&& after.pool.total_supply >= books.pool.total_supply
        }),
{
    if 0 <= slot < books.families.len() && purchase_refusal(
        books.pool,
        books.families[slot],
        amount,
    ) is None {
        let account = family_after_purchase(books.families[slot], buyer, amount, now, bump);
        lemma_total_after_update(
            books.families,
            slot,
            account,
            |f: FamilyAccount| f.token_balance as int,
        );
        lemma_total_after_update(
            books.families,
            slot,
            account,
            |f: FamilyAccount| f.total_spent as int,
        );
        lemma_total_after_update(
            books.families,
            slot,
            account,
            |f: FamilyAccount| f.trees_funded as int,
        );
        lemma_total_after_update(
            books.families,
            slot,
            account,
            |f: FamilyAccount| f.heritage_items as int,
        );
        lemma_step_never_lowers(books.pool.token_price as int);
    }
}

/// A preservation moves its cost from the family's balance to what the
/// family has spent, and adds to the pool's counters what it adds to the
/// family's.
pub proof fn lemma_preservation_keeps_accounts(
    books: Books,
    slot: int,
    ipfs_hash: Seq<char>,
    token_cost: u64,
)
    ensures
        ({
            let after = preserved(books, slot, ipfs_hash, token_cost);
            &&& after.families.len() == books.families.len()
            &&& total_balance(after.families) + total_spent(after.families) == total_balance(
                books.families,
            ) + total_spent(books.families)
            &&& total_trees_funded(after.families) - total_trees_funded(books.families)
                == after.pool.trees_funded - books.pool.trees_funded
            &&& total_heritage_items(after.families) - total_heritage_items(books.families)
                == after.pool.heritage_preserved - books.pool.heritage_preserved
            &&& after.pool.total_supply == books.pool.total_supply
            &&& after.pool.token_price == books.pool.token_price
        }),
{
    if 0 <= slot < books.families.len() && preservation_refusal(
        books.pool,
        books.families[slot],
        ipfs_hash,
        token_cost,
    ) is None {
        let account = family_after_preservation(books.pool, books.families[slot], token_cost);
        lemma_total_after_update(
            books.families,
            slot,
            account,
            |f: FamilyAccount| f.token_balance as int,
        );
        lemma_total_after_update(
            books.families,
            slot,
            account,
            |f: FamilyAccount| f.total_spent as int,
        );
        lemma_total_after_update(
            books.families,
            slot,
            account,
            |f: FamilyAccount| f.trees_funded as int,
        );
        lemma_total_after_update(
            books.families,
            slot,
            account,
            |f: FamilyAccount| f.heritage_items as int,
        );
    }
}

/// Whatever is entered, in whatever order, every token issued stays
/// accounted for, the pool's counters stay those of the families, and
/// neither the price nor the supply ever falls.
pub proof fn lemma_entries_keep_accounts(books: Books, entries: Seq<Entry>)
    ensures
        ({
            let after = entered_all(books, entries);
            &&& after.families.len() == books.families.len()
            &&& supply_accounted(books) ==> supply_accounted(after)
            &&& funding_accounted(books) ==> funding_accounted(after)
            &&& after.pool.token_price >= books.pool.token_price
            &&& after.pool.total_supply >= books.pool.total_supply
        }),
    decreases entries.len(),
{
    if entries.len() > 0 {
        let before = entered_all(books, entries.drop_last());
        lemma_entries_keep_accounts(books, entries.drop_last());
        match entries.last() {
            Entry::Purchase { slot, buyer, amount, now, bump } => {
                lemma_purchase_keeps_accounts(before, slot, buyer, amount, now, bump);
            },
            Entry::Preservation { slot, ipfs_hash, token_cost } => {
                lemma_preservation_keeps_accounts(before, slot, ipfs_hash, token_cost);
            },
        }
    }
}

/// Purchases alone spend nothing: what the families have spent stays what
/// it was.
pub proof fn lemma_purchases_spend_nothing(books: Books, entries: Seq<Entry>)
    requires
        purchases_only(entries),
    ensures
        total_spent(entered_all(books, entries).families) == total_spent(books.families),
    decreases entries.len(),
{
    if entries.len() > 0 {
        let before = entered_all(books, entries.drop_last());
        lemma_purchases_spend_nothing(books, entries.drop_last());
        match entries.last() {
            Entry::Purchase { slot, buyer, amount, now, bump } => {
                lemma_purchase_keeps_accounts(before, slot, buyer, amount, now, bump);
            },
            Entry::Preservation { .. } => {},
        }
    }
}

/// Conservation. From the day the pool is set up, after any run of
/// purchases, the balances of the families add up to the supply.
pub proof fn lemma_purchases_conserve_supply(
    authority: Identity,
    params: InitializeParams,
    bump: u8,
    families: Seq<FamilyAccount>,
    entries: Seq<Entry>,
)
    requires
        all_blank(families),
        purchases_only(entries),
    ensures
        ({
            let after = entered_all(opening_books(authority, params, bump, families), entries);
            total_balance(after.families) == after.pool.total_supply
        }),
{
    let books = opening_books(authority, params, bump, families);
    lemma_total_of_blank(families);
    lemma_entries_keep_accounts(books, entries);
    lemma_purchases_spend_nothing(books, entries);
}

/// From the day the pool is set up, after any run of purchases and
/// preservations, every token issued is held or has been spent, and the
/// pool's counters are those of the families.
pub proof fn lemma_books_stay_accounted(
    authority: Identity,
    params: InitializeParams,
    bump: u8,
    families: Seq<FamilyAccount>,
    entries: Seq<Entry>,
)
    requires
        all_blank(families),
    ensures
        ({
            let after = entered_all(opening_books(authority, params, bump, families), entries);
            &&& supply_accounted(after)
            &&& funding_accounted(after)
            &&& after.pool.token_price >= params.token_price
        }),
{
    let books = opening_books(authority, params, bump, families);
    lemma_total_of_blank(families);
    lemma_entries_keep_accounts(books, entries);
}

/// Pricing. One purchase moves the price exactly when it is of something
/// and brings the supply onto a multiple of the interval, and then by one
/// step; the price never falls.
pub proof fn lemma_price_moves_by_steps(
    books: Books,
    slot: int,
    buyer: Identity,
    amount: u64,
    now: i64,
    bump: u8,
)
    requires
        0 <= slot < books.families.len(),
        purchase_refusal(books.pool, books.families[slot], amount) is None,
    ensures
        ({
            let after = purchased(books, slot, buyer, amount, now, bump);
            &&& price_steps(books.pool.total_supply, amount) ==> after.pool.token_price
                == stepped_price(books.pool.token_price as int)
            &&& !price_steps(books.pool.total_supply, amount) ==> after.pool.token_price
                == books.pool.token_price
            &&& after.pool.token_price >= books.pool.token_price
        }),
{
    lemma_step_never_lowers(books.pool.token_price as int);
}

} // verus!
