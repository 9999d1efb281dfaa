//! The state records of the three modules, with their mathematical views.

use vstd::prelude::*;

verus! {

/// A claimed username, mapping the name to the wallet that owns it. At most
/// one record exists per name; it is created once and never changed.
pub struct UsernameAccount {
    /// The wallet that claimed the name.
    pub authority: u64,
    /// The name itself.
    pub username: String,
}

/// Mathematical view of a [`UsernameAccount`].
pub ghost struct UsernameView {
    pub authority: u64,
    pub username: Seq<char>,
}

impl View for UsernameAccount {
    type V = UsernameView;

    open spec fn view(&self) -> UsernameView {
        UsernameView { authority: self.authority, username: self.username@ }
    }
}

/// One piece of paid content, embedded in its creator's account. Items are
/// append-only: never edited, never removed.
pub struct ContentItem {
    /// Per-creator id, counting up from 1.
    pub id: u64,
    /// Display title.
    pub title: String,
    /// Price in native units.
    pub price: u64,
    /// Opaque locator of the encrypted off-chain payload.
    pub encrypted_cid: Vec<u8>,
}

/// Mathematical view of a [`ContentItem`].
pub ghost struct ContentItemView {
    pub id: u64,
    pub title: Seq<char>,
    pub price: u64,
    pub encrypted_cid: Seq<u8>,
}

impl View for ContentItem {
    type V = ContentItemView;

    open spec fn view(&self) -> ContentItemView {
        ContentItemView {
            id: self.id,
            title: self.title@,
            price: self.price,
            encrypted_cid: self.encrypted_cid@,
        }
    }
}

/// A creator's account: the wallet payments go to, the id counter, and the
/// catalog of content items in insertion order. One per creator.
pub struct CreatorAccount {
    /// The creator's verified wallet; payments are sent here.
    pub creator_wallet: u64,
    /// The id handed to the most recently added item; 0 before any item.
    pub last_content_id: u64,
    /// The catalog, in insertion order.
    pub content: Vec<ContentItem>,
}

/// Mathematical view of a [`CreatorAccount`].
pub ghost struct CreatorView {
    pub creator_wallet: u64,
    pub last_content_id: u64,
    pub content: Seq<ContentItemView>,
}

impl View for CreatorAccount {
    type V = CreatorView;

    open spec fn view(&self) -> CreatorView {
        CreatorView {
            creator_wallet: self.creator_wallet,
            last_content_id: self.last_content_id,
            content: self.content@.map_values(|c: ContentItem| c@),
        }
    }
}

impl CreatorView {
    /// Internal shape of a creator account: the counter equals the catalog's
    /// length, and the item at position `i` carries id `i + 1`, so ids form
    /// the sequence 1, 2, 3, ... in insertion order.
    pub open spec fn wf(self) -> bool {
        &&& self.last_content_id == self.content.len()
        &&& forall|i: int| 0 <= i < self.content.len() ==> #[trigger] self.content[i].id == i + 1
    }

    /// Whether the catalog holds an item with the given id.
    pub open spec fn has_content(self, content_id: u64) -> bool {
        exists|i: int| 0 <= i < self.content.len() && #[trigger] self.content[i].id == content_id
    }

    /// The position of the item with the given id.
    pub open spec fn content_index(self, content_id: u64) -> int {
        choose|i: int| 0 <= i < self.content.len() && #[trigger] self.content[i].id == content_id
    }

    /// The item with the given id.
    pub open spec fn content_at(self, content_id: u64) -> ContentItemView {
        self.content[self.content_index(content_id)]
    }
}

/// Proof that under [`CreatorView::wf`] an id identifies at most one item:
/// the item with id `content_id` sits at position `content_id - 1`.
pub proof fn lemma_content_index_unique(c: CreatorView, content_id: u64, i: int)
    requires
        c.wf(),
        0 <= i < c.content.len(),
        c.content[i].id == content_id,
    ensures
        c.has_content(content_id),
        c.content_index(content_id) == i,
        i == content_id - 1,
{
    assert(c.has_content(content_id));
    let j = c.content_index(content_id);
    assert(0 <= j < c.content.len() && c.content[j].id == content_id);
}

/// The receipt that proves a buyer paid for a content id. Its existence alone
/// is the proof: at most one exists per (buyer, content id) pair.
#[derive(Clone, Copy, Debug, PartialEq, Eq, Structural)]
pub struct PaidAccessAccount {
    /// The wallet that paid.
    pub buyer: u64,
    /// The content id the payment was for.
    pub content_id: u64,
}

/// A user's sponsorship record. `is_sponsored` moves from false to true
/// exactly once; nothing ever resets it.
#[derive(Clone, Copy, Debug, PartialEq, Eq, Structural)]
pub struct SponsoredUserAccount {
    /// The user the record belongs to.
    pub user: u64,
    /// Whether the one-shot sponsorship has been used.
    pub is_sponsored: bool,
    /// Chain timestamp of the sponsorship, 0 before it.
    pub sponsored_at: i64,
    /// The sponsored amount, 0 before the sponsorship.
    pub amount: u64,
}

/// The singleton treasury and governance record.
#[derive(Clone, Copy, Debug, PartialEq, Eq, Structural)]
pub struct VaultState {
    /// The wallet holding the vault's funds.
    pub vault_wallet: u64,
    /// The admin allowed to change parameters and withdraw.
    pub admin: u64,
    /// Platform fee in basis points (10000 = 100%).
    pub fee_percentage: u64,
    /// Amount handed to each sponsored user.
    pub sponsorship_amount: u64,
    /// Sum of all fees ever collected.
    pub total_collected: u64,
    /// Sum of all sponsorships ever recorded.
    pub total_sponsored: u64,
    /// Set once at creation, never cleared.
    pub is_initialized: bool,
}

} // verus!
