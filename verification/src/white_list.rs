use vstd::prelude::*;
use crate::account_id::AccountId;
use crate::account_id::id_eq;
use crate::errors::TransferError;

verus! {

/// Capacity of the allow-list. The record lives in a fixed 400-byte
/// allocation: 8 bytes of record discriminator, 32 bytes of authority and a
/// 4-byte length prefix leave room for 11 entries of 32 bytes each.
pub const MAX_ENTRIES: usize = 11;

/// The singleton allow-list record: an authority with exclusive mutation
/// rights, set once at creation and never reassigned, and an ordered,
/// bounded list of permitted destination identifiers. Insertion order is
/// preserved and duplicates are not prevented.
pub struct WhiteList {
    pub authority: AccountId,
    pub white_list: Vec<AccountId>,
}

impl WhiteList {
    /// The record fits its fixed allocation.
    pub open spec fn wf(&self) -> bool {
        self.white_list@.len() <= MAX_ENTRIES
    }

    /// A fresh record: the creator is the authority, and no destination is
    /// allowed yet.
    pub fn new(authority: &AccountId) -> (r: WhiteList)
        ensures
            r.wf(),
            r.authority == *authority,
            r.white_list@ =~= Seq::<AccountId>::empty(),
    {
        WhiteList { authority: *authority, white_list: Vec::new() }
    }

    /// Exact-membership test of a destination identifier.
    pub fn contains(&self, id: &AccountId) -> (r: bool)
        ensures
            r <==> self.white_list@.contains(*id),
    {
        let n = self.white_list.len();
        let mut i: usize = 0;
        while i < n
            invariant
                i <= n,
                n == self.white_list@.len(),
                forall|j: int| 0 <= j < i ==> self.white_list@[j] != *id,
            decreases n - i,
        {
            if id_eq(&self.white_list[i], id) {
                return true;
            }
            i += 1;
        }
        false
    }

    /// Number of entries, duplicates counted.
    pub fn len(&self) -> (r: usize)
        ensures
            r == self.white_list@.len(),
    {
        self.white_list.len()
    }
}

/// Appends `new_account` at the tail of the allow-list.
///
/// Only the authority may mutate the list; a duplicate identifier is legal
/// and appended like any other. The append fails with `StorageExhausted`
/// exactly when the list already fills its allocation, and a failed call
/// leaves the record unchanged.
pub fn add_to_whitelist(
    white_list: &mut WhiteList,
    new_account: &AccountId,
    signer: &AccountId,
) -> (r: Result<(), TransferError>)
    requires
        old(white_list).wf(),
    ensures
        final(white_list).wf(),
        final(white_list).authority == old(white_list).authority,
        r is Ok <==> (*signer == old(white_list).authority
            && old(white_list).white_list@.len() < MAX_ENTRIES),
        r is Ok ==> final(white_list).white_list@
            =~= old(white_list).white_list@.push(*new_account),
        r is Err ==> *final(white_list) == *old(white_list),
        *signer != old(white_list).authority ==> r matches Err(TransferError::NotAuthorized),
        *signer == old(white_list).authority
            && old(white_list).white_list@.len() >= MAX_ENTRIES
            ==> r matches Err(TransferError::StorageExhausted),
{
    if !id_eq(signer, &white_list.authority) {
        return Err(TransferError::NotAuthorized);
    }
    if white_list.white_list.len() >= MAX_ENTRIES {
        return Err(TransferError::StorageExhausted);
    }
    white_list.white_list.push(*new_account);
    Ok(())
}

/// Removes the first occurrence of `account_to_remove` from the allow-list.
///
/// Only the authority may mutate the list. Exactly one occurrence — the
/// first, by linear scan — is removed; the relative order of the remaining
/// entries is preserved. When no occurrence exists the call fails with
/// `AccountNotFound` and the record is unchanged.
pub fn remove_from_whitelist(
    white_list: &mut WhiteList,
    account_to_remove: &AccountId,
    signer: &AccountId,
) -> (r: Result<(), TransferError>)
    requires
        old(white_list).wf(),
    ensures
        final(white_list).wf(),
        final(white_list).authority == old(white_list).authority,
        r is Ok <==> (*signer == old(white_list).authority
            && old(white_list).white_list@.contains(*account_to_remove)),
        r is Ok ==> (old(white_list).white_list@.index_of_first(*account_to_remove)
            matches Some(i)
            && 0 <= i < old(white_list).white_list@.len()
            && old(white_list).white_list@[i] == *account_to_remove
            && (forall|j: int| 0 <= j < i ==> old(white_list).white_list@[j]
                != *account_to_remove)
            && final(white_list).white_list@ =~= old(white_list).white_list@.remove(i)),
        r is Err ==> *final(white_list) == *old(white_list),
        *signer != old(white_list).authority ==> r matches Err(TransferError::NotAuthorized),
        *signer == old(white_list).authority
            && !old(white_list).white_list@.contains(*account_to_remove)
            ==> r matches Err(TransferError::AccountNotFound),
{
    if !id_eq(signer, &white_list.authority) {
        return Err(TransferError::NotAuthorized);
    }
    let ghost entries = white_list.white_list@;
    let n = white_list.white_list.len();
    let mut i: usize = 0;
    while i < n
        invariant
            i <= n,
            n == entries.len(),
            n <= MAX_ENTRIES,
            *white_list == *old(white_list),
            entries == white_list.white_list@,
            *signer == old(white_list).authority,
            forall|j: int| 0 <= j < i ==> entries[j] != *account_to_remove,
        decreases n - i,
    {
        if id_eq(&white_list.white_list[i], account_to_remove) {
            proof {
                assert(entries[i as int] == *account_to_remove);
                assert(entries.contains(*account_to_remove));
                entries.index_of_first_ensures(*account_to_remove);
                let k = entries.index_of_first(*account_to_remove)->Some_0;
                assert(entries[k] == *account_to_remove);
                assert(k >= i) by {
                    if k < i {
                        assert(entries[k] != *account_to_remove);
                    }
                }
                assert(k <= i) by {
                    if k > i {
                        assert(entries[i as int] != *account_to_remove);
                    }
                }
            }
            white_list.white_list.remove(i);
            proof {
                assert(white_list.white_list@ =~= entries.remove(i as int));
                assert(white_list.white_list@.len() == entries.len() - 1);
            }
            return Ok(());
        }
        i += 1;
    }
    proof {
        assert(!entries.contains(*account_to_remove)) by {
            if entries.contains(*account_to_remove) {
                let k = choose|k: int|
                    0 <= k < entries.len() && entries[k] == *account_to_remove;
                assert(entries[k] != *account_to_remove);
            }
        }
    }
    Err(TransferError::AccountNotFound)
}

/// A duplicate append is counted, not merged: appending an identifier
/// raises its number of occurrences by exactly one and leaves every other
/// identifier's count unchanged.
pub proof fn lemma_append_counts_occurrences(s: Seq<AccountId>, x: AccountId, y: AccountId)
    ensures
        s.push(x).to_multiset().count(x) == s.to_multiset().count(x) + 1,
        y != x ==> s.push(x).to_multiset().count(y) == s.to_multiset().count(y),
{
    s.to_multiset_ensures();
    assert(s.push(x).to_multiset() =~= s.to_multiset().insert(x));
}

/// A removal takes exactly one occurrence: dropping the position that holds
/// `x` lowers the count of `x` by exactly one and leaves every other
/// identifier's count unchanged.
pub proof fn lemma_remove_counts_occurrences(s: Seq<AccountId>, i: int, x: AccountId, y: AccountId)
    requires
        0 <= i < s.len(),
        s[i] == x,
    ensures
        s.remove(i).to_multiset().count(x) + 1 == s.to_multiset().count(x),
        y != x ==> s.remove(i).to_multiset().count(y) == s.to_multiset().count(y),
{
    s.to_multiset_ensures();
    assert(s.contains(x));
    assert(s.to_multiset().count(x) > 0);
    assert(s.remove(i).to_multiset() =~= s.to_multiset().remove(x));
}

} // verus!
