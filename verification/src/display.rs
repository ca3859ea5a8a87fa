//! Suppressing the pickup display of an item for a while.

use vstd::multiset::Multiset;
use vstd::prelude::*;

use crate::client_core::Core;
use crate::item_id::ItemId;

verus! {

/// For how long the pickup display of a granted item stays suppressed, in
/// nanoseconds.
pub const ITEM_GET_DISPLAY_SUPPRESSION_DURATION: u64 = 75_000_000;

/// How the pickup of an item is displayed.
#[derive(Clone, Copy, Debug, PartialEq, Eq, Structural)]
pub struct ItemGetDisplay {
    pub show_log: bool,
    pub show_dialog: u8,
}

impl ItemGetDisplay {
    /// Returns the display of an item whose pickup is only logged.
    pub fn suppressed() -> (display: ItemGetDisplay)
        ensures
            display == (ItemGetDisplay { show_log: true, show_dialog: 0 }),
    {
        ItemGetDisplay { show_log: true, show_dialog: 0 }
    }

    /// Replaces the display of an item. Returns what it was.
    pub fn replace(&mut self, display: ItemGetDisplay) -> (previous: ItemGetDisplay)
        ensures
            *final(self) == display,
            previous == *old(self),
    {
        let previous = *self;
        *self = display;
        previous
    }
}

/// The pickup display of an item that is to be restored.
#[derive(Clone, Copy, Debug, PartialEq, Eq, Structural)]
pub struct ItemGetDisplayRestore {
    pub id: ItemId,
    pub previous: ItemGetDisplay,
    pub restore_at: u64,
}

/// Whether no two of `restores` are for the same item.
pub open spec fn distinct_items(restores: Seq<ItemGetDisplayRestore>) -> bool {
    forall|i: int, j: int|
        0 <= i < j < restores.len() ==> (#[trigger] restores[i]).id != (#[trigger] restores[j]).id
}

/// Whether one of `restores` is for the item `id`.
pub open spec fn is_suppressed(restores: Seq<ItemGetDisplayRestore>, id: ItemId) -> bool {
    exists|i: int| 0 <= i < restores.len() && (#[trigger] restores[i]).id == id
}

/// Whether `after` is what becomes of `before` when the display of `id` is suppressed
/// until `restore_at`: an item that is suppressed already keeps the display that is
/// to be restored, which is `previous` for any other.
pub open spec fn suppresses(
    before: Seq<ItemGetDisplayRestore>,
    id: ItemId,
    previous: ItemGetDisplay,
    restore_at: u64,
    after: Seq<ItemGetDisplayRestore>,
) -> bool {
    &&& !is_suppressed(before, id) ==> after == before.push(
        ItemGetDisplayRestore { id, previous, restore_at },
    )
    &&& forall|i: int|
        0 <= i < before.len() && (#[trigger] before[i]).id == id ==> after == before.update(
            i,
            ItemGetDisplayRestore { id, previous: before[i].previous, restore_at },
        )
}

/// What a sweep over `restores` from `index` on takes out at the time `now`, and what
/// it leaves. The last one fills the gap that one taken out leaves.
pub open spec fn swept(
    restores: Seq<ItemGetDisplayRestore>,
    index: int,
    now: u64,
) -> (Seq<ItemGetDisplayRestore>, Seq<ItemGetDisplayRestore>)
    decreases restores.len() - index,
{
    if index < 0 || index >= restores.len() {
        (Seq::empty(), restores)
    } else if restores[index].restore_at > now {
        swept(restores, index + 1, now)
    } else {
        let (expired, left) = swept(
            restores.update(index, restores.last()).drop_last(),
            index,
            now,
        );
        (seq![restores[index]] + expired, left)
    }
}

impl Core {
    /// Notes that the display of an item was suppressed at the time `now`. `previous`
    /// is how its pickup was displayed until then, or nothing where that could not be
    /// changed.
    pub fn suppress_item_get_display(
        &mut self,
        id: ItemId,
        previous: Option<ItemGetDisplay>,
        now: u64,
    )
        requires
            old(self).well_formed(),
            now + ITEM_GET_DISPLAY_SUPPRESSION_DURATION <= u64::MAX,
        ensures
            final(self).well_formed(),
            final(self).last_item_time == old(self).last_item_time,
            final(self).locations_sent == old(self).locations_sent,
            final(self).sent_goal == old(self).sent_goal,
            previous is None ==> final(self).item_get_display_restores@ == old(
                self,
            ).item_get_display_restores@,
            previous matches Some(display) ==> suppresses(
                old(self).item_get_display_restores@,
                id,
                display,
                (now + ITEM_GET_DISPLAY_SUPPRESSION_DURATION) as u64,
                final(self).item_get_display_restores@,
            ),
    {
        let Some(display) = previous else {
            return;
        };
        let ghost before = self.item_get_display_restores@;
        let restore_at = now + ITEM_GET_DISPLAY_SUPPRESSION_DURATION;
        let mut index: usize = 0;
        while index < self.item_get_display_restores.len()
            invariant
                *self == *old(self),
                index <= before.len(),
                before == self.item_get_display_restores@,
                forall|i: int| 0 <= i < index ==> (#[trigger] before[i]).id != id,
                old(self).well_formed(),
                previous == Some(display),
                restore_at == now + ITEM_GET_DISPLAY_SUPPRESSION_DURATION,
            decreases before.len() - index,
        {
            let restore = self.item_get_display_restores[index];
            if restore.id == id {
                self.item_get_display_restores[index] = ItemGetDisplayRestore {
                    id,
                    previous: restore.previous,
                    restore_at,
                };
                return;
            }
            index = index + 1;
        }
        self.item_get_display_restores.push(
            ItemGetDisplayRestore { id, previous: display, restore_at },
        );
    }

    /// Takes out the displays that are to be restored at the time `now`, in the order
    /// in which they are to be.
    pub fn restore_expired_item_get_displays(
        &mut self,
        now: u64,
    ) -> (expired: Vec<ItemGetDisplayRestore>)
        requires
            old(self).well_formed(),
        ensures
            final(self).well_formed(),
            final(self).last_item_time == old(self).last_item_time,
            final(self).locations_sent == old(self).locations_sent,
            final(self).sent_goal == old(self).sent_goal,
            (expired@, final(self).item_get_display_restores@) == swept(
                old(self).item_get_display_restores@,
                0,
                now,
            ),
    {
        let ghost all = self.item_get_display_restores@;
        let mut expired: Vec<ItemGetDisplayRestore> = Vec::new();
        let mut index: usize = 0;
        while index < self.item_get_display_restores.len()
            invariant
                self.well_formed(),
                self.last_item_time == old(self).last_item_time,
                self.locations_sent == old(self).locations_sent,
                self.sent_goal == old(self).sent_goal,
                index <= self.item_get_display_restores@.len(),
                swept(all, 0, now).0 == expired@ + swept(
                    self.item_get_display_restores@,
                    index as int,
                    now,
                ).0,
                swept(all, 0, now).1 == swept(
                    self.item_get_display_restores@,
                    index as int,
                    now,
                ).1,
            decreases self.item_get_display_restores@.len() - index,
        {
            if self.item_get_display_restores[index].restore_at > now {
                index = index + 1;
                continue;
            }
            expired.push(self.item_get_display_restores.swap_remove(index));
        }
        expired
    }
}

/// A sweep takes out exactly the displays whose time has come and leaves the others:
/// none is lost or made up.
pub proof fn law_sweep_splits_by_time(
    restores: Seq<ItemGetDisplayRestore>,
    index: int,
    now: u64,
)
    requires
        0 <= index <= restores.len(),
        forall|i: int| 0 <= i < index ==> (#[trigger] restores[i]).restore_at > now,
    ensures
        ({
            let (expired, left) = swept(restores, index, now);
            &&& expired.to_multiset().add(left.to_multiset()) == restores.to_multiset()
            &&& forall|i: int| 0 <= i < expired.len() ==> (#[trigger] expired[i]).restore_at <= now
            &&& forall|i: int| 0 <= i < left.len() ==> (#[trigger] left[i]).restore_at > now
        }),
    decreases restores.len() - index,
{
    if index < restores.len() {
        if restores[index].restore_at > now {
            law_sweep_splits_by_time(restores, index + 1, now);
        } else {
            let rest = restores.update(index, restores.last()).drop_last();
            law_sweep_splits_by_time(rest, index, now);
            lemma_swap_remove_multiset(restores, index);
            let expired = swept(restores, index, now).0;
            let others = swept(rest, index, now).0;
            assert(expired.remove(0) =~= others);
            expired.to_multiset_ensures();
            lemma_remove_then_insert(restores.to_multiset(), restores[index]);
        }
    } else {
        Seq::<ItemGetDisplayRestore>::empty().to_multiset_ensures();
    }
}

/// Taking one of something out and putting it back changes nothing.
proof fn lemma_remove_then_insert(
    restores: Multiset<ItemGetDisplayRestore>,
    restore: ItemGetDisplayRestore,
)
    requires
        restores.count(restore) > 0,
    ensures
        restores.remove(restore).insert(restore) == restores,
{
}

/// Filling the gap that one element leaves with the last one changes only the order.
proof fn lemma_swap_remove_multiset(restores: Seq<ItemGetDisplayRestore>, index: int)
    requires
        0 <= index < restores.len(),
    ensures
        restores.to_multiset().contains(restores[index]),
        restores.update(index, restores.last()).drop_last().to_multiset()
            == restores.to_multiset().remove(restores[index]),
{
    let last = restores.len() - 1;
    let rest = restores.update(index, restores.last()).drop_last();
    restores.to_multiset_ensures();
    if index == last {
        assert(rest =~= restores.remove(index));
    } else {
        rest.to_multiset_ensures();
        restores.remove(index).to_multiset_ensures();
        assert(rest.remove(index) =~= restores.remove(index).remove(last - 1));
        assert(restores.remove(index).remove(last - 1).to_multiset() == restores.remove(
            index,
        ).to_multiset().remove(restores.last()));
        lemma_remove_then_insert(restores.remove(index).to_multiset(), restores.last());
    }
}

/// Suppressing the display of an item again before it is restored only puts the
/// restoring off: what is restored in the end is the display from before the first
/// time.
pub proof fn law_first_display_is_restored(
    before: Seq<ItemGetDisplayRestore>,
    between: Seq<ItemGetDisplayRestore>,
    after: Seq<ItemGetDisplayRestore>,
    id: ItemId,
    first: ItemGetDisplay,
    second: ItemGetDisplay,
    first_time: u64,
    second_time: u64,
)
    requires
        !is_suppressed(before, id),
        suppresses(before, id, first, first_time, between),
        suppresses(between, id, second, second_time, after),
    ensures
        after == before.push(
            ItemGetDisplayRestore { id, previous: first, restore_at: second_time },
        ),
{
    let last = before.len() as int;
    assert(between[last].id == id);
}

/// The display of an item stays suppressed until its time, and is restored by the first
/// sweep from then on.
pub proof fn law_display_is_restored_in_time(
    before: Seq<ItemGetDisplayRestore>,
    id: ItemId,
    previous: ItemGetDisplay,
    restore_at: u64,
    after: Seq<ItemGetDisplayRestore>,
    now: u64,
)
    requires
        suppresses(before, id, previous, restore_at, after),
    ensures
        now < restore_at ==> is_suppressed(swept(after, 0, now).1, id),
        now >= restore_at ==> is_suppressed(swept(after, 0, now).0, id),
{
    let index = if is_suppressed(before, id) {
        choose|i: int| 0 <= i < before.len() && (#[trigger] before[i]).id == id
    } else {
        before.len() as int
    };
    let restore = after[index];
    let (expired, left) = swept(after, 0, now);
    law_sweep_splits_by_time(after, 0, now);
    after.to_multiset_ensures();
    expired.to_multiset_ensures();
    left.to_multiset_ensures();
    assert(after.contains(restore));
    assert(after.to_multiset().count(restore) > 0);
    assert(expired.to_multiset().add(left.to_multiset()).count(restore) > 0);
    assert(expired.contains(restore) || left.contains(restore));
}

} // verus!
