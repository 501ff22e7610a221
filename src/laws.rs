use vstd::prelude::*;
use crate::clock::WallClock;
use crate::context::{action_done, find_entry, keep_len, stack_wf};
use crate::schedule::{
    bear_after, bear_fires, is_bear_time, reminder_after, reminder_fires, BearReminder, Reminder,
};
use crate::screen::Drawable;

verus! {

/// With no screen expired on top, the frame step keeps the whole stack; in particular a
/// stack holding only the root keeps its depth of one tick after tick, and the root alone
/// decides whether the display changed (see `loop_iter`).
pub proof fn lemma_idle_stack_kept(s: Seq<Drawable>)
    requires
        stack_wf(s),
        !s.last().spec_expired(),
    ensures
        keep_len(s) == s.len(),
        s.len() == 1 ==> keep_len(s) == 1,
{
}

/// The frame step pops exactly the longest run of expired screens on top of the stack:
/// every popped screen was expired, the screen left on top was not, and the root stays.
pub proof fn lemma_expired_run_popped(s: Seq<Drawable>)
    requires
        stack_wf(s),
    ensures
        1 <= keep_len(s) <= s.len(),
        !s[keep_len(s) - 1].spec_expired(),
        forall|i: int| keep_len(s) <= i < s.len() ==> #[trigger] s[i].spec_expired(),
    decreases s.len(),
{
    if s.last().spec_expired() {
        assert(s.len() > 1);
        let t = s.drop_last();
        assert(stack_wf(t)) by {
            assert forall|i: int| 0 <= i < t.len() implies #[trigger] t[i].wf() by {
                assert(t[i] == s[i]);
            }
        }
        lemma_expired_run_popped(t);
        assert forall|i: int| keep_len(s) <= i < s.len() implies #[trigger] s[i].spec_expired() by {
            if i < s.len() - 1 {
                assert(s[i] == t[i]);
            }
        }
    }
}

/// A reminder that has not fired in the current minute fires exactly when the clock shows
/// its hour and minute and the root is the only screen.
pub proof fn lemma_reminder_fires_iff(r: Reminder, depth: int, now: WallClock)
    requires
        r.last_fired != Some(now.minute_stamp() as u64),
    ensures
        reminder_fires(r, depth, now) <==> (now.hour == r.hour && now.minute == r.minute && depth == 1),
{
}

/// A reminder fires at most once per matching minute: once it has fired, no later check
/// within the same minute fires it again, whatever the stack depth.
pub proof fn lemma_reminder_once_per_minute(r: Reminder, now: WallClock, later: WallClock, depth: int)
    requires
        later.minute_stamp() == now.minute_stamp(),
    ensures
        !reminder_fires(reminder_after(r, now), depth, later),
{
}

/// Of two checks of the day-scoped reminder within the same matching minute (or day),
/// exactly one fires: the first, if the reminder has not fired that day yet.
pub proof fn lemma_day_reminder_once(b: BearReminder, first: WallClock, second: WallClock)
    requires
        is_bear_time(first),
        b.last_day != first.julian_day,
        second.julian_day == first.julian_day,
    ensures
        bear_fires(b, first),
        !bear_fires(bear_after(b, first), second),
{
}

/// Requesting a known screen raises the number of active screens by exactly one;
/// requesting an unknown id leaves it unchanged.
pub proof fn lemma_action_count(reg: Seq<Drawable>, id: Seq<char>, before: Seq<Drawable>, after: Seq<Drawable>)
    requires
        action_done(reg, id, before, after),
    ensures
        find_entry(reg, id) is Some ==> after.len() == before.len() + 1,
        find_entry(reg, id) is None ==> after.len() == before.len(),
{
}

} // verus!
